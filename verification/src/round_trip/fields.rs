//! Each field specifier reads back what it has written.

use crate::format::field_text;
use crate::names::{lemma_name_found, lemma_occurs_char, occurs_at, Names};
use crate::parse::{parsed_field, reader, stored, ParseError, Reader};
use crate::round_trip::numbers::{
    lemma_plain_1, lemma_plain_4, lemma_reads_1, lemma_reads_2, lemma_reads_3, lemma_reads_4,
    lemma_reads_blank_2, lemma_reads_digits_4, lemma_space_padded_2, lemma_zero_padded_2,
    lemma_zero_padded_3,
};
use crate::round_trip::{field_reads_back, field_replayed, read_back};
use crate::table::literal;
use crate::text::{digit_char, magnitude, space_padded, zero_padded};
use crate::tm::TmView;
use vstd::prelude::*;

verus! {

/// A field that reads two characters reads back a number from 0 to 99 that
/// was filled with zeros.
pub(crate) proof fn lemma_field_zero_2(s: Seq<char>, pos: int, ch: char, tm: TmView, v: int, blanks: bool)
    requires
        reader(ch) == Some(Reader::Number { digits: 2, blanks: blanks }),
        0 <= v <= 99,
        occurs_at(s, pos, zero_padded(v, 2)),
    ensures
        parsed_field(s, pos, ch, tm) == Ok::<(int, TmView), ParseError>(
            (pos + 2, stored(ch, v, tm)),
        ),
        zero_padded(v, 2).len() == 2,
{
    lemma_zero_padded_2(v);
    lemma_reads_2(s, pos, v, blanks);
}

/// A field that reads two characters, blanks among them, reads back a
/// number from 0 to 99 that was filled with blanks.
pub(crate) proof fn lemma_field_space_2(s: Seq<char>, pos: int, ch: char, tm: TmView, v: int)
    requires
        reader(ch) == Some(Reader::Number { digits: 2, blanks: true }),
        0 <= v <= 99,
        occurs_at(s, pos, space_padded(v, 2)),
    ensures
        parsed_field(s, pos, ch, tm) == Ok::<(int, TmView), ParseError>(
            (pos + 2, stored(ch, v, tm)),
        ),
        space_padded(v, 2).len() == 2,
{
    lemma_space_padded_2(v);
    if v < 10 {
        lemma_reads_blank_2(s, pos, v);
    } else {
        lemma_reads_2(s, pos, v, true);
    }
}

/// A field that reads a name reads back the name at index `i` of its set.
pub(crate) proof fn lemma_field_name(s: Seq<char>, pos: int, ch: char, tm: TmView, table: Names, i: int)
    requires
        reader(ch) == Some(Reader::Name(table)),
        0 <= i < table.count(),
        occurs_at(s, pos, table.name(i)),
    ensures
        parsed_field(s, pos, ch, tm) == Ok::<(int, TmView), ParseError>(
            (pos + table.name(i).len(), stored(ch, table.value(i), tm)),
        ),
        table.name(i).len() > 0,
{
    lemma_name_found(s, pos, table, i);
}

/// `%z` reads back the offset it has written, if the hours have two
/// digits, and learns from it only whether it is `0000`.
pub(crate) proof fn lemma_field_offset(s: Seq<char>, pos: int, tm: TmView, t: TmView)
    requires
        magnitude(t.gmtoff) < 360_000,
        occurs_at(s, pos, field_text('z', t, None)),
    ensures
        parsed_field(s, pos, 'z', tm) == Ok::<(int, TmView), ParseError>(
            (pos + 5, field_replayed('z', tm, t)),
        ),
        field_text('z', t, None).len() == 5,
{
    let minutes: int = magnitude(t.gmtoff) as int / 60;
    let h: int = minutes / 60;
    let m: int = minutes % 60;
    lemma_zero_padded_2(h);
    lemma_zero_padded_2(m);
    let text = field_text('z', t, None);
    let digits = seq![
        digit_char(h / 10),
        digit_char(h % 10),
        digit_char(m / 10),
        digit_char(m % 10),
    ];
    lemma_occurs_char(s, pos, text, 0);
    assert(s.subrange(pos + 1, pos + 5) == digits) by {
        assert(s.subrange(pos + 1, pos + 5) == s.subrange(pos, pos + 5).subrange(1, 5));
    }
    lemma_reads_digits_4(s, pos + 1, h / 10, h % 10, m / 10, m % 10, false);
}

/// A specifier that is no composite reads back what it has written for
/// `t`: it takes exactly its own text, which is not empty, and learns from
/// it what [`field_replayed`] says.
pub(crate) proof fn lemma_field_round_trip(s: Seq<char>, pos: int, ch: char, tm: TmView, t: TmView)
    requires
        field_reads_back(ch, t),
        occurs_at(s, pos, field_text(ch, t, None)),
    ensures
        parsed_field(s, pos, ch, tm) == Ok::<(int, TmView), ParseError>(
            (pos + field_text(ch, t, None).len(), field_replayed(ch, tm, t)),
        ),
        field_text(ch, t, None).len() > 0,
{
    let text = field_text(ch, t, None);
    let v: int = read_back(ch, t);
    if literal(ch) is Some {
        lemma_occurs_char(s, pos, text, 0);
    } else if ch == 'A' {
        lemma_field_name(s, pos, ch, tm, Names::Weekday, t.wday);
    } else if ch == 'a' {
        lemma_field_name(s, pos, ch, tm, Names::WeekdayShort, t.wday);
    } else if ch == 'B' {
        lemma_field_name(s, pos, ch, tm, Names::Month, t.mon);
    } else if ch == 'b' || ch == 'h' {
        lemma_field_name(s, pos, ch, tm, Names::MonthShort, t.mon);
    } else if ch == 'P' {
        lemma_field_name(
            s,
            pos,
            ch,
            tm,
            Names::HalfLower,
            if t.hour < 12 {
                0
            } else {
                1
            },
        );
    } else if ch == 'p' {
        lemma_field_name(
            s,
            pos,
            ch,
            tm,
            Names::HalfUpper,
            if t.hour < 12 {
                0
            } else {
                1
            },
        );
    } else if ch == 'u' || ch == 'w' {
        lemma_plain_1(v);
        lemma_reads_1(s, pos, v, false);
    } else if ch == 'Y' {
        lemma_plain_4(v);
        lemma_reads_4(s, pos, v, false);
    } else if ch == 'j' {
        lemma_zero_padded_3(v);
        lemma_reads_3(s, pos, v, false);
    } else if ch == 'e' || ch == 'k' || ch == 'l' {
        lemma_field_space_2(s, pos, ch, tm, v);
    } else if ch == 'z' {
        lemma_field_offset(s, pos, tm, t);
    } else {
        lemma_field_zero_2(s, pos, ch, tm, v, false);
    }
}

} // verus!
