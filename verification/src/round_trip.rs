//! Parsing undoes formatting: what a format wrote for a time, the same
//! format reads back.

use crate::format::{formatted, hour12, quotient, remainder, specifier_text, steps_text};
use crate::names::lemma_occurs_char;
use crate::parse::{
    at_utc_offset, parsed, parsed_specifier, parsed_steps, reader, stored, ParseError, Reader,
};
use crate::round_trip::fields::lemma_field_round_trip;
use crate::round_trip::numbers::{
    lemma_plain_1, lemma_plain_4, lemma_space_padded_2, lemma_split, lemma_zero_padded_2,
    lemma_zero_padded_3,
};
use crate::table::{expansion, literal, DEPTH};
use crate::text::magnitude;
use crate::tm::TmView;
use vstd::prelude::*;

mod fields;
mod numbers;

verus! {

/// The value that the field specifier `ch` reads from what it has written
/// for `t`: the number it wrote, or what the name it wrote stands for.
pub open spec fn read_back(ch: char, t: TmView) -> int {
    if ch == 'A' || ch == 'a' || ch == 'w' {
        t.wday
    } else if ch == 'u' {
        if t.wday == 0 {
            7
        } else {
            t.wday
        }
    } else if ch == 'B' || ch == 'b' || ch == 'h' {
        t.mon
    } else if ch == 'm' {
        t.mon + 1
    } else if ch == 'C' {
        quotient(t.year + 1900, 100)
    } else if ch == 'Y' {
        t.year + 1900
    } else if ch == 'y' {
        remainder(t.year + 1900, 100)
    } else if ch == 'd' || ch == 'e' {
        t.mday
    } else if ch == 'H' || ch == 'k' {
        t.hour
    } else if ch == 'I' || ch == 'l' {
        hour12(t.hour)
    } else if ch == 'P' || ch == 'p' {
        if t.hour < 12 {
            0
        } else {
            12
        }
    } else if ch == 'j' {
        t.yday + 1
    } else if ch == 'M' {
        t.min
    } else if ch == 'S' {
        t.sec
    } else {
        0
    }
}

/// Whether the specifier `ch`, which is no composite, reads what it has
/// written for `t` to the end and not beyond, whatever follows: a name is
/// one of its set, a number has as many digits as are read. `%Z` and `%s`
/// never do: the first reads up to the next blank, the second is not read
/// at all.
pub open spec fn field_reads_back(ch: char, t: TmView) -> bool {
    if literal(ch) is Some || ch == 'P' || ch == 'p' {
        true
    } else if ch == 'A' || ch == 'a' {
        0 <= t.wday <= 6
    } else if ch == 'B' || ch == 'b' || ch == 'h' {
        0 <= t.mon <= 11
    } else if ch == 'u' || ch == 'w' {
        0 <= read_back(ch, t) <= 9
    } else if ch == 'Y' {
        1000 <= read_back(ch, t) <= 9999
    } else if ch == 'j' {
        0 <= read_back(ch, t) <= 999
    } else if reader(ch) is Some {
        0 <= read_back(ch, t) <= 99
    } else if ch == 'z' {
        magnitude(t.gmtoff) < 360_000
    } else {
        false
    }
}

/// The time `tm` after the specifier `ch`, which is no composite, has read
/// what it has written for `t`.
pub open spec fn field_replayed(ch: char, tm: TmView, t: TmView) -> TmView {
    if ch == 'z' {
        if magnitude(t.gmtoff) < 60 {
            at_utc_offset(tm)
        } else {
            tm
        }
    } else {
        stored(ch, read_back(ch, t), tm)
    }
}

/// Whether every specifier of the format `f`, from index `at` on, reads
/// what it has written for `t` to the end and not beyond, so that the
/// format as a whole reads back what it wrote.
pub open spec fn steps_read_back(f: Seq<char>, at: int, t: TmView, depth: nat) -> bool
    decreases depth, f.len() - at, 1int,
{
    if at < 0 || at >= f.len() {
        true
    } else if f[at] != '%' {
        steps_read_back(f, at + 1, t, depth)
    } else if at + 1 >= f.len() {
        false
    } else {
        specifier_reads_back(f[at + 1], t, depth) && steps_read_back(f, at + 2, t, depth)
    }
}

/// Whether the specifier `%ch` reads what it has written for `t` to the
/// end and not beyond.
pub open spec fn specifier_reads_back(ch: char, t: TmView, depth: nat) -> bool
    decreases depth, 0int, 0int,
{
    match expansion(ch) {
        Some(sub) => depth > 0 && steps_read_back(sub, 0, t, (depth - 1) as nat),
        None => field_reads_back(ch, t),
    }
}

/// The time `tm` after the format `f`, from index `at` on, has read what
/// it has written for `t`: each specifier in turn has left its mark.
pub open spec fn steps_replayed(f: Seq<char>, at: int, tm: TmView, t: TmView, depth: nat) -> TmView
    decreases depth, f.len() - at, 1int,
{
    if at < 0 || at >= f.len() {
        tm
    } else if f[at] != '%' {
        steps_replayed(f, at + 1, tm, t, depth)
    } else if at + 1 >= f.len() {
        tm
    } else {
        steps_replayed(f, at + 2, specifier_replayed(f[at + 1], tm, t, depth), t, depth)
    }
}

/// The time `tm` after the specifier `%ch` has read what it has written
/// for `t`.
pub open spec fn specifier_replayed(ch: char, tm: TmView, t: TmView, depth: nat) -> TmView
    decreases depth, 0int, 0int,
{
    match expansion(ch) {
        Some(sub) => if depth > 0 {
            steps_replayed(sub, 0, tm, t, (depth - 1) as nat)
        } else {
            tm
        },
        None => field_replayed(ch, tm, t),
    }
}

/// No composite specifier stands for the empty format.
proof fn lemma_expansion_not_empty(ch: char)
    requires
        expansion(ch) is Some,
    ensures
        expansion(ch)->0.len() > 0,
{
    reveal_strlit("%a %b %e %T %Y");
    reveal_strlit("%m/%d/%y");
    reveal_strlit("%Y-%m-%d");
    reveal_strlit("%H:%M");
    reveal_strlit("%I:%M:%S %p");
    reveal_strlit("%H:%M:%S");
    reveal_strlit("%e-%b-%Y");
}

/// Where the input from position `pos` on is what the format `f` has
/// written for `t` from index `at` on, followed by `tail`, the walk of `f`
/// from there reads it all, up to `tail`, and leaves the time that
/// [`steps_replayed`] says.
proof fn lemma_steps_round_trip(
    s: Seq<char>,
    pos: int,
    f: Seq<char>,
    at: int,
    tm: TmView,
    t: TmView,
    depth: nat,
    tail: Seq<char>,
)
    requires
        0 <= at <= f.len(),
        0 <= pos <= s.len(),
        steps_read_back(f, at, t, depth),
        s.subrange(pos, s.len() as int) == steps_text(f, at, t, None, depth) + tail,
    ensures
        parsed_steps(s, pos, f, at, tm, depth) == Ok::<(int, TmView), ParseError>(
            (s.len() - tail.len(), steps_replayed(f, at, tm, t, depth)),
        ),
        at < f.len() ==> steps_text(f, at, t, None, depth).len() > 0,
    decreases depth, f.len() - at, 1int,
{
    let text = steps_text(f, at, t, None, depth);
    if at >= f.len() {
    } else if f[at] != '%' {
        let rest = steps_text(f, at + 1, t, None, depth);
        assert(text + tail == seq![f[at]] + (rest + tail));
        lemma_split(s, pos, seq![f[at]], rest + tail);
        lemma_occurs_char(s, pos, seq![f[at]], 0);
        lemma_steps_round_trip(s, pos + 1, f, at + 1, tm, t, depth, tail);
    } else {
        let ch = f[at + 1];
        let piece = specifier_text(ch, t, None, depth);
        let rest = steps_text(f, at + 2, t, None, depth);
        assert(text + tail == piece + (rest + tail));
        lemma_specifier_round_trip(s, pos, ch, tm, t, depth, rest + tail);
        lemma_split(s, pos, piece, rest + tail);
        lemma_steps_round_trip(
            s,
            pos + piece.len(),
            f,
            at + 2,
            specifier_replayed(ch, tm, t, depth),
            t,
            depth,
            tail,
        );
    }
}

/// Where the input from position `pos` on is what the specifier `%ch` has
/// written for `t`, followed by `tail`, the specifier reads it all, up to
/// `tail`, and leaves the time that [`specifier_replayed`] says.
proof fn lemma_specifier_round_trip(
    s: Seq<char>,
    pos: int,
    ch: char,
    tm: TmView,
    t: TmView,
    depth: nat,
    tail: Seq<char>,
)
    requires
        0 <= pos <= s.len(),
        specifier_reads_back(ch, t, depth),
        s.subrange(pos, s.len() as int) == specifier_text(ch, t, None, depth) + tail,
    ensures
        parsed_specifier(s, pos, ch, tm, depth) == Ok::<(int, TmView), ParseError>(
            (s.len() - tail.len(), specifier_replayed(ch, tm, t, depth)),
        ),
        specifier_text(ch, t, None, depth).len() > 0,
    decreases depth, 0int, 0int,
{
    let text = specifier_text(ch, t, None, depth);
    match expansion(ch) {
        Some(sub) => {
            lemma_expansion_not_empty(ch);
            lemma_steps_round_trip(s, pos, sub, 0, tm, t, (depth - 1) as nat, tail);
        },
        None => {
            lemma_split(s, pos, text, tail);
            lemma_field_round_trip(s, pos, ch, tm, t);
        },
    }
}

/// Whether the format `format` reads back what it writes for `t`: every
/// `%` in it has a letter behind it, and each of its specifiers writes a
/// text for `t` that it reads to the end and not beyond. That holds of a
/// name that is one of its set and of a number that has as many digits as
/// are read; it never holds of `%Z`, `%s` and `%X`.
pub open spec fn reads_back(format: Seq<char>, t: TmView) -> bool {
    steps_read_back(format, 0, t, DEPTH as nat)
}

/// The time that parsing leaves behind when `format` reads what it has
/// written for `t`: every field zero but for what the specifiers of the
/// format have learned, one after the other.
pub open spec fn replayed(format: Seq<char>, t: TmView) -> TmView {
    steps_replayed(format, 0, TmView::zero(), t, DEPTH as nat)
}

/// Parsing undoes formatting, for every format that reads back what it
/// writes: the text that `format` writes for `t` is parsed by `format`
/// without error, and the result holds what each specifier of the format
/// reads back from `t`.
pub proof fn lemma_format_round_trip(format: Seq<char>, t: TmView)
    requires
        reads_back(format, t),
    ensures
        parsed(formatted(format, t, None), format) == Ok::<TmView, ParseError>(
            replayed(format, t),
        ),
{
    let s = formatted(format, t, None);
    assert(s.subrange(0, s.len() as int) == s);
    lemma_steps_round_trip(
        s,
        0,
        format,
        0,
        TmView::zero(),
        t,
        DEPTH as nat,
        Seq::<char>::empty(),
    );
}

/// Whether the single specifier `%ch` gives back the fields of `t` that it
/// speaks of. The fields must lie where a calendar has them: seconds from
/// 0 to 60, minutes to 59, hours to 23, days of the month from 1 to 31,
/// months from 0 to 11, weekdays from 0 to 6, days of the year from 0 to
/// 365. Some specifiers write less than the field holds and give back
/// less of it:
///
/// - `%C` writes the century only, `%y` the year in its century only, and
///   `%Y` reads four digits: the first gives back a year that begins a
///   century from 0 to 9900, the second a year from 0 to 99, the third a
///   year from 1000 to 9999;
/// - `%I` and `%l` write the hour on the twelve-hour clock and give back
///   the hours before noon; `%P` and `%p` write the half of the day and
///   give back its first hour, 0 or 12; `%r` has both and gives back every
///   hour;
/// - `%u` writes Sunday as 7 and gives back the other days;
/// - `%z` learns nothing from an offset other than zero, and takes the
///   zone's name away where it learns that;
/// - `%Z` and `%s` give nothing back, and `%X` is not read at all.
pub open spec fn round_trips(ch: char, t: TmView) -> bool {
    let weekday = 0 <= t.wday <= 6;
    let month = 0 <= t.mon <= 11;
    let day = 1 <= t.mday <= 31;
    let hour = 0 <= t.hour <= 23;
    let minute = 0 <= t.min <= 59;
    let second = 0 <= t.sec <= 60;
    let year4 = 1000 <= t.year + 1900 <= 9999;
    let year2 = 0 <= t.year + 1900 <= 99;
    if literal(ch) is Some {
        true
    } else if ch == 'A' || ch == 'a' || ch == 'w' {
        weekday
    } else if ch == 'u' {
        1 <= t.wday <= 6
    } else if ch == 'B' || ch == 'b' || ch == 'h' || ch == 'm' {
        month
    } else if ch == 'C' {
        0 <= t.year + 1900 <= 9900 && (t.year + 1900) % 100 == 0
    } else if ch == 'Y' {
        year4
    } else if ch == 'y' {
        year2
    } else if ch == 'd' || ch == 'e' {
        day
    } else if ch == 'H' || ch == 'k' {
        hour
    } else if ch == 'I' || ch == 'l' {
        0 <= t.hour <= 11
    } else if ch == 'P' || ch == 'p' {
        t.hour == 0 || t.hour == 12
    } else if ch == 'j' {
        0 <= t.yday <= 365
    } else if ch == 'M' {
        minute
    } else if ch == 'S' {
        second
    } else if ch == 'z' {
        t.gmtoff == 0 && t.zone is None
    } else if ch == 'c' {
        weekday && month && day && hour && minute && second && year4
    } else if ch == 'D' || ch == 'x' {
        month && day && year2
    } else if ch == 'F' {
        year4 && month && day
    } else if ch == 'R' {
        hour && minute
    } else if ch == 'r' || ch == 'T' {
        hour && minute && second
    } else if ch == 'v' {
        day && month && year4
    } else {
        false
    }
}

/// The fields of `t` that the specifier `%ch` speaks of, and zero in every
/// other field.
pub open spec fn kept(ch: char, t: TmView) -> TmView {
    let zero = TmView::zero();
    if ch == 'A' || ch == 'a' || ch == 'u' || ch == 'w' {
        TmView { wday: t.wday, ..zero }
    } else if ch == 'B' || ch == 'b' || ch == 'h' || ch == 'm' {
        TmView { mon: t.mon, ..zero }
    } else if ch == 'C' || ch == 'Y' || ch == 'y' {
        TmView { year: t.year, ..zero }
    } else if ch == 'd' || ch == 'e' {
        TmView { mday: t.mday, ..zero }
    } else if ch == 'H' || ch == 'I' || ch == 'k' || ch == 'l' || ch == 'P' || ch == 'p' {
        TmView { hour: t.hour, ..zero }
    } else if ch == 'j' {
        TmView { yday: t.yday, ..zero }
    } else if ch == 'M' {
        TmView { min: t.min, ..zero }
    } else if ch == 'S' {
        TmView { sec: t.sec, ..zero }
    } else if ch == 'z' {
        TmView { gmtoff: t.gmtoff, zone: t.zone, ..zero }
    } else if ch == 'c' {
        TmView {
            wday: t.wday,
            mon: t.mon,
            mday: t.mday,
            hour: t.hour,
            min: t.min,
            sec: t.sec,
            year: t.year,
            ..zero
        }
    } else if ch == 'D' || ch == 'x' || ch == 'F' || ch == 'v' {
        TmView { mon: t.mon, mday: t.mday, year: t.year, ..zero }
    } else if ch == 'R' {
        TmView { hour: t.hour, min: t.min, ..zero }
    } else if ch == 'r' || ch == 'T' {
        TmView { hour: t.hour, min: t.min, sec: t.sec, ..zero }
    } else {
        zero
    }
}

/// The round trip of a specifier that is no composite.
proof fn lemma_round_trip_field(ch: char, t: TmView)
    requires
        round_trips(ch, t),
        expansion(ch) is None,
    ensures
        reads_back(seq!['%', ch], t),
        replayed(seq!['%', ch], t) == kept(ch, t),
{
    reveal_with_fuel(steps_read_back, 3);
    reveal_with_fuel(steps_replayed, 3);
}

/// A format of one specifier reads back, and leaves behind, what the
/// specifier does.
proof fn lemma_single_specifier(ch: char, tm: TmView, t: TmView, depth: nat)
    ensures
        steps_read_back(seq!['%', ch], 0, t, depth) == specifier_reads_back(ch, t, depth),
        steps_replayed(seq!['%', ch], 0, tm, t, depth) == specifier_replayed(ch, tm, t, depth),
{
    reveal_with_fuel(steps_read_back, 3);
    reveal_with_fuel(steps_replayed, 3);
}

/// What `%H:%M:%S` reads back.
proof fn lemma_replay_time(tm: TmView, t: TmView, depth: nat)
    ensures
        steps_read_back("%H:%M:%S"@, 0, t, depth) == (field_reads_back('H', t) && field_reads_back(
            'M',
            t,
        ) && field_reads_back('S', t)),
        steps_replayed("%H:%M:%S"@, 0, tm, t, depth) == field_replayed(
            'S',
            field_replayed('M', field_replayed('H', tm, t), t),
            t,
        ),
{
    reveal_strlit("%H:%M:%S");
    reveal_with_fuel(steps_read_back, 7);
    reveal_with_fuel(steps_replayed, 7);
}

/// What `%H:%M` reads back.
proof fn lemma_replay_hour_and_minute(tm: TmView, t: TmView, depth: nat)
    ensures
        steps_read_back("%H:%M"@, 0, t, depth) == (field_reads_back('H', t) && field_reads_back(
            'M',
            t,
        )),
        steps_replayed("%H:%M"@, 0, tm, t, depth) == field_replayed(
            'M',
            field_replayed('H', tm, t),
            t,
        ),
{
    reveal_strlit("%H:%M");
    reveal_with_fuel(steps_read_back, 5);
    reveal_with_fuel(steps_replayed, 5);
}

/// What `%I:%M:%S %p` reads back.
proof fn lemma_replay_half_days(tm: TmView, t: TmView, depth: nat)
    ensures
        steps_read_back("%I:%M:%S %p"@, 0, t, depth) == (field_reads_back('I', t)
            && field_reads_back('M', t) && field_reads_back('S', t) && field_reads_back('p', t)),
        steps_replayed("%I:%M:%S %p"@, 0, tm, t, depth) == field_replayed(
            'p',
            field_replayed('S', field_replayed('M', field_replayed('I', tm, t), t), t),
            t,
        ),
{
    reveal_strlit("%I:%M:%S %p");
    reveal_with_fuel(steps_read_back, 9);
    reveal_with_fuel(steps_replayed, 9);
}

/// What `%m/%d/%y` reads back.
proof fn lemma_replay_short_date(tm: TmView, t: TmView, depth: nat)
    ensures
        steps_read_back("%m/%d/%y"@, 0, t, depth) == (field_reads_back('m', t) && field_reads_back(
            'd',
            t,
        ) && field_reads_back('y', t)),
        steps_replayed("%m/%d/%y"@, 0, tm, t, depth) == field_replayed(
            'y',
            field_replayed('d', field_replayed('m', tm, t), t),
            t,
        ),
{
    reveal_strlit("%m/%d/%y");
    reveal_with_fuel(steps_read_back, 7);
    reveal_with_fuel(steps_replayed, 7);
}

/// What `%Y-%m-%d` reads back.
proof fn lemma_replay_long_date(tm: TmView, t: TmView, depth: nat)
    ensures
        steps_read_back("%Y-%m-%d"@, 0, t, depth) == (field_reads_back('Y', t) && field_reads_back(
            'm',
            t,
        ) && field_reads_back('d', t)),
        steps_replayed("%Y-%m-%d"@, 0, tm, t, depth) == field_replayed(
            'd',
            field_replayed('m', field_replayed('Y', tm, t), t),
            t,
        ),
{
    reveal_strlit("%Y-%m-%d");
    reveal_with_fuel(steps_read_back, 7);
    reveal_with_fuel(steps_replayed, 7);
}

/// What `%e-%b-%Y` reads back.
proof fn lemma_replay_named_date(tm: TmView, t: TmView, depth: nat)
    ensures
        steps_read_back("%e-%b-%Y"@, 0, t, depth) == (field_reads_back('e', t) && field_reads_back(
            'b',
            t,
        ) && field_reads_back('Y', t)),
        steps_replayed("%e-%b-%Y"@, 0, tm, t, depth) == field_replayed(
            'Y',
            field_replayed('b', field_replayed('e', tm, t), t),
            t,
        ),
{
    reveal_strlit("%e-%b-%Y");
    reveal_with_fuel(steps_read_back, 7);
    reveal_with_fuel(steps_replayed, 7);
}

/// What `%a %b %e %T %Y` reads back, on a level where `%T` is known.
proof fn lemma_replay_date_and_time(tm: TmView, t: TmView, depth: nat)
    requires
        depth > 0,
    ensures
        steps_read_back("%a %b %e %T %Y"@, 0, t, depth) == (field_reads_back('a', t)
            && field_reads_back('b', t) && field_reads_back('e', t) && specifier_reads_back(
            'T',
            t,
            depth,
        ) && field_reads_back('Y', t)),
        steps_replayed("%a %b %e %T %Y"@, 0, tm, t, depth) == field_replayed(
            'Y',
            specifier_replayed(
                'T',
                field_replayed('e', field_replayed('b', field_replayed('a', tm, t), t), t),
                t,
                depth,
            ),
            t,
        ),
{
    reveal_strlit("%a %b %e %T %Y");
    reveal_with_fuel(steps_read_back, 11);
    reveal_with_fuel(steps_replayed, 11);
}

/// The round trip of a composite specifier.
proof fn lemma_round_trip_composite(ch: char, t: TmView)
    requires
        round_trips(ch, t),
        expansion(ch) is Some,
    ensures
        reads_back(seq!['%', ch], t),
        replayed(seq!['%', ch], t) == kept(ch, t),
{
    let zero = TmView::zero();
    lemma_single_specifier(ch, zero, t, 2);
    if ch == 'c' {
        lemma_replay_date_and_time(zero, t, 1);
        lemma_replay_time(
            field_replayed('e', field_replayed('b', field_replayed('a', zero, t), t), t),
            t,
            0,
        );
    } else if ch == 'D' || ch == 'x' {
        lemma_replay_short_date(zero, t, 1);
    } else if ch == 'F' {
        lemma_replay_long_date(zero, t, 1);
    } else if ch == 'R' {
        lemma_replay_hour_and_minute(zero, t, 1);
    } else if ch == 'r' {
        lemma_replay_half_days(zero, t, 1);
    } else if ch == 'T' {
        lemma_replay_time(zero, t, 1);
    } else {
        lemma_replay_named_date(zero, t, 1);
    }
}

/// Round trip: for every specifier `%ch` and every time `t` whose fields
/// it gives back, parsing what `%ch` writes for `t`, with `%ch`, succeeds
/// and gives a time that agrees with `t` in the fields that `%ch` speaks
/// of, and is zero elsewhere.
pub proof fn lemma_round_trip(ch: char, t: TmView)
    requires
        round_trips(ch, t),
    ensures
        parsed(formatted(seq!['%', ch], t, None), seq!['%', ch]) == Ok::<TmView, ParseError>(
            kept(ch, t),
        ),
{
    if expansion(ch) is Some {
        lemma_round_trip_composite(ch, t);
    } else {
        lemma_round_trip_field(ch, t);
    }
    lemma_format_round_trip(seq!['%', ch], t);
}

/// Exact width of the numbers: a specifier that reads a number of a fixed
/// count of digits writes exactly that many characters for every time
/// whose field it reads back. So `%d` writes the day 3 as `03`, and `%e`
/// writes it as ` 3`.
pub proof fn lemma_number_width(ch: char, t: TmView)
    requires
        reader(ch) matches Some(Reader::Number { .. }),
        field_reads_back(ch, t),
    ensures
        reader(ch) matches Some(Reader::Number { digits, .. }) && formatted(
            seq!['%', ch],
            t,
            None,
        ).len() == digits,
{
    let v: int = read_back(ch, t);
    reveal_with_fuel(steps_text, 3);
    if ch == 'u' || ch == 'w' {
        lemma_plain_1(v);
    } else if ch == 'Y' {
        lemma_plain_4(v);
    } else if ch == 'j' {
        lemma_zero_padded_3(v);
    } else if ch == 'e' || ch == 'k' || ch == 'l' {
        lemma_space_padded_2(v);
    } else {
        lemma_zero_padded_2(v);
    }
}

/// The two clocks agree: for every hour of the day, what `%I %p` writes,
/// the hour on the twelve-hour clock and the half of the day, is read
/// back by `%I %p` as that hour. Midnight is written as `12 AM` and read
/// as 0, three in the afternoon as `03 PM` and read as 15.
pub proof fn lemma_twelve_hour_clock(t: TmView)
    requires
        0 <= t.hour <= 23,
    ensures
        parsed(formatted("%I %p"@, t, None), "%I %p"@) == Ok::<TmView, ParseError>(
            TmView { hour: t.hour, ..TmView::zero() },
        ),
{
    let format = "%I %p"@;
    reveal_strlit("%I %p");
    reveal_with_fuel(steps_read_back, 5);
    reveal_with_fuel(steps_replayed, 5);
    lemma_format_round_trip(format, t);
}

} // verus!
