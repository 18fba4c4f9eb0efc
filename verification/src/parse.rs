//! Reading a broken-down time out of a text, as a format tells.

use crate::names::{first_name_at, match_names, occurs_at, starts_at, Names};
use crate::table::{expansion, expansion_of, literal, literal_of, DEPTH};
use crate::text::{digit_value, digit_value_of, is_digit, to_chars};
use crate::tm::{empty_tm, Tm, TmView};
use vstd::prelude::*;

verus! {

/// Why a text does not match a format. Positions count characters of the
/// input from zero.
#[derive(Clone, Copy, Debug, PartialEq, Eq, Structural)]
pub enum ParseError {
    /// The format asks for the character `expected` where the input has `found`.
    UnmatchedLiteral { position: usize, expected: char, found: char },
    /// None of the names of `%specifier` stands at `position`.
    UnmatchedNamedField { position: usize, specifier: char },
    /// The number of `%specifier` lacks a digit at `position`: the input ends
    /// there, or holds something else.
    MalformedNumericField { position: usize, specifier: char },
    /// The format is used up and the input goes on at `position`.
    TrailingInput { position: usize },
    /// The input is used up at `position` and the format goes on.
    PrematureEnd { position: usize },
    /// The format holds `%letter`, which nothing is known of when parsing,
    /// or ends in a single `%`.
    UnknownSpecifier { letter: Option<char> },
}

/// The name of the field that `%specifier` reads, as the messages have it.
pub open spec fn field_name(specifier: char) -> Seq<char> {
    if specifier == 'A' || specifier == 'a' {
        "day"@
    } else if specifier == 'B' || specifier == 'b' || specifier == 'h' || specifier == 'm' {
        "month"@
    } else if specifier == 'C' || specifier == 'Y' || specifier == 'y' {
        "year"@
    } else if specifier == 'd' || specifier == 'e' {
        "day of the month"@
    } else if specifier == 'H' || specifier == 'I' || specifier == 'k' || specifier == 'l'
        || specifier == 'P' || specifier == 'p' {
        "hour"@
    } else if specifier == 'j' {
        "day of the year"@
    } else if specifier == 'M' {
        "minute"@
    } else if specifier == 'S' {
        "second"@
    } else if specifier == 'u' || specifier == 'w' {
        "weekday"@
    } else if specifier == 'z' {
        "zone offset"@
    } else {
        "time"@
    }
}

/// The name of the field that `%specifier` reads.
pub(crate) fn field_name_of(specifier: char) -> (name: &'static str)
    ensures
        name@ == field_name(specifier),
{
    if specifier == 'A' || specifier == 'a' {
        "day"
    } else if specifier == 'B' || specifier == 'b' || specifier == 'h' || specifier == 'm' {
        "month"
    } else if specifier == 'C' || specifier == 'Y' || specifier == 'y' {
        "year"
    } else if specifier == 'd' || specifier == 'e' {
        "day of the month"
    } else if specifier == 'H' || specifier == 'I' || specifier == 'k' || specifier == 'l'
        || specifier == 'P' || specifier == 'p' {
        "hour"
    } else if specifier == 'j' {
        "day of the year"
    } else if specifier == 'M' {
        "minute"
    } else if specifier == 'S' {
        "second"
    } else if specifier == 'u' || specifier == 'w' {
        "weekday"
    } else if specifier == 'z' {
        "zone offset"
    } else {
        "time"
    }
}

impl ParseError {
    /// The reason in words. A field that could not be read is named:
    /// `Invalid hour`. A character that differs is shown beside the one
    /// that was asked for: `Expected ":", found "x"`. Input that ends too
    /// early or goes on too long is an `Invalid time`.
    pub open spec fn message_text(self) -> Seq<char> {
        match self {
            ParseError::UnmatchedLiteral { position, expected, found } => "Expected \""@.push(
                expected,
            ) + "\", found \""@.push(found).push('"'),
            ParseError::UnmatchedNamedField { position, specifier } => "Invalid "@ + field_name(
                specifier,
            ),
            ParseError::MalformedNumericField { position, specifier } => "Invalid "@ + field_name(
                specifier,
            ),
            ParseError::TrailingInput { position } => "Invalid time"@,
            ParseError::PrematureEnd { position } => "Invalid time"@,
            ParseError::UnknownSpecifier { letter } => match letter {
                Some(c) => "unknown formatting type: \""@.push(c).push('"'),
                None => "unknown formatting type: \"\""@,
            },
        }
    }

    /// The reason in words.
    pub fn message(&self) -> (text: String)
        ensures
            text@ == self.message_text(),
    {
        match self {
            ParseError::UnmatchedLiteral { position, expected, found } => {
                let mut text = String::from_str("Expected \"");
                text.push(*expected);
                text.append("\", found \"");
                text.push(*found);
                text.push('"');
                text
            },
            ParseError::UnmatchedNamedField { position, specifier } => {
                let mut text = String::from_str("Invalid ");
                text.append(field_name_of(*specifier));
                text
            },
            ParseError::MalformedNumericField { position, specifier } => {
                let mut text = String::from_str("Invalid ");
                text.append(field_name_of(*specifier));
                text
            },
            ParseError::TrailingInput { position } => String::from_str("Invalid time"),
            ParseError::PrematureEnd { position } => String::from_str("Invalid time"),
            ParseError::UnknownSpecifier { letter } => match letter {
                Some(c) => {
                    let mut text = String::from_str("unknown formatting type: \"");
                    text.push(*c);
                    text.push('"');
                    text
                },
                None => String::from_str("unknown formatting type: \"\""),
            },
        }
    }
}

/// How a field's specifier reads its value from the input.
#[derive(Clone, Copy, Debug, PartialEq, Eq, Structural)]
pub enum Reader {
    /// One name out of a set.
    Name(Names),
    /// A number of exactly `digits` characters, which may begin with blanks
    /// in place of digits if `blanks` is set.
    Number { digits: usize, blanks: bool },
}

/// The way in which the field specifier `ch` reads; `None` if `ch` is none.
pub open spec fn reader(ch: char) -> Option<Reader> {
    if ch == 'A' {
        Some(Reader::Name(Names::Weekday))
    } else if ch == 'a' {
        Some(Reader::Name(Names::WeekdayShort))
    } else if ch == 'B' {
        Some(Reader::Name(Names::Month))
    } else if ch == 'b' || ch == 'h' {
        Some(Reader::Name(Names::MonthShort))
    } else if ch == 'P' {
        Some(Reader::Name(Names::HalfLower))
    } else if ch == 'p' {
        Some(Reader::Name(Names::HalfUpper))
    } else if ch == 'C' || ch == 'd' || ch == 'H' || ch == 'I' || ch == 'M' || ch == 'm' || ch
        == 'S' || ch == 'y' {
        Some(Reader::Number { digits: 2, blanks: false })
    } else if ch == 'e' || ch == 'k' || ch == 'l' {
        Some(Reader::Number { digits: 2, blanks: true })
    } else if ch == 'j' {
        Some(Reader::Number { digits: 3, blanks: false })
    } else if ch == 'u' || ch == 'w' {
        Some(Reader::Number { digits: 1, blanks: false })
    } else if ch == 'Y' {
        Some(Reader::Number { digits: 4, blanks: false })
    } else {
        None
    }
}

/// `x` brought into the range of `i32` the way two's complement addition does.
pub open spec fn wrapped(x: int) -> int {
    if x > i32::MAX {
        x - 0x1_0000_0000
    } else if x < i32::MIN {
        x + 0x1_0000_0000
    } else {
        x
    }
}

/// The time `tm` after the field specifier `ch` has read the value `v`.
/// Most fields take the value as it is. The month and the day of the year
/// are written from one and kept from zero, the year is kept from 1900, an
/// hour of 12 on the twelve-hour clock is kept as 0; the century and the
/// half of the day add to what the year and the hour hold.
pub open spec fn stored(ch: char, v: int, tm: TmView) -> TmView {
    if ch == 'A' || ch == 'a' || ch == 'u' || ch == 'w' {
        TmView { wday: v, ..tm }
    } else if ch == 'B' || ch == 'b' || ch == 'h' {
        TmView { mon: v, ..tm }
    } else if ch == 'm' {
        TmView { mon: v - 1, ..tm }
    } else if ch == 'C' {
        TmView { year: wrapped(tm.year + (v * 100 - 1900)), ..tm }
    } else if ch == 'Y' || ch == 'y' {
        TmView { year: v - 1900, ..tm }
    } else if ch == 'd' || ch == 'e' {
        TmView { mday: v, ..tm }
    } else if ch == 'H' || ch == 'k' {
        TmView { hour: v, ..tm }
    } else if ch == 'I' || ch == 'l' {
        TmView {
            hour: if v == 12 {
                0
            } else {
                v
            },
            ..tm
        }
    } else if ch == 'P' || ch == 'p' {
        TmView { hour: wrapped(tm.hour + v), ..tm }
    } else if ch == 'j' {
        TmView { yday: v - 1, ..tm }
    } else if ch == 'M' {
        TmView { min: v, ..tm }
    } else if ch == 'S' {
        TmView { sec: v, ..tm }
    } else {
        tm
    }
}

/// Reads `digits` more characters of a number from position `pos` on, after
/// the digits read so far have given `acc`. A blank counts as a digit that
/// adds nothing, where `blanks` allows it and `padding` says that no digit
/// came before it. The result is the number and the position behind it, or
/// the position of the character that cannot belong to the number.
pub open spec fn number_from(
    s: Seq<char>,
    pos: int,
    digits: int,
    blanks: bool,
    acc: int,
    padding: bool,
) -> Result<(int, int), int>
    decreases digits,
{
    if digits <= 0 {
        Ok((acc, pos))
    } else if pos < 0 || pos >= s.len() {
        Err(pos)
    } else if is_digit(s[pos]) {
        number_from(s, pos + 1, digits - 1, blanks, acc * 10 + digit_value(s[pos]), false)
    } else if s[pos] == ' ' && blanks && padding {
        number_from(s, pos + 1, digits - 1, blanks, acc, true)
    } else {
        Err(pos)
    }
}

/// The number of exactly `digits` characters at position `pos`.
pub open spec fn number_at(s: Seq<char>, pos: int, digits: int, blanks: bool) -> Result<
    (int, int),
    int,
> {
    number_from(s, pos, digits, blanks, 0, true)
}

/// The position of the first blank from `pos` on, or the end of `s`.
pub open spec fn token_end(s: Seq<char>, pos: int) -> int
    decreases s.len() - pos,
{
    if pos < 0 || pos >= s.len() || s[pos] == ' ' {
        pos
    } else {
        token_end(s, pos + 1)
    }
}

/// `tm` with the offset from UTC zero and no zone name.
pub open spec fn at_utc_offset(tm: TmView) -> TmView {
    TmView { gmtoff: 0, zone: None, ..tm }
}

/// What a specifier that is no composite reads at position `pos`: the
/// position behind what it took, and the time with what it learned.
///
/// - `%n`, `%t`, `%%` take the one character they stand for.
/// - A field takes a name or a number, see [`reader`] and [`stored`].
/// - `%Z` takes `UTC` or `GMT`, which say that the offset is zero; else it
///   skips to the next blank or the end and learns nothing.
/// - `%z` takes a sign and four digits; only `0000` says anything, namely
///   that the offset is zero.
/// - Every other letter is unknown.
pub open spec fn parsed_field(s: Seq<char>, pos: int, ch: char, tm: TmView) -> Result<
    (int, TmView),
    ParseError,
> {
    if literal(ch) is Some {
        if pos < 0 || pos >= s.len() {
            Err(ParseError::PrematureEnd { position: pos as usize })
        } else if s[pos] == literal(ch)->0 {
            Ok((pos + 1, tm))
        } else {
            Err(
                ParseError::UnmatchedLiteral {
                    position: pos as usize,
                    expected: literal(ch)->0,
                    found: s[pos],
                },
            )
        }
    } else if reader(ch) is Some {
        match reader(ch)->0 {
            Reader::Name(table) => match first_name_at(s, pos, table, 0) {
                Some(i) => Ok((pos + table.name(i).len(), stored(ch, table.value(i), tm))),
                None => Err(
                    ParseError::UnmatchedNamedField { position: pos as usize, specifier: ch },
                ),
            },
            Reader::Number { digits, blanks } => match number_at(s, pos, digits as int, blanks) {
                Ok((v, next)) => Ok((next, stored(ch, v, tm))),
                Err(bad) => Err(
                    ParseError::MalformedNumericField { position: bad as usize, specifier: ch },
                ),
            },
        }
    } else if ch == 'Z' {
        if occurs_at(s, pos, "UTC"@) || occurs_at(s, pos, "GMT"@) {
            Ok((pos + 3, at_utc_offset(tm)))
        } else {
            Ok((token_end(s, pos), tm))
        }
    } else if ch == 'z' {
        if 0 <= pos < s.len() && (s[pos] == '+' || s[pos] == '-') {
            match number_at(s, pos + 1, 4, false) {
                Ok((v, next)) => Ok(
                    (
                        next,
                        if v == 0 {
                            at_utc_offset(tm)
                        } else {
                            tm
                        },
                    ),
                ),
                Err(bad) => Err(
                    ParseError::MalformedNumericField { position: bad as usize, specifier: ch },
                ),
            }
        } else {
            Err(ParseError::MalformedNumericField { position: pos as usize, specifier: ch })
        }
    } else {
        Err(ParseError::UnknownSpecifier { letter: Some(ch) })
    }
}

/// Walks the format `f` from index `at` and the input `s` from position
/// `pos` in step. A character of the format other than `%` must be the next
/// character of the input. `%` and the letter behind it are a specifier:
/// a composite one stands for its expansion, walked in the same way with
/// one level less of `depth`; any other is read by [`parsed_field`].
/// The first step that fails ends the walk with its error, and so does
/// the end of the input while the format still goes on.
pub open spec fn parsed_steps(
    s: Seq<char>,
    pos: int,
    f: Seq<char>,
    at: int,
    tm: TmView,
    depth: nat,
) -> Result<(int, TmView), ParseError>
    decreases depth, f.len() - at, 1int,
{
    if at < 0 || at >= f.len() {
        Ok((pos, tm))
    } else if pos < 0 || pos >= s.len() {
        Err(ParseError::PrematureEnd { position: pos as usize })
    } else if f[at] != '%' {
        if s[pos] == f[at] {
            parsed_steps(s, pos + 1, f, at + 1, tm, depth)
        } else {
            Err(
                ParseError::UnmatchedLiteral {
                    position: pos as usize,
                    expected: f[at],
                    found: s[pos],
                },
            )
        }
    } else if at + 1 >= f.len() {
        Err(ParseError::UnknownSpecifier { letter: None })
    } else {
        match parsed_specifier(s, pos, f[at + 1], tm, depth) {
            Ok((next, tm2)) => parsed_steps(s, next, f, at + 2, tm2, depth),
            Err(e) => Err(e),
        }
    }
}

/// What the specifier `%ch` reads at position `pos`.
pub open spec fn parsed_specifier(s: Seq<char>, pos: int, ch: char, tm: TmView, depth: nat) -> Result<
    (int, TmView),
    ParseError,
>
    decreases depth, 0int, 0int,
{
    match expansion(ch) {
        Some(sub) => if depth > 0 {
            parsed_steps(s, pos, sub, 0, tm, (depth - 1) as nat)
        } else {
            Err(ParseError::UnknownSpecifier { letter: Some(ch) })
        },
        None => parsed_field(s, pos, ch, tm),
    }
}

/// The broken-down time that the text `s` holds according to `format`: the
/// walk of [`parsed_steps`] over all of `format`, begun with every field
/// zero, which must end exactly at the end of `s`.
pub open spec fn parsed(s: Seq<char>, format: Seq<char>) -> Result<TmView, ParseError> {
    match parsed_steps(s, 0, format, 0, TmView::zero(), DEPTH as nat) {
        Ok((pos, tm)) => if pos == s.len() {
            Ok(tm)
        } else {
            Err(ParseError::TrailingInput { position: pos as usize })
        },
        Err(e) => Err(e),
    }
}

/// The way in which the field specifier `ch` reads.
pub(crate) fn reader_of(ch: char) -> (r: Option<Reader>)
    ensures
        r == reader(ch),
{
    if ch == 'A' {
        Some(Reader::Name(Names::Weekday))
    } else if ch == 'a' {
        Some(Reader::Name(Names::WeekdayShort))
    } else if ch == 'B' {
        Some(Reader::Name(Names::Month))
    } else if ch == 'b' || ch == 'h' {
        Some(Reader::Name(Names::MonthShort))
    } else if ch == 'P' {
        Some(Reader::Name(Names::HalfLower))
    } else if ch == 'p' {
        Some(Reader::Name(Names::HalfUpper))
    } else if ch == 'C' || ch == 'd' || ch == 'H' || ch == 'I' || ch == 'M' || ch == 'm' || ch
        == 'S' || ch == 'y' {
        Some(Reader::Number { digits: 2, blanks: false })
    } else if ch == 'e' || ch == 'k' || ch == 'l' {
        Some(Reader::Number { digits: 2, blanks: true })
    } else if ch == 'j' {
        Some(Reader::Number { digits: 3, blanks: false })
    } else if ch == 'u' || ch == 'w' {
        Some(Reader::Number { digits: 1, blanks: false })
    } else if ch == 'Y' {
        Some(Reader::Number { digits: 4, blanks: false })
    } else {
        None
    }
}

/// Writes the value `v` that the field specifier `ch` has read into `tm`.
pub(crate) fn store(ch: char, v: i32, tm: Tm) -> (out: Tm)
    requires
        0 <= v <= 9999,
    ensures
        out@ == stored(ch, v as int, tm@),
{
    let mut tm = tm;
    if ch == 'A' || ch == 'a' || ch == 'u' || ch == 'w' {
        tm.tm_wday = v;
    } else if ch == 'B' || ch == 'b' || ch == 'h' {
        tm.tm_mon = v;
    } else if ch == 'm' {
        tm.tm_mon = v - 1;
    } else if ch == 'C' {
        tm.tm_year = tm.tm_year.wrapping_add(v * 100 - 1900);
    } else if ch == 'Y' || ch == 'y' {
        tm.tm_year = v - 1900;
    } else if ch == 'd' || ch == 'e' {
        tm.tm_mday = v;
    } else if ch == 'H' || ch == 'k' {
        tm.tm_hour = v;
    } else if ch == 'I' || ch == 'l' {
        tm.tm_hour = if v == 12 {
            0
        } else {
            v
        };
    } else if ch == 'P' || ch == 'p' {
        tm.tm_hour = tm.tm_hour.wrapping_add(v);
    } else if ch == 'j' {
        tm.tm_yday = v - 1;
    } else if ch == 'M' {
        tm.tm_min = v;
    } else if ch == 'S' {
        tm.tm_sec = v;
    }
    tm
}

/// Reads a number of exactly `digits` characters at position `pos`.
pub(crate) fn read_number(s: &Vec<char>, pos: usize, digits: usize, blanks: bool) -> (r: Result<
    (i32, usize),
    usize,
>)
    requires
        pos <= s.len(),
        digits <= 4,
    ensures
        match r {
            Ok((v, next)) => number_at(s@, pos as int, digits as int, blanks) == Ok::<
                (int, int),
                int,
            >((v as int, next as int)) && 0 <= v <= 9999 && next == pos + digits && next <= s.len(),
            Err(bad) => number_at(s@, pos as int, digits as int, blanks) == Err::<(int, int), int>(
                bad as int,
            ) && pos <= bad <= s.len(),
        },
{
    let mut cur: usize = pos;
    let mut acc: i32 = 0;
    let mut padding: bool = true;
    let mut i: usize = 0;
    while i < digits
        invariant
            i <= digits <= 4,
            cur == pos + i,
            cur <= s.len(),
            0 <= acc,
            i == 0 ==> acc == 0,
            i == 1 ==> acc <= 9,
            i == 2 ==> acc <= 99,
            i == 3 ==> acc <= 999,
            i == 4 ==> acc <= 9999,
            number_at(s@, pos as int, digits as int, blanks) == number_from(
                s@,
                cur as int,
                digits - i,
                blanks,
                acc as int,
                padding,
            ),
        decreases digits - i,
    {
        if cur >= s.len() {
            return Err(cur);
        }
        let c = s[cur];
        match digit_value_of(c) {
            Some(d) => {
                acc = acc * 10 + d as i32;
                padding = false;
            },
            None => {
                if !(c == ' ' && blanks && padding) {
                    return Err(cur);
                }
            },
        }
        cur = cur + 1;
        i = i + 1;
    }
    Ok((acc, cur))
}

/// The position of the first blank from `pos` on, or the end of `s`.
pub(crate) fn skip_token(s: &Vec<char>, pos: usize) -> (end: usize)
    requires
        pos <= s.len(),
    ensures
        end == token_end(s@, pos as int),
        pos <= end <= s.len(),
{
    let mut cur: usize = pos;
    while cur < s.len() && s[cur] != ' '
        invariant
            pos <= cur <= s.len(),
            token_end(s@, pos as int) == token_end(s@, cur as int),
        decreases s.len() - cur,
    {
        cur = cur + 1;
    }
    cur
}

/// Sets the offset from UTC to zero and takes the zone name away.
pub(crate) fn set_utc(tm: Tm) -> (out: Tm)
    ensures
        out@ == at_utc_offset(tm@),
{
    let mut tm = tm;
    tm.tm_gmtoff = 0;
    tm.tm_zone = None;
    tm
}

/// Reads what a specifier that is no composite takes at position `pos`.
pub(crate) fn parse_field(s: &Vec<char>, pos: usize, ch: char, tm: Tm) -> (r: Result<
    (usize, Tm),
    ParseError,
>)
    requires
        pos <= s.len(),
    ensures
        match r {
            Ok((next, out)) => parsed_field(s@, pos as int, ch, tm@) == Ok::<
                (int, TmView),
                ParseError,
            >((next as int, out@)) && next <= s.len(),
            Err(e) => parsed_field(s@, pos as int, ch, tm@) == Err::<(int, TmView), ParseError>(e),
        },
{
    if let Some(c) = literal_of(ch) {
        if pos >= s.len() {
            Err(ParseError::PrematureEnd { position: pos })
        } else if s[pos] == c {
            Ok((pos + 1, tm))
        } else {
            Err(ParseError::UnmatchedLiteral { position: pos, expected: c, found: s[pos] })
        }
    } else if let Some(how) = reader_of(ch) {
        match how {
            Reader::Name(table) => match match_names(s, pos, table) {
                Some((i, next)) => {
                    let v: i32 = match table {
                        Names::HalfLower | Names::HalfUpper => 12 * (i as i32),
                        _ => i as i32,
                    };
                    Ok((next, store(ch, v, tm)))
                },
                None => Err(ParseError::UnmatchedNamedField { position: pos, specifier: ch }),
            },
            Reader::Number { digits, blanks } => match read_number(s, pos, digits, blanks) {
                Ok((v, next)) => Ok((next, store(ch, v, tm))),
                Err(bad) => Err(ParseError::MalformedNumericField { position: bad, specifier: ch }),
            },
        }
    } else if ch == 'Z' {
        proof {
            reveal_strlit("UTC");
            reveal_strlit("GMT");
        }
        if starts_at(s, pos, "UTC") || starts_at(s, pos, "GMT") {
            Ok((pos + 3, set_utc(tm)))
        } else {
            Ok((skip_token(s, pos), tm))
        }
    } else if ch == 'z' {
        if pos < s.len() && (s[pos] == '+' || s[pos] == '-') {
            match read_number(s, pos + 1, 4, false) {
                Ok((v, next)) => if v == 0 {
                    Ok((next, set_utc(tm)))
                } else {
                    Ok((next, tm))
                },
                Err(bad) => Err(ParseError::MalformedNumericField { position: bad, specifier: ch }),
            }
        } else {
            Err(ParseError::MalformedNumericField { position: pos, specifier: ch })
        }
    } else {
        Err(ParseError::UnknownSpecifier { letter: Some(ch) })
    }
}

/// Reads what the specifier `%ch` takes at position `pos`.
pub(crate) fn parse_specifier(s: &Vec<char>, pos: usize, ch: char, tm: Tm, depth: u8) -> (r: Result<
    (usize, Tm),
    ParseError,
>)
    requires
        pos <= s.len(),
    ensures
        match r {
            Ok((next, out)) => parsed_specifier(s@, pos as int, ch, tm@, depth as nat) == Ok::<
                (int, TmView),
                ParseError,
            >((next as int, out@)) && next <= s.len(),
            Err(e) => parsed_specifier(s@, pos as int, ch, tm@, depth as nat) == Err::<
                (int, TmView),
                ParseError,
            >(e),
        },
    decreases depth, 0int,
{
    match expansion_of(ch) {
        Some(sub) => if depth > 0 {
            parse_steps(s, pos, &sub, tm, depth - 1)
        } else {
            Err(ParseError::UnknownSpecifier { letter: Some(ch) })
        },
        None => parse_field(s, pos, ch, tm),
    }
}

/// Walks the format `f` and the input `s`, from position `pos` on, in step.
pub(crate) fn parse_steps(s: &Vec<char>, pos: usize, f: &Vec<char>, tm: Tm, depth: u8) -> (r: Result<
    (usize, Tm),
    ParseError,
>)
    requires
        pos <= s.len(),
    ensures
        match r {
            Ok((next, out)) => parsed_steps(s@, pos as int, f@, 0, tm@, depth as nat) == Ok::<
                (int, TmView),
                ParseError,
            >((next as int, out@)) && next <= s.len(),
            Err(e) => parsed_steps(s@, pos as int, f@, 0, tm@, depth as nat) == Err::<
                (int, TmView),
                ParseError,
            >(e),
        },
    decreases depth, 1int,
{
    let mut cur: usize = pos;
    let mut now = tm;
    let mut at: usize = 0;
    while at < f.len()
        invariant
            at <= f.len(),
            cur <= s.len(),
            parsed_steps(s@, pos as int, f@, 0, tm@, depth as nat) == parsed_steps(
                s@,
                cur as int,
                f@,
                at as int,
                now@,
                depth as nat,
            ),
        decreases f.len() - at,
    {
        if cur >= s.len() {
            return Err(ParseError::PrematureEnd { position: cur });
        }
        let c = f[at];
        if c != '%' {
            if s[cur] != c {
                return Err(
                    ParseError::UnmatchedLiteral { position: cur, expected: c, found: s[cur] },
                );
            }
            cur = cur + 1;
            at = at + 1;
        } else if at + 1 >= f.len() {
            return Err(ParseError::UnknownSpecifier { letter: None });
        } else {
            match parse_specifier(s, cur, f[at + 1], now, depth) {
                Ok((next, out)) => {
                    cur = next;
                    now = out;
                    at = at + 2;
                },
                Err(e) => {
                    return Err(e);
                },
            }
        }
    }
    Ok((cur, now))
}

/// Parses the time from the text `s` according to `format`.
///
/// The format is walked once; each of its characters but `%` must be the
/// next character of `s`, and each specifier reads its field from `s`. The
/// result holds what the specifiers have read, and zero in every other
/// field. Nothing is checked against the calendar: `%d` reads `99` as the
/// day 99. The text must be used up exactly when the format is.
pub fn strptime(s: &str, format: &str) -> (r: Result<Tm, ParseError>)
    ensures
        match r {
            Ok(tm) => parsed(s@, format@) == Ok::<TmView, ParseError>(tm@),
            Err(e) => parsed(s@, format@) == Err::<TmView, ParseError>(e),
        },
{
    let input = to_chars(s);
    let steps = to_chars(format);
    match parse_steps(&input, 0, &steps, empty_tm(), DEPTH) {
        Ok((pos, tm)) => if pos == input.len() {
            Ok(tm)
        } else {
            Err(ParseError::TrailingInput { position: pos })
        },
        Err(e) => Err(e),
    }
}

} // verus!
