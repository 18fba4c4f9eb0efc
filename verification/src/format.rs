//! Writing a broken-down time as text, as a format tells.

use crate::names::Names;
use crate::table::{expansion, expansion_of, literal, literal_of, DEPTH};
use crate::text::{
    magnitude, magnitude_of, plain, push_plain, push_space_padded, push_zero_padded, space_padded,
    to_chars, zero_padded,
};
use crate::tm::{Tm, TmView};
use vstd::prelude::*;

verus! {

/// The hour on the twelve-hour clock: midnight and noon are 12.
pub open spec fn hour12(hour: int) -> int {
    if hour == 0 {
        12
    } else if hour > 12 {
        hour - 12
    } else {
        hour
    }
}

/// `a` divided by the positive `b`, rounded towards zero.
pub open spec fn quotient(a: int, b: int) -> int {
    if a >= 0 {
        a / b
    } else {
        -((-a) / b)
    }
}

/// What is left of `a` after [`quotient`]; it has the sign of `a`.
pub open spec fn remainder(a: int, b: int) -> int {
    a - quotient(a, b) * b
}

/// An offset from UTC in hours and minutes: a sign, which is `+` only for
/// an offset above zero, two digits of hours, a colon if `colon` says so,
/// and two digits of minutes.
pub open spec fn offset_text(gmtoff: int, colon: bool) -> Seq<char> {
    let minutes: int = magnitude(gmtoff) as int / 60;
    seq![if gmtoff > 0 {
        '+'
    } else {
        '-'
    }] + zero_padded(minutes / 60, 2) + (if colon {
        seq![':']
    } else {
        Seq::empty()
    }) + zero_padded(minutes % 60, 2)
}

/// The number of seconds since 1970 that `%s` writes, as a mathematical value.
pub open spec fn epoch_view(epoch: Option<i64>) -> Option<int> {
    match epoch {
        Some(sec) => Some(sec as int),
        None => None,
    }
}

/// The format that a specifier stands for when formatting: the composites
/// that parsing knows, and `%X`, which is written like `%T`.
pub open spec fn format_expansion(ch: char) -> Option<Seq<char>> {
    if ch == 'X' {
        expansion('T')
    } else {
        expansion(ch)
    }
}

/// Whether the specifier `ch`, which is no composite, can be written for `tm`:
/// the letter is known, a weekday or month that is to be named has a name,
/// and `%s` has the seconds since 1970 to write.
pub open spec fn field_formats(ch: char, tm: TmView, has_epoch: bool) -> bool {
    if ch == 'A' || ch == 'a' {
        0 <= tm.wday <= 6
    } else if ch == 'B' || ch == 'b' || ch == 'h' {
        0 <= tm.mon <= 11
    } else if ch == 's' {
        has_epoch
    } else {
        ||| literal(ch) is Some
        ||| ch == 'C' || ch == 'd' || ch == 'e' || ch == 'H' || ch == 'I' || ch == 'j'
        ||| ch == 'k' || ch == 'l' || ch == 'M' || ch == 'm' || ch == 'P' || ch == 'p'
        ||| ch == 'S' || ch == 'u' || ch == 'w' || ch == 'Y' || ch == 'y' || ch == 'Z'
        ||| ch == 'z'
    }
}

/// What the specifier `ch`, which is no composite, writes for `tm`.
///
/// Numbers of a fixed width are filled with zeros, those of `%e`, `%k` and
/// `%l` with blanks; `%u`, `%w`, `%Y` and `%s` are written as they are.
/// The month and the day of the year are written from one, the year from
/// 1900 on; `%u` writes Sunday as 7.
pub open spec fn field_text(ch: char, tm: TmView, epoch: Option<int>) -> Seq<char> {
    if literal(ch) is Some {
        seq![literal(ch)->0]
    } else if ch == 'A' {
        Names::Weekday.name(tm.wday)
    } else if ch == 'a' {
        Names::WeekdayShort.name(tm.wday)
    } else if ch == 'B' {
        Names::Month.name(tm.mon)
    } else if ch == 'b' || ch == 'h' {
        Names::MonthShort.name(tm.mon)
    } else if ch == 'C' {
        zero_padded(quotient(tm.year + 1900, 100), 2)
    } else if ch == 'd' {
        zero_padded(tm.mday, 2)
    } else if ch == 'e' {
        space_padded(tm.mday, 2)
    } else if ch == 'H' {
        zero_padded(tm.hour, 2)
    } else if ch == 'I' {
        zero_padded(hour12(tm.hour), 2)
    } else if ch == 'j' {
        zero_padded(tm.yday + 1, 3)
    } else if ch == 'k' {
        space_padded(tm.hour, 2)
    } else if ch == 'l' {
        space_padded(hour12(tm.hour), 2)
    } else if ch == 'M' {
        zero_padded(tm.min, 2)
    } else if ch == 'm' {
        zero_padded(tm.mon + 1, 2)
    } else if ch == 'P' {
        Names::HalfLower.name(
            if tm.hour < 12 {
                0
            } else {
                1
            },
        )
    } else if ch == 'p' {
        Names::HalfUpper.name(
            if tm.hour < 12 {
                0
            } else {
                1
            },
        )
    } else if ch == 'S' {
        zero_padded(tm.sec, 2)
    } else if ch == 's' {
        match epoch {
            Some(sec) => plain(sec),
            None => Seq::empty(),
        }
    } else if ch == 'u' {
        plain(
            if tm.wday == 0 {
                7
            } else {
                tm.wday
            },
        )
    } else if ch == 'w' {
        plain(tm.wday)
    } else if ch == 'Y' {
        plain(tm.year + 1900)
    } else if ch == 'y' {
        zero_padded(remainder(tm.year + 1900, 100), 2)
    } else if ch == 'Z' {
        match tm.zone {
            Some(name) => name,
            None => Seq::empty(),
        }
    } else if ch == 'z' {
        offset_text(tm.gmtoff, false)
    } else {
        Seq::empty()
    }
}

/// Whether the format `f` can be written for `tm` from index `at` on: every
/// `%` has a letter behind it, and every specifier can be written, a
/// composite one if its expansion can, with one level less of `depth`.
pub open spec fn steps_format(f: Seq<char>, at: int, tm: TmView, has_epoch: bool, depth: nat) -> bool
    decreases depth, f.len() - at, 1int,
{
    if at < 0 || at >= f.len() {
        true
    } else if f[at] != '%' {
        steps_format(f, at + 1, tm, has_epoch, depth)
    } else if at + 1 >= f.len() {
        false
    } else {
        specifier_formats(f[at + 1], tm, has_epoch, depth) && steps_format(
            f,
            at + 2,
            tm,
            has_epoch,
            depth,
        )
    }
}

/// Whether the specifier `%ch` can be written for `tm`.
pub open spec fn specifier_formats(ch: char, tm: TmView, has_epoch: bool, depth: nat) -> bool
    decreases depth, 0int, 0int,
{
    match format_expansion(ch) {
        Some(sub) => depth > 0 && steps_format(sub, 0, tm, has_epoch, (depth - 1) as nat),
        None => field_formats(ch, tm, has_epoch),
    }
}

/// What the format `f` writes for `tm` from index `at` on: each character
/// but `%` as it is, and for each specifier its text.
pub open spec fn steps_text(f: Seq<char>, at: int, tm: TmView, epoch: Option<int>, depth: nat) -> Seq<
    char,
>
    decreases depth, f.len() - at, 1int,
{
    if at < 0 || at >= f.len() {
        Seq::empty()
    } else if f[at] != '%' {
        seq![f[at]] + steps_text(f, at + 1, tm, epoch, depth)
    } else if at + 1 >= f.len() {
        Seq::empty()
    } else {
        specifier_text(f[at + 1], tm, epoch, depth) + steps_text(f, at + 2, tm, epoch, depth)
    }
}

/// What the specifier `%ch` writes for `tm`.
pub open spec fn specifier_text(ch: char, tm: TmView, epoch: Option<int>, depth: nat) -> Seq<char>
    decreases depth, 0int, 0int,
{
    match format_expansion(ch) {
        Some(sub) => if depth > 0 {
            steps_text(sub, 0, tm, epoch, (depth - 1) as nat)
        } else {
            Seq::empty()
        },
        None => field_text(ch, tm, epoch),
    }
}

/// Whether `format` can be written for `tm`: every `%` in it has a letter
/// behind it that formatting knows, and a weekday or month that is to be
/// named lies within the week or the year. `has_epoch` says whether the
/// seconds since 1970 that belong to `tm` are at hand: `%s` needs them.
pub open spec fn formats(format: Seq<char>, tm: TmView, has_epoch: bool) -> bool {
    steps_format(format, 0, tm, has_epoch, DEPTH as nat)
}

/// The text that `format` writes for `tm`.
pub open spec fn formatted(format: Seq<char>, tm: TmView, epoch: Option<int>) -> Seq<char> {
    steps_text(format, 0, tm, epoch, DEPTH as nat)
}

/// The format that a specifier stands for when formatting.
pub(crate) fn format_expansion_of(ch: char) -> (sub: Option<Vec<char>>)
    ensures
        match sub {
            Some(v) => format_expansion(ch) == Some(v@),
            None => format_expansion(ch) is None,
        },
{
    if ch == 'X' {
        expansion_of('T')
    } else {
        expansion_of(ch)
    }
}

/// Whether the specifier `ch`, which is no composite, can be written for `tm`.
pub(crate) fn check_field(ch: char, tm: &Tm, has_epoch: bool) -> (ok: bool)
    ensures
        ok == field_formats(ch, tm@, has_epoch),
{
    if ch == 'A' || ch == 'a' {
        0 <= tm.tm_wday && tm.tm_wday <= 6
    } else if ch == 'B' || ch == 'b' || ch == 'h' {
        0 <= tm.tm_mon && tm.tm_mon <= 11
    } else if ch == 's' {
        has_epoch
    } else {
        literal_of(ch).is_some() || ch == 'C' || ch == 'd' || ch == 'e' || ch == 'H' || ch == 'I'
            || ch == 'j' || ch == 'k' || ch == 'l' || ch == 'M' || ch == 'm' || ch == 'P' || ch
            == 'p' || ch == 'S' || ch == 'u' || ch == 'w' || ch == 'Y' || ch == 'y' || ch == 'Z'
            || ch == 'z'
    }
}

/// Appends an offset from UTC in hours and minutes.
pub(crate) fn push_offset(out: &mut String, gmtoff: i64, colon: bool)
    ensures
        final(out)@ == old(out)@ + offset_text(gmtoff as int, colon),
{
    let minutes: u64 = magnitude_of(gmtoff) / 60;
    out.push(
        if gmtoff > 0 {
            '+'
        } else {
            '-'
        },
    );
    push_zero_padded(out, (minutes / 60) as i64, 2);
    if colon {
        out.push(':');
    }
    push_zero_padded(out, (minutes % 60) as i64, 2);
}

/// Appends what the specifier `ch`, which is no composite, writes for `tm`.
pub(crate) fn push_field(out: &mut String, ch: char, tm: &Tm, epoch: Option<i64>)
    requires
        field_formats(ch, tm@, epoch is Some),
    ensures
        final(out)@ == old(out)@ + field_text(ch, tm@, epoch_view(epoch)),
{
    let year: i64 = tm.tm_year as i64 + 1900;
    let hour: i64 = if tm.tm_hour == 0 {
        12
    } else if tm.tm_hour > 12 {
        tm.tm_hour as i64 - 12
    } else {
        tm.tm_hour as i64
    };
    if let Some(c) = literal_of(ch) {
        out.push(c);
    } else if ch == 'A' {
        out.append(Names::Weekday.get(tm.tm_wday as usize));
    } else if ch == 'a' {
        out.append(Names::WeekdayShort.get(tm.tm_wday as usize));
    } else if ch == 'B' {
        out.append(Names::Month.get(tm.tm_mon as usize));
    } else if ch == 'b' || ch == 'h' {
        out.append(Names::MonthShort.get(tm.tm_mon as usize));
    } else if ch == 'C' {
        push_zero_padded(out, year / 100, 2);
    } else if ch == 'd' {
        push_zero_padded(out, tm.tm_mday as i64, 2);
    } else if ch == 'e' {
        push_space_padded(out, tm.tm_mday as i64, 2);
    } else if ch == 'H' {
        push_zero_padded(out, tm.tm_hour as i64, 2);
    } else if ch == 'I' {
        push_zero_padded(out, hour, 2);
    } else if ch == 'j' {
        push_zero_padded(out, tm.tm_yday as i64 + 1, 3);
    } else if ch == 'k' {
        push_space_padded(out, tm.tm_hour as i64, 2);
    } else if ch == 'l' {
        push_space_padded(out, hour, 2);
    } else if ch == 'M' {
        push_zero_padded(out, tm.tm_min as i64, 2);
    } else if ch == 'm' {
        push_zero_padded(out, tm.tm_mon as i64 + 1, 2);
    } else if ch == 'P' {
        out.append(
            Names::HalfLower.get(
                if tm.tm_hour < 12 {
                    0
                } else {
                    1
                },
            ),
        );
    } else if ch == 'p' {
        out.append(
            Names::HalfUpper.get(
                if tm.tm_hour < 12 {
                    0
                } else {
                    1
                },
            ),
        );
    } else if ch == 'S' {
        push_zero_padded(out, tm.tm_sec as i64, 2);
    } else if ch == 's' {
        match epoch {
            Some(sec) => push_plain(out, sec),
            None => {},
        }
    } else if ch == 'u' {
        push_plain(
            out,
            if tm.tm_wday == 0 {
                7
            } else {
                tm.tm_wday as i64
            },
        );
    } else if ch == 'w' {
        push_plain(out, tm.tm_wday as i64);
    } else if ch == 'Y' {
        push_plain(out, year);
    } else if ch == 'y' {
        push_zero_padded(out, year % 100, 2);
    } else if ch == 'Z' {
        match &tm.tm_zone {
            Some(name) => out.append(name.as_str()),
            None => {},
        }
    } else if ch == 'z' {
        push_offset(out, tm.tm_gmtoff, false);
    }
}

/// Appends what the specifier `%ch` writes for `tm`.
pub(crate) fn push_specifier(out: &mut String, ch: char, tm: &Tm, epoch: Option<i64>, depth: u8)
    requires
        specifier_formats(ch, tm@, epoch is Some, depth as nat),
    ensures
        final(out)@ == old(out)@ + specifier_text(ch, tm@, epoch_view(epoch), depth as nat),
    decreases depth, 0int,
{
    match format_expansion_of(ch) {
        Some(sub) => push_steps(out, &sub, tm, epoch, depth - 1),
        None => push_field(out, ch, tm, epoch),
    }
}

/// Appends what the format `f` writes for `tm`.
pub(crate) fn push_steps(out: &mut String, f: &Vec<char>, tm: &Tm, epoch: Option<i64>, depth: u8)
    requires
        steps_format(f@, 0, tm@, epoch is Some, depth as nat),
    ensures
        final(out)@ == old(out)@ + steps_text(f@, 0, tm@, epoch_view(epoch), depth as nat),
    decreases depth, 1int,
{
    let ghost before = out@;
    let mut at: usize = 0;
    while at < f.len()
        invariant
            at <= f.len(),
            steps_format(f@, at as int, tm@, epoch is Some, depth as nat),
            out@ + steps_text(f@, at as int, tm@, epoch_view(epoch), depth as nat) == before
                + steps_text(f@, 0, tm@, epoch_view(epoch), depth as nat),
        decreases f.len() - at,
    {
        let c = f[at];
        if c != '%' {
            out.push(c);
            at = at + 1;
        } else {
            let ch = f[at + 1];
            push_specifier(out, ch, tm, epoch, depth);
            at = at + 2;
        }
    }
}

/// Whether the specifier `%ch` can be written for `tm`.
pub(crate) fn check_specifier(ch: char, tm: &Tm, has_epoch: bool, depth: u8) -> (ok: bool)
    ensures
        ok == specifier_formats(ch, tm@, has_epoch, depth as nat),
    decreases depth, 0int,
{
    match format_expansion_of(ch) {
        Some(sub) => depth > 0 && check_steps(&sub, tm, has_epoch, depth - 1),
        None => check_field(ch, tm, has_epoch),
    }
}

/// Whether the format `f` can be written for `tm`.
pub(crate) fn check_steps(f: &Vec<char>, tm: &Tm, has_epoch: bool, depth: u8) -> (ok: bool)
    ensures
        ok == steps_format(f@, 0, tm@, has_epoch, depth as nat),
    decreases depth, 1int,
{
    let mut at: usize = 0;
    while at < f.len()
        invariant
            at <= f.len(),
            steps_format(f@, 0, tm@, has_epoch, depth as nat) == steps_format(
                f@,
                at as int,
                tm@,
                has_epoch,
                depth as nat,
            ),
        decreases f.len() - at,
    {
        if f[at] != '%' {
            at = at + 1;
        } else if at + 1 >= f.len() {
            return false;
        } else if check_specifier(f[at + 1], tm, has_epoch, depth) {
            at = at + 2;
        } else {
            return false;
        }
    }
    true
}

/// Whether [`strftime`] can write `format` for `tm`: every `%` in it has a
/// letter behind it that formatting knows, a weekday or month that is to be
/// named lies within the week or the year, and `%s` is in it only if
/// `has_epoch` says that the seconds since 1970 will be given.
pub fn can_format(format: &str, tm: &Tm, has_epoch: bool) -> (ok: bool)
    ensures
        ok == formats(format@, tm@, has_epoch),
{
    let steps = to_chars(format);
    check_steps(&steps, tm, has_epoch, DEPTH)
}

/// Formats the time `tm` according to `format`.
///
/// The format is walked once; each of its characters but `%` is written as
/// it is, and each specifier writes its field of `tm`. `epoch` is the number
/// of seconds since 1970 that `%s` writes; it can be `None` where the
/// format has no `%s`.
pub fn strftime(format: &str, tm: &Tm, epoch: Option<i64>) -> (text: String)
    requires
        formats(format@, tm@, epoch is Some),
    ensures
        text@ == formatted(format@, tm@, epoch_view(epoch)),
{
    let steps = to_chars(format);
    let mut text = String::new();
    push_steps(&mut text, &steps, tm, epoch, DEPTH);
    text
}

/// Formats the time `tm` according to `format` where that can be done,
/// see [`can_format`]; gives `None` where it cannot.
pub fn try_strftime(format: &str, tm: &Tm, epoch: Option<i64>) -> (text: Option<String>)
    ensures
        match text {
            Some(text) => formats(format@, tm@, epoch is Some) && text@ == formatted(
                format@,
                tm@,
                epoch_view(epoch),
            ),
            None => !formats(format@, tm@, epoch is Some),
        },
{
    if can_format(format, tm, epoch.is_some()) {
        Some(strftime(format, tm, epoch))
    } else {
        None
    }
}

/// A format of the named formatters can be written for every time whose
/// weekday and month have a name.
proof fn lemma_named_formats(tm: TmView)
    requires
        0 <= tm.wday <= 6,
        0 <= tm.mon <= 11,
    ensures
        formats("%c"@, tm, false),
        formats("%a, %d %b %Y %T GMT"@, tm, false),
        formats("%a, %d %b %Y %T %Z"@, tm, false),
        formats("%a, %d %b %Y %T %z"@, tm, false),
{
    reveal_strlit("%c");
    reveal_strlit("%a %b %e %T %Y");
    reveal_strlit("%H:%M:%S");
    reveal_strlit("%a, %d %b %Y %T GMT");
    reveal_strlit("%a, %d %b %Y %T %Z");
    reveal_strlit("%a, %d %b %Y %T %z");
    reveal_with_fuel(steps_format, 24);
}

/// The formats of RFC 3339 can be written for every time.
proof fn lemma_rfc3339_formats(tm: TmView)
    ensures
        formats("%Y-%m-%dT%H:%M:%SZ"@, tm, false),
        formats("%Y-%m-%dT%H:%M:%S"@, tm, false),
{
    reveal_strlit("%Y-%m-%dT%H:%M:%SZ");
    reveal_strlit("%Y-%m-%dT%H:%M:%S");
    reveal_with_fuel(steps_format, 24);
}

impl Tm {
    /// Formats this time according to `format`, see [`strftime`].
    pub fn strftime(&self, format: &str, epoch: Option<i64>) -> (text: String)
        requires
            formats(format@, self@, epoch is Some),
        ensures
            text@ == formatted(format@, self@, epoch_view(epoch)),
    {
        strftime(format, self, epoch)
    }

    /// This time in the form `Thu Jan  1 00:00:00 1970`.
    pub fn ctime(&self) -> (text: String)
        requires
            0 <= self.tm_wday <= 6,
            0 <= self.tm_mon <= 11,
        ensures
            text@ == formatted("%c"@, self@, None),
    {
        proof {
            lemma_named_formats(self@);
        }
        strftime("%c", self, None)
    }

    /// This time in the form of RFC 822, `Thu, 22 Mar 2012 07:53:18 PST`:
    /// with `GMT` for the zone where the offset from UTC is zero, with the
    /// zone's name otherwise.
    pub fn rfc822(&self) -> (text: String)
        requires
            0 <= self.tm_wday <= 6,
            0 <= self.tm_mon <= 11,
        ensures
            text@ == formatted(
                if self.tm_gmtoff == 0 {
                    "%a, %d %b %Y %T GMT"@
                } else {
                    "%a, %d %b %Y %T %Z"@
                },
                self@,
                None,
            ),
    {
        proof {
            lemma_named_formats(self@);
        }
        if self.tm_gmtoff == 0 {
            strftime("%a, %d %b %Y %T GMT", self, None)
        } else {
            strftime("%a, %d %b %Y %T %Z", self, None)
        }
    }

    /// This time in the form of RFC 822 with the zone as an offset from UTC,
    /// `Thu, 22 Mar 2012 07:53:18 -0700`.
    pub fn rfc822z(&self) -> (text: String)
        requires
            0 <= self.tm_wday <= 6,
            0 <= self.tm_mon <= 11,
        ensures
            text@ == formatted("%a, %d %b %Y %T %z"@, self@, None),
    {
        proof {
            lemma_named_formats(self@);
        }
        strftime("%a, %d %b %Y %T %z", self, None)
    }

    /// This time in the form of RFC 3339: `2012-02-22T14:53:18Z` where the
    /// offset from UTC is zero, and otherwise with the offset in hours and
    /// minutes behind it, `2012-02-22T07:53:18-07:00`.
    pub fn rfc3339(&self) -> (text: String)
        ensures
            text@ == if self.tm_gmtoff == 0 {
                formatted("%Y-%m-%dT%H:%M:%SZ"@, self@, None)
            } else {
                formatted("%Y-%m-%dT%H:%M:%S"@, self@, None) + offset_text(
                    self.tm_gmtoff as int,
                    true,
                )
            },
    {
        proof {
            lemma_rfc3339_formats(self@);
        }
        if self.tm_gmtoff == 0 {
            strftime("%Y-%m-%dT%H:%M:%SZ", self, None)
        } else {
            let mut text = strftime("%Y-%m-%dT%H:%M:%S", self, None);
            push_offset(&mut text, self.tm_gmtoff, true);
            text
        }
    }
}

} // verus!
