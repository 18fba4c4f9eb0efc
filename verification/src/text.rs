//! Characters and decimal numbers: what the specifiers are made of.

use vstd::prelude::*;

verus! {

/// `String::push` of the standard library appends one character to the end
/// of the string and leaves the rest as it was.
pub assume_specification[ String::push ](s: &mut String, c: char)
    ensures
        final(s)@ == old(s)@.push(c),
;

/// The characters of a string, in order.
pub(crate) fn to_chars(s: &str) -> (v: Vec<char>)
    ensures
        v@ == s@,
{
    let mut v: Vec<char> = Vec::new();
    for c in it: s.chars()
        invariant
            v@ == it.seq().take(it.index() as int),
            it.seq() == s@,
    {
        v.push(c);
    }
    v
}

/// `c` is one of the ten ASCII digits.
pub open spec fn is_digit(c: char) -> bool {
    '0' <= c && c <= '9'
}

/// The number that the digit `c` stands for.
pub open spec fn digit_value(c: char) -> int {
    c as int - '0' as int
}

/// The digit that stands for `d`, for `d` from 0 to 9.
pub open spec fn digit_char(d: int) -> char {
    (d + '0' as int) as char
}

/// The decimal digits of `n`, most significant first, without any padding.
pub open spec fn decimal(n: nat) -> Seq<char>
    decreases n,
{
    if n < 10 {
        seq![digit_char(n as int)]
    } else {
        decimal(n / 10).push(digit_char((n % 10) as int))
    }
}

/// The absolute value of `v`.
pub open spec fn magnitude(v: int) -> nat {
    if v < 0 {
        (-v) as nat
    } else {
        v as nat
    }
}

/// A minus sign for a negative number, nothing otherwise.
pub open spec fn sign_of(v: int) -> Seq<char> {
    if v < 0 {
        seq!['-']
    } else {
        Seq::empty()
    }
}

/// `n` copies of `c`; none if `n` is not positive.
pub open spec fn repeat(c: char, n: int) -> Seq<char> {
    Seq::new(
        if n < 0 {
            0
        } else {
            n as nat
        },
        |i: int| c,
    )
}

/// `v` in decimal with a leading minus sign if it is negative.
pub open spec fn plain(v: int) -> Seq<char> {
    sign_of(v) + decimal(magnitude(v))
}

/// `v` in decimal, filled up with zeros between sign and digits until it is
/// `width` characters long. A number that needs more keeps all its digits.
pub open spec fn zero_padded(v: int, width: int) -> Seq<char> {
    let digits = decimal(magnitude(v));
    sign_of(v) + repeat('0', width - sign_of(v).len() - digits.len()) + digits
}

/// `v` in decimal, with blanks in front until it is `width` characters long.
/// A number that needs more keeps all its digits.
pub open spec fn space_padded(v: int, width: int) -> Seq<char> {
    repeat(' ', width - plain(v).len()) + plain(v)
}

/// The digit for `d`.
pub(crate) fn digit_of(d: u8) -> (c: char)
    requires
        d < 10,
    ensures
        c == digit_char(d as int),
{
    (48u8 + d) as char
}

/// The value of `c` if it is a digit.
pub(crate) fn digit_value_of(c: char) -> (d: Option<u8>)
    ensures
        d is Some == is_digit(c),
        d matches Some(x) ==> x as int == digit_value(c),
{
    if '0' <= c && c <= '9' {
        Some((c as u32 - 48) as u8)
    } else {
        None
    }
}

/// The absolute value of `v` as an unsigned number.
pub(crate) fn magnitude_of(v: i64) -> (m: u64)
    ensures
        m as nat == magnitude(v as int),
{
    if v >= 0 {
        v as u64
    } else if v == i64::MIN {
        9223372036854775808u64
    } else {
        (-v) as u64
    }
}

/// How many digits `n` has.
pub(crate) fn decimal_len(n: u64) -> (len: usize)
    ensures
        len == decimal(n as nat).len(),
        1 <= len <= 20,
{
    proof {
        lemma_decimal_len_bound(n as nat);
    }
    let mut len: usize = 1;
    let mut rest: u64 = n;
    while rest >= 10
        invariant
            1 <= len,
            len + decimal(rest as nat).len() == decimal(n as nat).len() + 1,
            decimal(n as nat).len() <= 20,
        decreases rest,
    {
        rest = rest / 10;
        len = len + 1;
    }
    len
}

/// A number below 10^20 has at most twenty digits.
pub proof fn lemma_decimal_len_bound(n: nat)
    requires
        n <= u64::MAX,
    ensures
        1 <= decimal(n).len() <= 20,
{
    reveal_with_fuel(decimal, 21);
}

/// Appends the digits of `n`.
pub(crate) fn push_decimal(out: &mut String, n: u64)
    ensures
        final(out)@ == old(out)@ + decimal(n as nat),
    decreases n,
{
    if n >= 10 {
        push_decimal(out, n / 10);
    }
    out.push(digit_of((n % 10) as u8));
}

/// Appends `count` copies of `c`.
pub(crate) fn push_repeat(out: &mut String, c: char, count: usize)
    ensures
        final(out)@ == old(out)@ + repeat(c, count as int),
{
    let mut i: usize = 0;
    while i < count
        invariant
            i <= count,
            out@ == old(out)@ + repeat(c, i as int),
        decreases count - i,
    {
        out.push(c);
        i = i + 1;
    }
}

/// Appends `v` in decimal, without padding.
pub(crate) fn push_plain(out: &mut String, v: i64)
    ensures
        final(out)@ == old(out)@ + plain(v as int),
{
    if v < 0 {
        out.push('-');
    }
    push_decimal(out, magnitude_of(v));
}

/// Appends `v` in decimal, filled up with zeros to `width` characters.
pub(crate) fn push_zero_padded(out: &mut String, v: i64, width: usize)
    ensures
        final(out)@ == old(out)@ + zero_padded(v as int, width as int),
{
    let m: u64 = magnitude_of(v);
    let mut used: usize = decimal_len(m);
    if v < 0 {
        out.push('-');
        used = used + 1;
    }
    if used < width {
        push_repeat(out, '0', width - used);
    }
    push_decimal(out, m);
}

/// Appends `v` in decimal, with blanks in front up to `width` characters.
pub(crate) fn push_space_padded(out: &mut String, v: i64, width: usize)
    ensures
        final(out)@ == old(out)@ + space_padded(v as int, width as int),
{
    let m: u64 = magnitude_of(v);
    let mut used: usize = decimal_len(m);
    if v < 0 {
        used = used + 1;
    }
    if used < width {
        push_repeat(out, ' ', width - used);
    }
    push_plain(out, v);
}

} // verus!
