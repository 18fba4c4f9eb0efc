//! Numbers of a fixed width are read as they were written.

use crate::names::{lemma_occurs_char, occurs_at};
use crate::parse::{number_at, number_from};
use crate::text::{
    decimal, digit_char, digit_value, is_digit, plain, space_padded, zero_padded,
};
use vstd::prelude::*;

verus! {

/// The text behind position `pos` begins with `a` if it is `a + b`, and
/// goes on with `b`.
pub(crate) proof fn lemma_split(s: Seq<char>, pos: int, a: Seq<char>, b: Seq<char>)
    requires
        0 <= pos <= s.len(),
        s.subrange(pos, s.len() as int) == a + b,
    ensures
        occurs_at(s, pos, a),
        s.subrange(pos + a.len(), s.len() as int) == b,
{
    let whole = s.subrange(pos, s.len() as int);
    assert(s.subrange(pos, pos + a.len()) == whole.subrange(0, a.len() as int));
    assert(whole.subrange(0, a.len() as int) == a);
    assert(whole.subrange(a.len() as int, whole.len() as int) == b);
}

/// A number from 0 to 99, filled with zeros to two characters, is its two digits.
pub(crate) proof fn lemma_zero_padded_2(v: int)
    requires
        0 <= v <= 99,
    ensures
        zero_padded(v, 2) == seq![digit_char(v / 10), digit_char(v % 10)],
{
    reveal_with_fuel(decimal, 3);
}

/// A number from 0 to 999, filled with zeros to three characters, is its
/// three digits.
pub(crate) proof fn lemma_zero_padded_3(v: int)
    requires
        0 <= v <= 999,
    ensures
        zero_padded(v, 3) == seq![
            digit_char(v / 10 / 10),
            digit_char((v / 10) % 10),
            digit_char(v % 10),
        ],
{
    reveal_with_fuel(decimal, 4);
}

/// A number from 0 to 99, filled with blanks to two characters, is a blank
/// and a digit, or two digits.
pub(crate) proof fn lemma_space_padded_2(v: int)
    requires
        0 <= v <= 99,
    ensures
        space_padded(v, 2) == if v < 10 {
            seq![' ', digit_char(v)]
        } else {
            seq![digit_char(v / 10), digit_char(v % 10)]
        },
{
    reveal_with_fuel(decimal, 3);
}

/// A number from 0 to 9 is written as its digit.
pub(crate) proof fn lemma_plain_1(v: int)
    requires
        0 <= v <= 9,
    ensures
        plain(v) == seq![digit_char(v)],
{
}

/// A number from 1000 to 9999 is written as its four digits.
pub(crate) proof fn lemma_plain_4(v: int)
    requires
        1000 <= v <= 9999,
    ensures
        plain(v) == seq![
            digit_char(v / 10 / 10 / 10),
            digit_char((v / 10 / 10) % 10),
            digit_char((v / 10) % 10),
            digit_char(v % 10),
        ],
{
    reveal_with_fuel(decimal, 5);
}

/// A digit is read as the number it was written for.
pub(crate) proof fn lemma_digit(d: int)
    requires
        0 <= d <= 9,
    ensures
        is_digit(digit_char(d)),
        digit_value(digit_char(d)) == d,
        digit_char(d) != ' ',
{
}

/// One digit at `pos` is read as its number.
pub(crate) proof fn lemma_reads_1(s: Seq<char>, pos: int, v: int, blanks: bool)
    requires
        0 <= v <= 9,
        occurs_at(s, pos, seq![digit_char(v)]),
    ensures
        number_at(s, pos, 1, blanks) == Ok::<(int, int), int>((v, pos + 1)),
{
    reveal_with_fuel(number_from, 2);
    let text = seq![digit_char(v)];
    lemma_occurs_char(s, pos, text, 0);
    lemma_digit(v);
}

/// Two digits at `pos` are read as their number.
pub(crate) proof fn lemma_reads_2(s: Seq<char>, pos: int, v: int, blanks: bool)
    requires
        0 <= v <= 99,
        occurs_at(s, pos, seq![digit_char(v / 10), digit_char(v % 10)]),
    ensures
        number_at(s, pos, 2, blanks) == Ok::<(int, int), int>((v, pos + 2)),
{
    reveal_with_fuel(number_from, 3);
    let text = seq![digit_char(v / 10), digit_char(v % 10)];
    lemma_occurs_char(s, pos, text, 0);
    lemma_occurs_char(s, pos, text, 1);
    lemma_digit(v / 10);
    lemma_digit(v % 10);
}

/// A blank and a digit at `pos` are read as the digit's number where blanks
/// may fill a number.
pub(crate) proof fn lemma_reads_blank_2(s: Seq<char>, pos: int, v: int)
    requires
        0 <= v <= 9,
        occurs_at(s, pos, seq![' ', digit_char(v)]),
    ensures
        number_at(s, pos, 2, true) == Ok::<(int, int), int>((v, pos + 2)),
{
    reveal_with_fuel(number_from, 3);
    let text = seq![' ', digit_char(v)];
    lemma_occurs_char(s, pos, text, 0);
    lemma_occurs_char(s, pos, text, 1);
    lemma_digit(v);
}

/// Three digits at `pos` are read as the number they spell.
pub(crate) proof fn lemma_reads_digits_3(s: Seq<char>, pos: int, a: int, b: int, c: int, blanks: bool)
    requires
        0 <= a <= 9,
        0 <= b <= 9,
        0 <= c <= 9,
        occurs_at(s, pos, seq![digit_char(a), digit_char(b), digit_char(c)]),
    ensures
        number_at(s, pos, 3, blanks) == Ok::<(int, int), int>(((a * 10 + b) * 10 + c, pos + 3)),
{
    reveal_with_fuel(number_from, 4);
    let text = seq![digit_char(a), digit_char(b), digit_char(c)];
    lemma_occurs_char(s, pos, text, 0);
    lemma_occurs_char(s, pos, text, 1);
    lemma_occurs_char(s, pos, text, 2);
    lemma_digit(a);
    lemma_digit(b);
    lemma_digit(c);
}

/// Four digits at `pos` are read as the number they spell.
pub(crate) proof fn lemma_reads_digits_4(s: Seq<char>, pos: int, a: int, b: int, c: int, d: int, blanks: bool)
    requires
        0 <= a <= 9,
        0 <= b <= 9,
        0 <= c <= 9,
        0 <= d <= 9,
        occurs_at(s, pos, seq![digit_char(a), digit_char(b), digit_char(c), digit_char(d)]),
    ensures
        number_at(s, pos, 4, blanks) == Ok::<(int, int), int>(
            (((a * 10 + b) * 10 + c) * 10 + d, pos + 4),
        ),
{
    reveal_with_fuel(number_from, 5);
    let text = seq![digit_char(a), digit_char(b), digit_char(c), digit_char(d)];
    lemma_occurs_char(s, pos, text, 0);
    lemma_occurs_char(s, pos, text, 1);
    lemma_occurs_char(s, pos, text, 2);
    lemma_occurs_char(s, pos, text, 3);
    lemma_digit(a);
    lemma_digit(b);
    lemma_digit(c);
    lemma_digit(d);
}

/// Three digits at `pos` are read as their number.
pub(crate) proof fn lemma_reads_3(s: Seq<char>, pos: int, v: int, blanks: bool)
    requires
        0 <= v <= 999,
        occurs_at(
            s,
            pos,
            seq![digit_char(v / 10 / 10), digit_char((v / 10) % 10), digit_char(v % 10)],
        ),
    ensures
        number_at(s, pos, 3, blanks) == Ok::<(int, int), int>((v, pos + 3)),
{
    lemma_reads_digits_3(s, pos, v / 10 / 10, (v / 10) % 10, v % 10, blanks);
}

/// Four digits at `pos` are read as their number.
pub(crate) proof fn lemma_reads_4(s: Seq<char>, pos: int, v: int, blanks: bool)
    requires
        0 <= v <= 9999,
        occurs_at(
            s,
            pos,
            seq![
                digit_char(v / 10 / 10 / 10),
                digit_char((v / 10 / 10) % 10),
                digit_char((v / 10) % 10),
                digit_char(v % 10),
            ],
        ),
    ensures
        number_at(s, pos, 4, blanks) == Ok::<(int, int), int>((v, pos + 4)),
{
    lemma_reads_digits_4(
        s,
        pos,
        v / 10 / 10 / 10,
        (v / 10 / 10) % 10,
        (v / 10) % 10,
        v % 10,
        blanks,
    );
}

} // verus!
