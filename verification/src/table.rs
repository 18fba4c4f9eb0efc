//! What parsing and formatting share about the specifier letters: which of
//! them stand for a sequence of others, and which for one fixed character.

use crate::text::to_chars;
use vstd::prelude::*;

verus! {

/// How deep composite specifiers nest: `%c` holds `%T`, which holds fields.
pub const DEPTH: u8 = 2;

/// The format that a composite specifier stands for; `None` for every
/// other letter.
pub open spec fn expansion(ch: char) -> Option<Seq<char>> {
    if ch == 'c' {
        Some("%a %b %e %T %Y"@)
    } else if ch == 'D' || ch == 'x' {
        Some("%m/%d/%y"@)
    } else if ch == 'F' {
        Some("%Y-%m-%d"@)
    } else if ch == 'R' {
        Some("%H:%M"@)
    } else if ch == 'r' {
        Some("%I:%M:%S %p"@)
    } else if ch == 'T' {
        Some("%H:%M:%S"@)
    } else if ch == 'v' {
        Some("%e-%b-%Y"@)
    } else {
        None
    }
}

/// The character that a specifier for a fixed character stands for;
/// `None` for every other letter.
pub open spec fn literal(ch: char) -> Option<char> {
    if ch == 'n' {
        Some('\n')
    } else if ch == 't' {
        Some('\t')
    } else if ch == '%' {
        Some('%')
    } else {
        None
    }
}

/// The format that a composite specifier stands for.
pub(crate) fn expansion_of(ch: char) -> (sub: Option<Vec<char>>)
    ensures
        match sub {
            Some(v) => expansion(ch) == Some(v@),
            None => expansion(ch) is None,
        },
{
    if ch == 'c' {
        Some(to_chars("%a %b %e %T %Y"))
    } else if ch == 'D' || ch == 'x' {
        Some(to_chars("%m/%d/%y"))
    } else if ch == 'F' {
        Some(to_chars("%Y-%m-%d"))
    } else if ch == 'R' {
        Some(to_chars("%H:%M"))
    } else if ch == 'r' {
        Some(to_chars("%I:%M:%S %p"))
    } else if ch == 'T' {
        Some(to_chars("%H:%M:%S"))
    } else if ch == 'v' {
        Some(to_chars("%e-%b-%Y"))
    } else {
        None
    }
}

/// The character that a specifier for a fixed character stands for.
pub(crate) fn literal_of(ch: char) -> (c: Option<char>)
    ensures
        c == literal(ch),
{
    if ch == 'n' {
        Some('\n')
    } else if ch == 't' {
        Some('\t')
    } else if ch == '%' {
        Some('%')
    } else {
        None
    }
}

} // verus!
