//! A text matches a format as a whole or not at all, and what a zone's
//! name says.

use crate::names::occurs_at;
use crate::parse::{parsed, parsed_field, parsed_steps, token_end, ParseError};
use crate::tm::TmView;
use vstd::prelude::*;

verus! {

/// The empty format matches the empty text alone, and leaves every field
/// zero; any other text is left over from its first character on.
pub proof fn lemma_empty_format(s: Seq<char>)
    ensures
        parsed(s, Seq::<char>::empty()) == if s.len() == 0 {
            Ok::<TmView, ParseError>(TmView::zero())
        } else {
            Err::<TmView, ParseError>(ParseError::TrailingInput { position: 0 })
        },
{
}

/// A format that is not empty matches no empty text: the input ends
/// before the format does.
pub proof fn lemma_empty_input(format: Seq<char>)
    requires
        format.len() > 0,
    ensures
        parsed(Seq::<char>::empty(), format) == Err::<TmView, ParseError>(
            ParseError::PrematureEnd { position: 0 },
        ),
{
}

/// Where a token ends: not before it begins and not behind the text, at
/// a blank or at the end of the text, and behind no blank of its own.
pub proof fn lemma_token_end(s: Seq<char>, pos: int)
    requires
        0 <= pos <= s.len(),
    ensures
        pos <= token_end(s, pos) <= s.len(),
        token_end(s, pos) == s.len() || s[token_end(s, pos)] == ' ',
        forall|i: int| pos <= i < token_end(s, pos) ==> s[i] != ' ',
    decreases s.len() - pos,
{
    if pos < s.len() && s[pos] != ' ' {
        lemma_token_end(s, pos + 1);
    }
}

/// The zone names that mean something: `%Z` reads `UTC` and `GMT` as an
/// offset of zero and as no name for the zone.
pub proof fn lemma_zone_utc()
    ensures
        parsed("UTC"@, "%Z"@) == Ok::<TmView, ParseError>(TmView::zero()),
        parsed("GMT"@, "%Z"@) == Ok::<TmView, ParseError>(TmView::zero()),
{
    reveal_strlit("UTC");
    reveal_strlit("GMT");
    reveal_strlit("%Z");
    reveal_with_fuel(parsed_steps, 3);
    assert("UTC"@.subrange(0, 3) == "UTC"@);
    assert("GMT"@.subrange(0, 3) == "GMT"@);
}

/// Any other zone name: where neither `UTC` nor `GMT` stands, `%Z` takes
/// the characters up to the next blank, or to the end, and changes no
/// field.
pub proof fn lemma_zone_token(s: Seq<char>, pos: int, tm: TmView)
    requires
        !occurs_at(s, pos, "UTC"@),
        !occurs_at(s, pos, "GMT"@),
    ensures
        parsed_field(s, pos, 'Z', tm) == Ok::<(int, TmView), ParseError>((token_end(s, pos), tm)),
{
}

/// A text that is one token, and neither begins with `UTC` nor with `GMT`,
/// is a zone name that `%Z` reads to its end without learning from it.
pub proof fn lemma_zone_name(s: Seq<char>)
    requires
        s.len() > 0,
        forall|i: int| 0 <= i < s.len() ==> s[i] != ' ',
        !occurs_at(s, 0, "UTC"@),
        !occurs_at(s, 0, "GMT"@),
    ensures
        parsed(s, "%Z"@) == Ok::<TmView, ParseError>(TmView::zero()),
{
    reveal_strlit("%Z");
    reveal_with_fuel(parsed_steps, 3);
    lemma_token_end(s, 0);
}

} // verus!
