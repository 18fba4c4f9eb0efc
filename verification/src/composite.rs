//! A composite specifier means what the format it stands for means.

use crate::format::{
    format_expansion, formats, formatted, specifier_formats, specifier_text, steps_format,
    steps_text,
};
use crate::parse::{parsed, parsed_specifier, parsed_steps};
use crate::table::expansion;
use crate::tm::TmView;
use vstd::prelude::*;

verus! {

/// How many levels of composites lie below the letter `ch`: two below
/// `%c`, which holds `%T`, one below the other composites, none below the
/// rest.
pub open spec fn nesting(ch: char) -> nat {
    if ch == 'c' {
        2
    } else if format_expansion(ch) is Some {
        1
    } else {
        0
    }
}

/// No letter of the format `f` has more than `depth` levels below it.
pub open spec fn shallow(f: Seq<char>, depth: nat) -> bool {
    forall|i: int| 0 <= i < f.len() ==> nesting(#[trigger] f[i]) <= depth
}

/// The letters in the expansion of a composite have fewer levels below
/// them than the composite has, and no expansion is empty.
proof fn lemma_expansion_shallow(ch: char)
    requires
        format_expansion(ch) is Some,
    ensures
        nesting(ch) >= 1,
        shallow(format_expansion(ch)->0, (nesting(ch) - 1) as nat),
        format_expansion(ch)->0.len() > 0,
{
    reveal_strlit("%a %b %e %T %Y");
    reveal_strlit("%m/%d/%y");
    reveal_strlit("%Y-%m-%d");
    reveal_strlit("%H:%M");
    reveal_strlit("%I:%M:%S %p");
    reveal_strlit("%H:%M:%S");
    reveal_strlit("%e-%b-%Y");
}

/// A walk over a format does not depend on the levels it is given beyond
/// those that the letters of the format need.
proof fn lemma_parsed_steps_depth(
    s: Seq<char>,
    pos: int,
    f: Seq<char>,
    at: int,
    tm: TmView,
    d1: nat,
    d2: nat,
)
    requires
        shallow(f, d1),
        shallow(f, d2),
    ensures
        parsed_steps(s, pos, f, at, tm, d1) == parsed_steps(s, pos, f, at, tm, d2),
    decreases d1, f.len() - at,
{
    if at < 0 || at >= f.len() {
    } else if pos < 0 || pos >= s.len() {
    } else if f[at] != '%' {
        if s[pos] == f[at] {
            lemma_parsed_steps_depth(s, pos + 1, f, at + 1, tm, d1, d2);
        }
    } else if at + 1 >= f.len() {
    } else {
        let ch = f[at + 1];
        match expansion(ch) {
            Some(sub) => {
                lemma_expansion_shallow(ch);
                lemma_parsed_steps_depth(s, pos, sub, 0, tm, (d1 - 1) as nat, (d2 - 1) as nat);
            },
            None => {},
        }
        assert(parsed_specifier(s, pos, ch, tm, d1) == parsed_specifier(s, pos, ch, tm, d2));
        match parsed_specifier(s, pos, ch, tm, d1) {
            Ok((next, tm2)) => {
                lemma_parsed_steps_depth(s, next, f, at + 2, tm2, d1, d2);
            },
            Err(_) => {},
        }
    }
}

/// What a format writes, and whether it can be written, does not depend
/// on the levels it is given beyond those that its letters need.
proof fn lemma_steps_text_depth(
    f: Seq<char>,
    at: int,
    tm: TmView,
    epoch: Option<int>,
    d1: nat,
    d2: nat,
)
    requires
        shallow(f, d1),
        shallow(f, d2),
    ensures
        steps_text(f, at, tm, epoch, d1) == steps_text(f, at, tm, epoch, d2),
        steps_format(f, at, tm, epoch is Some, d1) == steps_format(f, at, tm, epoch is Some, d2),
    decreases d1, f.len() - at,
{
    if at < 0 || at >= f.len() {
    } else if f[at] != '%' {
        lemma_steps_text_depth(f, at + 1, tm, epoch, d1, d2);
    } else if at + 1 >= f.len() {
    } else {
        let ch = f[at + 1];
        match format_expansion(ch) {
            Some(sub) => {
                lemma_expansion_shallow(ch);
                lemma_steps_text_depth(sub, 0, tm, epoch, (d1 - 1) as nat, (d2 - 1) as nat);
            },
            None => {},
        }
        assert(specifier_text(ch, tm, epoch, d1) == specifier_text(ch, tm, epoch, d2));
        assert(specifier_formats(ch, tm, epoch is Some, d1) == specifier_formats(
            ch,
            tm,
            epoch is Some,
            d2,
        ));
        lemma_steps_text_depth(f, at + 2, tm, epoch, d1, d2);
    }
}

/// Composite equivalence in formatting: a composite specifier `%ch` can be
/// written for a time exactly when the format that it stands for can, and
/// it writes the same text. So `%T` writes what `%H:%M:%S` writes.
pub proof fn lemma_composite_formats_alike(ch: char, tm: TmView, epoch: Option<int>)
    requires
        format_expansion(ch) is Some,
    ensures
        formats(seq!['%', ch], tm, epoch is Some) == formats(
            format_expansion(ch)->0,
            tm,
            epoch is Some,
        ),
        formatted(seq!['%', ch], tm, epoch) == formatted(format_expansion(ch)->0, tm, epoch),
{
    let sub = format_expansion(ch)->0;
    lemma_expansion_shallow(ch);
    lemma_steps_text_depth(sub, 0, tm, epoch, 1, 2);
    reveal_with_fuel(steps_text, 3);
    reveal_with_fuel(steps_format, 3);
}

/// Composite equivalence in parsing: a composite specifier `%ch` reads
/// from every text what the format that it stands for reads from it, and
/// fails where that fails, with the same error. So `%T` parses what
/// `%H:%M:%S` parses.
pub proof fn lemma_composite_parses_alike(ch: char, s: Seq<char>)
    requires
        expansion(ch) is Some,
    ensures
        parsed(s, seq!['%', ch]) == parsed(s, expansion(ch)->0),
{
    let sub = expansion(ch)->0;
    let zero = TmView::zero();
    lemma_expansion_shallow(ch);
    lemma_parsed_steps_depth(s, 0, sub, 0, zero, 1, 2);
    reveal_with_fuel(parsed_steps, 3);
}

/// The time of day as an instance: `%T` writes what `%H:%M:%S` writes, and
/// parses what it parses.
pub proof fn lemma_time_of_day(tm: TmView, epoch: Option<int>, s: Seq<char>)
    ensures
        formatted("%T"@, tm, epoch) == formatted("%H:%M:%S"@, tm, epoch),
        parsed(s, "%T"@) == parsed(s, "%H:%M:%S"@),
{
    reveal_strlit("%T");
    assert("%T"@ == seq!['%', 'T']);
    lemma_composite_formats_alike('T', tm, epoch);
    lemma_composite_parses_alike('T', s);
}

} // verus!
