//! The rule decided on the calling thread.

use crate::rule::{classify, lemma_rule_by_class, rest_of, valid_capital_use, CharClass};
use vstd::prelude::*;
use vstd::std_specs::iter::IteratorSpec;

verus! {

/// Decides whether `word` uses capitals validly.
///
/// The first two characters select the test for the rest of the word, which is
/// then read one character after another, up to the first one that fails.
pub fn detect_capital_use(word: &str) -> (valid: bool)
    ensures
        valid == valid_capital_use(word@),
{
    let mut it = word.chars();
    let first = it.next();
    let second = it.next();
    let class = match (first, second) {
        (_, None) => {
            return true;
        },
        (first, second) => classify(first, second),
    };
    proof {
        lemma_rule_by_class(word@);
    }
    if class == CharClass::Nothing {
        return false;
    }
    let ghost rest = rest_of(word@);
    let ghost mut seen: int = 0;
    loop
        invariant
            0 <= seen <= rest.len(),
            it.remaining() == rest.skip(seen),
            forall|i: int| 0 <= i < seen ==> class.holds(#[trigger] rest[i]),
            valid_capital_use(word@) <==> class.holds_for_all(rest),
        decreases rest.len() - seen,
    {
        match it.next() {
            Some(c) => {
                if !class.accepts(c) {
                    return false;
                }
                proof {
                    seen = seen + 1;
                }
            },
            None => {
                return true;
            },
        }
    }
}

} // verus!
