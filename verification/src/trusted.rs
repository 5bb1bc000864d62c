//! What this library takes on trust: the contracts of the functions of rayon,
//! rand and std that it calls. Nothing in this file is proved.

use crate::parallel::{and, and_identity, and_merge, and_step, is_false};
use crate::rule::CharClass;
use rand::Rng;
use rayon::iter::ParallelIterator;
use rayon::str::ParallelString;
use std::str::Chars;
use vstd::prelude::*;
use vstd::std_specs::iter::IteratorSpec;

verus! {

/// `std::str::Chars::as_str`: the part of the string that the iterator has not
/// yet handed out, as a string slice.
pub assume_specification<'a>[ Chars::<'a>::as_str ](chars: &Chars<'a>) -> (rest: &'a str)
    ensures
        rest@ == chars.remaining(),
;

/// `rayon::str::ParallelString::par_chars` followed by
/// `rayon::iter::ParallelIterator::all`, with `CharClass::accepts` as the
/// predicate: true exactly when every character of `rest` passes `class`.
/// Workers may stop early once one of them has met a character that fails,
/// which does not change the answer.
#[verifier::external_body]
pub(crate) fn par_all(rest: &str, class: CharClass) -> (all: bool)
    ensures
        all == class.holds_for_all(rest@),
{
    rest.par_chars().all(|c: char| class.accepts(c))
}

/// `par_chars`, then `rayon::iter::ParallelIterator::map` with
/// `CharClass::accepts`, then `rayon::iter::ParallelIterator::find_any` with
/// `is_false`: some mapped item that is `false` if there is one, `None` if
/// every character of `rest` passes `class`. Which of several failing
/// characters is found is open, but each of them maps to `false`.
#[verifier::external_body]
pub(crate) fn par_find_any_false(rest: &str, class: CharClass) -> (found: Option<bool>)
    ensures
        found == (if class.holds_for_all(rest@) {
            None
        } else {
            Some(false)
        }),
{
    rest.par_chars().map(|c: char| class.accepts(c)).find_any(is_false)
}

/// `par_chars`, then `map` with `CharClass::accepts`, then
/// `rayon::iter::ParallelIterator::reduce` with `and_identity` and `and`: the
/// conjunction of all mapped items. `and` is associative and `true` is its
/// identity, so the order in which rayon combines the items does not matter.
#[verifier::external_body]
pub(crate) fn par_map_reduce_and(rest: &str, class: CharClass) -> (all: bool)
    ensures
        all == class.holds_for_all(rest@),
{
    rest.par_chars().map(|c: char| class.accepts(c)).reduce(and_identity, and)
}

/// `par_chars`, then `rayon::iter::ParallelIterator::try_fold` with
/// `and_identity` and `and_step`, then
/// `rayon::iter::ParallelIterator::try_reduce` with `and_identity` and
/// `and_merge`. Each fold starts from `true` and yields `None` at the first
/// character that fails `class`; the reduction yields `None` as soon as one
/// fold did, and `Some(true)` when none did.
#[verifier::external_body]
pub(crate) fn par_try_fold_and(rest: &str, class: CharClass) -> (all: Option<bool>)
    ensures
        all == (if class.holds_for_all(rest@) {
            Some(true)
        } else {
            None
        }),
{
    rest.par_chars().try_fold(and_identity, |acc: bool, c: char| and_step(class, acc, c))
        .try_reduce(and_identity, and_merge)
}

/// `String::with_capacity`: an empty string whose buffer holds at least
/// `capacity` bytes. More than `isize::MAX` bytes cannot be asked for.
pub assume_specification[ String::with_capacity ](capacity: usize) -> (s: String)
    requires
        capacity <= isize::MAX,
    ensures
        s@ == Seq::<char>::empty(),
;

/// `rand::thread_rng` followed by `rand::Rng::gen_range` over `0..bound`: an
/// index below `bound`, drawn by the calling thread's generator. Two calls
/// may give two indices. rand refuses an empty range, so `bound` is positive.
#[verifier::external_body]
pub(crate) fn random_index(bound: usize) -> (index: usize)
    requires
        bound > 0,
    ensures
        index < bound,
{
    rand::thread_rng().gen_range(0..bound)
}

} // verus!
