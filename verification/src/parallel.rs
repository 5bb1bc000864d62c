//! The rule decided by rayon's worker threads.
//!
//! Each variant reads the first two characters on the calling thread and
//! hands the rest of the word to one of rayon's combinators. Words of fewer
//! than `PARALLEL_THRESHOLD` bytes are decided serially: below that size
//! handing out the work costs more than it saves.

use crate::rule::{
    class_of, classify, lemma_rule_by_class_long, rest_of, valid_capital_use, CharClass,
};
use crate::serial::detect_capital_use;
use crate::trusted::{par_all, par_find_any_false, par_map_reduce_and, par_try_fold_and};
use vstd::prelude::*;
use vstd::utf8::{encode_utf8, is_ascii_chars, is_ascii_chars_encode_utf8};

verus! {

/// Length in bytes from which a word is handed to the worker threads.
pub const PARALLEL_THRESHOLD: usize = 1000;

/// Tells whether `word` is decided on the calling thread, as every word of
/// fewer than `PARALLEL_THRESHOLD` bytes is.
pub fn decided_serially(word: &str) -> (serially: bool)
    ensures
        serially == (word.len() < PARALLEL_THRESHOLD),
{
    word.len() < PARALLEL_THRESHOLD
}

/// In a word of ASCII characters every character is one byte: for such a
/// word the threshold counts characters.
pub proof fn lemma_ascii_length(word: &str)
    requires
        is_ascii_chars(word@),
        word@.len() <= usize::MAX,
    ensures
        word.len() == word@.len(),
{
    is_ascii_chars_encode_utf8(word@);
}

/// Reads the first two characters of `word`: returns the class they select
/// and the rest of the word.
pub fn split_leading<'a>(word: &'a str) -> (parts: (CharClass, &'a str))
    ensures
        parts.0 == class_of(word@),
        parts.1@ == rest_of(word@),
{
    let mut it = word.chars();
    let first = it.next();
    let second = it.next();
    (classify(first, second), it.as_str())
}

/// A character takes at most four bytes.
pub proof fn lemma_encoded_len(chars: Seq<char>)
    ensures
        encode_utf8(chars).len() <= 4 * chars.len(),
    decreases chars.len(),
{
    if chars.len() > 0 {
        lemma_encoded_len(chars.drop_first());
    }
}

/// For a word that reaches the threshold, the rule is that every character
/// of the rest passes the class that the first two select.
pub proof fn lemma_rule_above_threshold(word: &str)
    requires
        word.len() >= PARALLEL_THRESHOLD,
    ensures
        valid_capital_use(word@) <==> class_of(word@).holds_for_all(rest_of(word@)),
{
    lemma_encoded_len(word@);
    lemma_rule_by_class_long(word@);
}

/// Negation, for searching a sequence of verdicts for a `false`.
pub fn is_false(x: &bool) -> (negated: bool)
    ensures
        negated == !*x,
{
    !*x
}

/// The identity of `and`.
pub fn and_identity() -> (identity: bool)
    ensures
        identity,
{
    true
}

/// Conjunction of two verdicts.
pub fn and(left: bool, right: bool) -> (both: bool)
    ensures
        both == (left && right),
{
    left && right
}

/// One step of a fold that gives up at the first failure: `Some(true)` while
/// the verdict so far is `true` and `c` passes `class`, else `None`.
pub fn and_step(class: CharClass, acc: bool, c: char) -> (next: Option<bool>)
    ensures
        next == (if acc && class.holds(c) {
            Some(true)
        } else {
            None
        }),
{
    let n = acc && class.accepts(c);
    if n {
        Some(n)
    } else {
        None
    }
}

/// Combines the verdicts of two folds that both ran to their end.
pub fn and_merge(left: bool, right: bool) -> (merged: Option<bool>)
    ensures
        merged == Some(left && right),
{
    Some(left && right)
}

/// Decides whether `word` uses capitals validly, with rayon's `all` over the
/// rest of the word.
pub fn parallel_all_detect_capital_use(word: &str) -> (valid: bool)
    ensures
        valid == valid_capital_use(word@),
{
    if decided_serially(word) {
        return detect_capital_use(word);
    }
    let (class, rest) = split_leading(word);
    proof {
        lemma_rule_above_threshold(word);
    }
    par_all(rest, class)
}

/// Decides whether `word` uses capitals validly, by mapping each character
/// of the rest to its verdict and searching the verdicts for a `false`.
pub fn parallel_rayon_all_detect_capital_use(word: &str) -> (valid: bool)
    ensures
        valid == valid_capital_use(word@),
{
    if decided_serially(word) {
        return detect_capital_use(word);
    }
    let (class, rest) = split_leading(word);
    proof {
        lemma_rule_above_threshold(word);
    }
    par_find_any_false(rest, class).is_none()
}

/// Decides whether `word` uses capitals validly, by mapping each character
/// of the rest to its verdict and reducing the verdicts with `and`. Every
/// character is visited, whatever the verdicts are.
pub fn parallel_map_detect_capital_use(word: &str) -> (valid: bool)
    ensures
        valid == valid_capital_use(word@),
{
    if decided_serially(word) {
        return detect_capital_use(word);
    }
    let (class, rest) = split_leading(word);
    proof {
        lemma_rule_above_threshold(word);
    }
    par_map_reduce_and(rest, class)
}

/// Decides whether `word` uses capitals validly, with a fold per worker that
/// gives up at the first character that fails, and a reduction of the folds.
pub fn parallel_try_fold_detect_capital_use(word: &str) -> (valid: bool)
    ensures
        valid == valid_capital_use(word@),
{
    if decided_serially(word) {
        return detect_capital_use(word);
    }
    let (class, rest) = split_leading(word);
    proof {
        lemma_rule_above_threshold(word);
    }
    par_try_fold_and(rest, class).unwrap_or(false)
}

} // verus!
