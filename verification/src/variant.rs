//! The predicates as values, in the order in which a benchmark runs them.

use crate::parallel::{
    parallel_all_detect_capital_use, parallel_map_detect_capital_use,
    parallel_rayon_all_detect_capital_use, parallel_try_fold_detect_capital_use,
};
use crate::rule::valid_capital_use;
use crate::serial::detect_capital_use;
use crate::test_set::{agrees, Test};
use vstd::prelude::*;

verus! {

/// One way of deciding the rule.
#[derive(Clone, Copy, Debug, PartialEq, Eq, Structural)]
pub enum Variant {
    /// `detect_capital_use`.
    Serial,
    /// `parallel_all_detect_capital_use`.
    ParallelAll,
    /// `parallel_rayon_all_detect_capital_use`.
    ParallelFindAny,
    /// `parallel_map_detect_capital_use`.
    ParallelMapReduce,
    /// `parallel_try_fold_detect_capital_use`.
    ParallelTryFold,
}

impl Variant {
    /// The variants in the order in which they are run.
    pub open spec fn order() -> Seq<Variant> {
        seq![
            Variant::Serial,
            Variant::ParallelAll,
            Variant::ParallelFindAny,
            Variant::ParallelMapReduce,
            Variant::ParallelTryFold,
        ]
    }

    /// The name under which a variant's timing is reported.
    pub open spec fn label_of(self) -> Seq<char> {
        match self {
            Variant::Serial => "basic"@,
            Variant::ParallelAll => "parallel all"@,
            Variant::ParallelFindAny => "parallel rayon_all"@,
            Variant::ParallelMapReduce => "parallel map"@,
            Variant::ParallelTryFold => "parallel try fold"@,
        }
    }

    /// All variants, in the order in which they are run.
    pub fn all() -> (variants: [Variant; 5])
        ensures
            variants@ == Variant::order(),
    {
        let variants = [
            Variant::Serial,
            Variant::ParallelAll,
            Variant::ParallelFindAny,
            Variant::ParallelMapReduce,
            Variant::ParallelTryFold,
        ];
        assert(variants@ =~= Variant::order());
        variants
    }

    /// The name under which this variant's timing is reported.
    pub fn label(self) -> (label: &'static str)
        ensures
            label@ == self.label_of(),
    {
        match self {
            Variant::Serial => "basic",
            Variant::ParallelAll => "parallel all",
            Variant::ParallelFindAny => "parallel rayon_all",
            Variant::ParallelMapReduce => "parallel map",
            Variant::ParallelTryFold => "parallel try fold",
        }
    }

    /// Decides whether `word` uses capitals validly, the way this variant
    /// does it.
    pub fn detect(self, word: &str) -> (valid: bool)
        ensures
            valid == valid_capital_use(word@),
    {
        match self {
            Variant::Serial => detect_capital_use(word),
            Variant::ParallelAll => parallel_all_detect_capital_use(word),
            Variant::ParallelFindAny => parallel_rayon_all_detect_capital_use(word),
            Variant::ParallelMapReduce => parallel_map_detect_capital_use(word),
            Variant::ParallelTryFold => parallel_try_fold_detect_capital_use(word),
        }
    }

    /// Runs this variant on each test in turn, up to the first one whose
    /// expected verdict it does not give. Returns the index of that test, or
    /// `None` when the variant gives the expected verdict on all of them.
    pub fn first_failure(self, tests: &Vec<Test>) -> (failure: Option<usize>)
        ensures
            match failure {
                Some(at) => at < tests.len() && !agrees(tests[at as int]@) && forall|i: int|
                    0 <= i < at ==> agrees(#[trigger] tests[i]@),
                None => forall|i: int| 0 <= i < tests.len() ==> agrees(#[trigger] tests[i]@),
            },
    {
        let mut at: usize = 0;
        while at < tests.len()
            invariant
                at <= tests.len(),
                forall|i: int| 0 <= i < at ==> agrees(#[trigger] tests[i]@),
            decreases tests.len() - at,
        {
            let detect = |word: &str| -> (valid: bool)
                ensures
                    valid == valid_capital_use(word@),
                { self.detect(word) };
            if !tests[at].passes(detect) {
                return Some(at);
            }
            at += 1;
        }
        None
    }
}

/// Any two variants give the same verdict on the same word.
pub proof fn lemma_variants_agree(
    first: Variant,
    second: Variant,
    word: &str,
    first_verdict: bool,
    second_verdict: bool,
)
    requires
        call_ensures(Variant::detect, (first, word), first_verdict),
        call_ensures(Variant::detect, (second, word), second_verdict),
    ensures
        first_verdict == second_verdict,
{
}

/// The five predicates give the same verdict on the same word: the one that
/// the rule gives.
pub proof fn lemma_predicates_agree(
    word: &str,
    serial: bool,
    all: bool,
    find_any: bool,
    map_reduce: bool,
    try_fold: bool,
)
    requires
        call_ensures(detect_capital_use, (word,), serial),
        call_ensures(parallel_all_detect_capital_use, (word,), all),
        call_ensures(parallel_rayon_all_detect_capital_use, (word,), find_any),
        call_ensures(parallel_map_detect_capital_use, (word,), map_reduce),
        call_ensures(parallel_try_fold_detect_capital_use, (word,), try_fold),
    ensures
        serial == valid_capital_use(word@),
        all == serial,
        find_any == serial,
        map_reduce == serial,
        try_fold == serial,
{
}

/// Calling a parallel predicate again on the same word gives the same
/// verdict again, however the worker threads divide the word between them.
pub proof fn lemma_parallel_verdicts_stable(
    word: &str,
    once: (bool, bool, bool, bool),
    again: (bool, bool, bool, bool),
)
    requires
        call_ensures(parallel_all_detect_capital_use, (word,), once.0),
        call_ensures(parallel_all_detect_capital_use, (word,), again.0),
        call_ensures(parallel_rayon_all_detect_capital_use, (word,), once.1),
        call_ensures(parallel_rayon_all_detect_capital_use, (word,), again.1),
        call_ensures(parallel_map_detect_capital_use, (word,), once.2),
        call_ensures(parallel_map_detect_capital_use, (word,), again.2),
        call_ensures(parallel_try_fold_detect_capital_use, (word,), once.3),
        call_ensures(parallel_try_fold_detect_capital_use, (word,), again.3),
    ensures
        once == again,
{
}

/// Calling a variant again on the same word gives the same verdict again.
pub proof fn lemma_verdict_stable(variant: Variant, word: &str, once: bool, again: bool)
    requires
        call_ensures(Variant::detect, (variant, word), once),
        call_ensures(Variant::detect, (variant, word), again),
    ensures
        once == again,
{
}

} // verus!
