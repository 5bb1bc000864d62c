//! The sizes at which a benchmark builds its test sets.

use crate::parallel::PARALLEL_THRESHOLD;
use vstd::prelude::*;

verus! {

/// The sizes, in the order in which they are run.
pub open spec fn schedule() -> Seq<usize> {
    seq![
        1_000usize,
        10_000usize,
        100_000usize,
        1_000_000usize,
        10_000_000usize,
        100_000_000usize,
        1_000_000_000usize,
    ]
}

/// The sizes at which the test sets are built, smallest first.
pub fn test_sizes() -> (sizes: [usize; 7])
    ensures
        sizes@ == schedule(),
{
    let sizes: [usize; 7] = [
        1_000,
        10_000,
        100_000,
        1_000_000,
        10_000_000,
        100_000_000,
        1_000_000_000,
    ];
    assert(sizes@ =~= schedule());
    sizes
}

/// The schedule ascends, and each of its sizes is one that a test set can
/// be built for and that takes the large words over the parallel threshold.
pub proof fn lemma_schedule()
    ensures
        forall|i: int, j: int|
            0 <= i < j < schedule().len() ==> #[trigger] schedule()[i] < #[trigger] schedule()[j],
        forall|i: int|
            0 <= i < schedule().len() ==> PARALLEL_THRESHOLD <= #[trigger] schedule()[i]
                <= isize::MAX,
{
}

} // verus!
