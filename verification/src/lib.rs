//! Detects whether a word uses capitals validly, serially and with rayon's
//! parallel iterators, and builds the labeled words to compare the two on.

pub mod parallel;
pub mod rule;
pub mod schedule;
pub mod serial;
pub mod test_set;
pub mod trusted;
pub mod variant;

pub use parallel::{
    parallel_all_detect_capital_use, parallel_map_detect_capital_use,
    parallel_rayon_all_detect_capital_use, parallel_try_fold_detect_capital_use,
};
pub use serial::detect_capital_use;
pub use test_set::{create_set, create_set_with_pivot, Test};
pub use variant::Variant;
