//! The words whose verdicts are fixed, each run through every predicate.

use detect_capital::{
    detect_capital_use, parallel_all_detect_capital_use, parallel_map_detect_capital_use,
    parallel_rayon_all_detect_capital_use, parallel_try_fold_detect_capital_use, Variant,
};

/// The verdicts of the five predicates and of the five variants on `word`.
fn verdicts(word: &str) -> Vec<bool> {
    let mut all = vec![
        detect_capital_use(word),
        parallel_all_detect_capital_use(word),
        parallel_rayon_all_detect_capital_use(word),
        parallel_map_detect_capital_use(word),
        parallel_try_fold_detect_capital_use(word),
    ];
    for variant in Variant::all() {
        all.push(variant.detect(word));
    }
    all
}

#[test]
fn usa_is_valid() {
    assert_eq!(verdicts("USA"), vec![true; 10]);
}

#[test]
fn flag_with_a_late_capital_is_invalid() {
    assert_eq!(verdicts("FlaG"), vec![false; 10]);
}

#[test]
fn capitalized_leetcode_is_valid() {
    assert_eq!(verdicts("Leetcode"), vec![true; 10]);
}

#[test]
fn lowercase_leetcode_is_valid() {
    assert_eq!(verdicts("leetcode"), vec![true; 10]);
}

#[test]
fn uppercase_leetcode_is_valid() {
    assert_eq!(verdicts("LEETCODE"), vec![true; 10]);
}

#[test]
fn leetcode_with_an_inner_capital_is_invalid() {
    assert_eq!(verdicts("LeetCode"), vec![false; 10]);
}

#[test]
fn lowercase_then_capitals_is_invalid() {
    assert_eq!(verdicts("uSA"), vec![false; 10]);
}

#[test]
fn single_capital_is_valid() {
    assert_eq!(verdicts("A"), vec![true; 10]);
}

#[test]
fn single_lowercase_letter_is_valid() {
    assert_eq!(verdicts("a"), vec![true; 10]);
}

#[test]
fn thousand_capitals_are_valid() {
    let word = "A".repeat(1000);
    assert_eq!(word.len(), 1000);
    assert_eq!(verdicts(&word), vec![true; 10]);
}

#[test]
fn five_hundred_capitals_then_lowercase_are_invalid() {
    let word = format!("{}{}", "A".repeat(500), "a".repeat(500));
    assert_eq!(word.len(), 1000);
    assert_eq!(verdicts(&word), vec![false; 10]);
}

#[test]
fn lowercase_with_a_final_capital_is_invalid() {
    let word = format!("{}Z", "a".repeat(999));
    assert_eq!(word.len(), 1000);
    assert_eq!(verdicts(&word), vec![false; 10]);
}
