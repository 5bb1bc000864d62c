//! The per-character tests and the choice of a class from two characters.

use detect_capital::detect_capital_use;
use detect_capital::parallel::{and, and_identity, and_merge, and_step, is_false, split_leading};
use detect_capital::rule::{classify, CharClass};

#[test]
fn lower_class_accepts_exactly_ascii_lowercase() {
    for c in ['a', 'm', 'z'] {
        assert!(CharClass::Lower.accepts(c));
    }
    for c in ['`', '{', 'A', 'Z', '0', ' ', '\u{e9}', '\u{3b1}'] {
        assert!(!CharClass::Lower.accepts(c));
    }
}

#[test]
fn upper_class_accepts_exactly_ascii_uppercase() {
    for c in ['A', 'M', 'Z'] {
        assert!(CharClass::Upper.accepts(c));
    }
    for c in ['@', '[', 'a', 'z', '9', '\u{c9}', '\u{391}'] {
        assert!(!CharClass::Upper.accepts(c));
    }
}

#[test]
fn nothing_class_accepts_no_character() {
    for c in ['a', 'Z', '0', '\u{e9}'] {
        assert!(!CharClass::Nothing.accepts(c));
    }
}

#[test]
fn lowercase_second_character_selects_lower() {
    assert_eq!(classify(Some('A'), Some('b')), CharClass::Lower);
    assert_eq!(classify(Some('a'), Some('b')), CharClass::Lower);
    assert_eq!(classify(Some('7'), Some('z')), CharClass::Lower);
    assert_eq!(classify(None, Some('a')), CharClass::Lower);
}

#[test]
fn two_capitals_select_upper() {
    assert_eq!(classify(Some('A'), Some('B')), CharClass::Upper);
    assert_eq!(classify(Some('Z'), Some('A')), CharClass::Upper);
}

#[test]
fn any_other_pair_selects_nothing() {
    assert_eq!(classify(Some('a'), Some('B')), CharClass::Nothing);
    assert_eq!(classify(Some('A'), Some('1')), CharClass::Nothing);
    assert_eq!(classify(Some('1'), Some('B')), CharClass::Nothing);
    assert_eq!(classify(Some('A'), Some('\u{e9}')), CharClass::Nothing);
    assert_eq!(classify(Some('A'), None), CharClass::Nothing);
    assert_eq!(classify(None, None), CharClass::Nothing);
}

#[test]
fn split_leading_returns_class_and_rest() {
    assert_eq!(split_leading("Leetcode"), (CharClass::Lower, "etcode"));
    assert_eq!(split_leading("USA"), (CharClass::Upper, "A"));
    assert_eq!(split_leading("uSA"), (CharClass::Nothing, "A"));
    assert_eq!(split_leading("Ab"), (CharClass::Lower, ""));
    assert_eq!(split_leading("A"), (CharClass::Nothing, ""));
    assert_eq!(split_leading(""), (CharClass::Nothing, ""));
}

#[test]
fn split_leading_counts_characters_not_bytes() {
    assert_eq!(split_leading("\u{e9}a\u{e9}b"), (CharClass::Lower, "\u{e9}b"));
    assert_eq!(split_leading("\u{1f600}\u{1f600}xy"), (CharClass::Nothing, "xy"));
}

#[test]
fn words_of_two_characters() {
    assert!(detect_capital_use("AB"));
    assert!(detect_capital_use("Ab"));
    assert!(detect_capital_use("ab"));
    assert!(!detect_capital_use("aB"));
    assert!(!detect_capital_use("A1"));
    assert!(!detect_capital_use("1B"));
    assert!(detect_capital_use("1b"));
}

#[test]
fn words_of_fewer_than_two_characters_are_valid() {
    assert!(detect_capital_use(""));
    assert!(detect_capital_use("7"));
    assert!(detect_capital_use("\u{e9}"));
}

#[test]
fn first_character_is_free_when_the_rest_is_lowercase() {
    assert!(detect_capital_use("1abc"));
    assert!(detect_capital_use("\u{e9}abc"));
    assert!(!detect_capital_use("1ABC"));
}

#[test]
fn a_character_that_is_no_ascii_letter_fails_after_the_first() {
    assert!(!detect_capital_use("ab1"));
    assert!(!detect_capital_use("AB1"));
    assert!(!detect_capital_use("ab c"));
    assert!(!detect_capital_use("aa\u{e9}"));
    assert!(!detect_capital_use("AA\u{c9}"));
    assert!(!detect_capital_use("a\u{e9}"));
}

#[test]
fn is_false_negates() {
    assert!(is_false(&false));
    assert!(!is_false(&true));
}

#[test]
fn and_has_true_as_identity() {
    assert!(and_identity());
    for value in [true, false] {
        assert_eq!(and(and_identity(), value), value);
        assert_eq!(and(value, and_identity()), value);
    }
    assert!(!and(false, false));
}

#[test]
fn and_step_gives_up_at_the_first_failure() {
    assert_eq!(and_step(CharClass::Lower, true, 'a'), Some(true));
    assert_eq!(and_step(CharClass::Lower, true, 'A'), None);
    assert_eq!(and_step(CharClass::Lower, false, 'a'), None);
    assert_eq!(and_step(CharClass::Upper, true, 'A'), Some(true));
    assert_eq!(and_step(CharClass::Upper, true, 'a'), None);
    assert_eq!(and_step(CharClass::Nothing, true, 'a'), None);
}

#[test]
fn and_merge_is_the_conjunction() {
    assert_eq!(and_merge(true, true), Some(true));
    assert_eq!(and_merge(true, false), Some(false));
    assert_eq!(and_merge(false, true), Some(false));
    assert_eq!(and_merge(false, false), Some(false));
}
