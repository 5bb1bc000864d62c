//! What holds of whole families of words, tried on members of each family.

use detect_capital::Variant;

/// Runs every variant on `word` and compares its verdict with `expected`.
fn expect(word: &str, expected: bool) {
    for variant in Variant::all() {
        assert_eq!(variant.detect(word), expected, "{} on {:?}", variant.label(), word);
    }
}

const LENGTHS: [usize; 12] = [1, 2, 3, 4, 10, 999, 1000, 1001, 1023, 1024, 2500, 65_536];

#[test]
fn single_characters_are_valid() {
    for code in 0u8..128 {
        expect(&char::from(code).to_string(), true);
    }
    for c in ['\u{e9}', '\u{df}', '\u{3a9}', '\u{4e2d}', '\u{1f600}'] {
        expect(&c.to_string(), true);
    }
}

#[test]
fn lowercase_words_are_valid_at_every_length() {
    for n in LENGTHS {
        expect(&"a".repeat(n), true);
    }
}

#[test]
fn uppercase_words_are_valid_at_every_length() {
    for n in LENGTHS {
        expect(&"A".repeat(n), true);
    }
}

#[test]
fn capital_then_lowercase_is_valid_at_every_length() {
    for n in LENGTHS {
        expect(&format!("A{}", "a".repeat(n - 1)), true);
    }
}

#[test]
fn two_or_more_capitals_then_lowercase_are_invalid() {
    for k in [2usize, 3, 500, 998, 999, 1000, 4000] {
        for m in [1usize, 2, 500, 998, 1000, 4000] {
            expect(&format!("{}{}", "A".repeat(k), "a".repeat(m)), false);
        }
    }
}

#[test]
fn one_capital_then_lowercase_is_the_valid_neighbour() {
    for m in [1usize, 2, 998, 999, 1000] {
        expect(&format!("A{}", "a".repeat(m)), true);
    }
}
