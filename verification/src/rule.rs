//! The capitalization rule and the per-character tests it is built from.
//!
//! A word is a sequence of characters. Only the ASCII letters count as
//! letters: every other character is neither uppercase nor lowercase.

use vstd::prelude::*;

verus! {

/// `c` is one of the ASCII lowercase letters `'a'..='z'`.
pub open spec fn is_lower(c: char) -> bool {
    'a' <= c <= 'z'
}

/// `c` is one of the ASCII uppercase letters `'A'..='Z'`.
pub open spec fn is_upper(c: char) -> bool {
    'A' <= c <= 'Z'
}

/// A word uses capitals validly when it is a single character, or all
/// characters after the first are lowercase, or all characters are uppercase.
pub open spec fn valid_capital_use(word: Seq<char>) -> bool {
    ||| word.len() == 1
    ||| forall|i: int| 1 <= i < word.len() ==> is_lower(#[trigger] word[i])
    ||| forall|i: int| 0 <= i < word.len() ==> is_upper(#[trigger] word[i])
}

/// The word made of `count` copies of `c`.
pub open spec fn run(c: char, count: nat) -> Seq<char> {
    Seq::new(count, |i: int| c)
}

/// Every word of a single character is valid.
pub proof fn lemma_single_character_valid(word: Seq<char>)
    requires
        word.len() == 1,
    ensures
        valid_capital_use(word),
{
}

/// A word of lowercase `a`s is valid, whatever its length.
pub proof fn lemma_all_lowercase_valid(n: nat)
    requires
        n >= 1,
    ensures
        valid_capital_use(run('a', n)),
{
}

/// A word of uppercase `A`s is valid, whatever its length.
pub proof fn lemma_all_uppercase_valid(n: nat)
    requires
        n >= 1,
    ensures
        valid_capital_use(run('A', n)),
{
}

/// A capital `A` followed by lowercase `a`s is valid: `n` is the length of
/// the whole word.
pub proof fn lemma_capital_then_lowercase_valid(n: nat)
    requires
        n >= 1,
    ensures
        valid_capital_use(seq!['A'] + run('a', (n - 1) as nat)),
{
}

/// Two or more capital `A`s followed by one or more lowercase `a`s are not
/// valid.
pub proof fn lemma_capitals_then_lowercase_invalid(k: nat, m: nat)
    requires
        k >= 2,
        m >= 1,
    ensures
        !valid_capital_use(run('A', k) + run('a', m)),
{
    let word = run('A', k) + run('a', m);
    assert(!is_lower(word[1]));
    assert(!is_upper(word[k as int]));
}

/// A character other than an ASCII letter anywhere after the first makes a
/// word invalid.
pub proof fn lemma_non_letter_after_first_invalid(word: Seq<char>, at: int)
    requires
        1 <= at < word.len(),
        !is_lower(word[at]),
        !is_upper(word[at]),
    ensures
        !valid_capital_use(word),
{
}

/// The test that every character after the first two has to pass, chosen by
/// looking at the first two characters only.
#[derive(Clone, Copy, Debug, PartialEq, Eq, Structural)]
pub enum CharClass {
    /// Every remaining character has to be lowercase.
    Lower,
    /// Every remaining character has to be uppercase.
    Upper,
    /// No character passes: the first two already break the rule.
    Nothing,
}

impl CharClass {
    /// `c` passes the test of this class.
    pub open spec fn holds(self, c: char) -> bool {
        match self {
            CharClass::Lower => is_lower(c),
            CharClass::Upper => is_upper(c),
            CharClass::Nothing => false,
        }
    }

    /// Every character of `s` passes the test of this class.
    pub open spec fn holds_for_all(self, s: Seq<char>) -> bool {
        forall|i: int| 0 <= i < s.len() ==> self.holds(#[trigger] s[i])
    }

    /// Tests one character against this class.
    pub fn accepts(self, c: char) -> (passes: bool)
        ensures
            passes == self.holds(c),
    {
        match self {
            CharClass::Lower => 'a' <= c && c <= 'z',
            CharClass::Upper => 'A' <= c && c <= 'Z',
            CharClass::Nothing => false,
        }
    }
}

/// The class that two leading characters select. A missing character
/// selects like one that is no letter.
pub open spec fn leading_class(first: Option<char>, second: Option<char>) -> CharClass {
    if second is Some && is_lower(second->0) {
        CharClass::Lower
    } else if first is Some && is_upper(first->0) && second is Some && is_upper(second->0) {
        CharClass::Upper
    } else {
        CharClass::Nothing
    }
}

/// The first character of `word`, if it has one.
pub open spec fn first_char(word: Seq<char>) -> Option<char> {
    if word.len() >= 1 {
        Some(word[0])
    } else {
        None
    }
}

/// The second character of `word`, if it has one.
pub open spec fn second_char(word: Seq<char>) -> Option<char> {
    if word.len() >= 2 {
        Some(word[1])
    } else {
        None
    }
}

/// The class that the first two characters of `word` select.
pub open spec fn class_of(word: Seq<char>) -> CharClass {
    leading_class(first_char(word), second_char(word))
}

/// What follows the first two characters of `word`.
pub open spec fn rest_of(word: Seq<char>) -> Seq<char> {
    if word.len() >= 2 {
        word.skip(2)
    } else {
        Seq::empty()
    }
}

/// Chooses the class for the rest of a word from its first two characters.
pub fn classify(first: Option<char>, second: Option<char>) -> (class: CharClass)
    ensures
        class == leading_class(first, second),
{
    match (first, second) {
        (_, Some('a'..='z')) => CharClass::Lower,
        (Some('A'..='Z'), Some('A'..='Z')) => CharClass::Upper,
        (_, _) => CharClass::Nothing,
    }
}

/// The rule, read off the first two characters: a word is valid exactly when
/// it has fewer than two characters, or its first two characters select a
/// class other than `Nothing` and every later character passes that class.
pub proof fn lemma_rule_by_class(word: Seq<char>)
    ensures
        valid_capital_use(word) <==> word.len() < 2 || (class_of(word) != CharClass::Nothing
            && class_of(word).holds_for_all(rest_of(word))),
{
    if word.len() >= 2 {
        let class = class_of(word);
        let rest = rest_of(word);
        // From the rule to the class: the second character tells which of
        // the two clauses holds, and the rest inherits it.
        if valid_capital_use(word) {
            assert(is_lower(word[1]) || (is_upper(word[0]) && is_upper(word[1])));
            assert forall|i: int| 0 <= i < rest.len() implies class.holds(#[trigger] rest[i]) by {
                assert(rest[i] == word[i + 2]);
            }
        }
        // From the class to the rule: what holds of the rest holds of the
        // word from its third character on.
        if class != CharClass::Nothing && class.holds_for_all(rest) {
            assert forall|i: int| 2 <= i < word.len() implies class.holds(#[trigger] word[i]) by {
                assert(class.holds(rest[i - 2]));
            }
        }
    }
}

/// From three characters on the class alone decides: `Nothing` fails on the
/// third character.
pub proof fn lemma_rule_by_class_long(word: Seq<char>)
    requires
        word.len() >= 3,
    ensures
        valid_capital_use(word) <==> class_of(word).holds_for_all(rest_of(word)),
{
    lemma_rule_by_class(word);
    if class_of(word) == CharClass::Nothing {
        assert(!class_of(word).holds(rest_of(word)[0]));
    }
}

} // verus!
