//! Labeled words to run the predicates on.
//!
//! A test set holds nine short words and six words of a chosen size, each with
//! the verdict that a predicate is expected to give on it.

use crate::rule::{is_lower, is_upper, run, valid_capital_use};
use crate::schedule::schedule;
use crate::trusted::random_index;
use vstd::prelude::*;
use vstd::string::StringExecFns;

verus! {

/// A word together with the verdict that a predicate is expected to give.
#[derive(Debug, PartialEq, Eq)]
pub struct Test {
    /// The word.
    pub string: String,
    /// Whether the word is expected to be found valid.
    pub expected: bool,
}

impl View for Test {
    type V = (Seq<char>, bool);

    open spec fn view(&self) -> (Seq<char>, bool) {
        (self.string@, self.expected)
    }
}

impl Test {
    /// Runs `function` on the word and tells whether it gave the expected
    /// verdict. Whether a wrong verdict is fatal is left to the caller.
    pub fn passes<F: Fn(&str) -> bool>(&self, function: F) -> (ok: bool)
        requires
            forall|word: &str| word@ == self.string@ ==> call_requires(function, (word,)),
        ensures
            exists|word: &str, verdict: bool|
                word@ == self.string@ && call_ensures(function, (word,), verdict) && ok == (verdict
                    == self.expected),
    {
        let verdict = function(self.string.as_str());
        verdict == self.expected
    }
}

/// Appends `count` copies of the one-character string `unit` to `s`.
fn push_run(s: &mut String, unit: &str, count: usize)
    requires
        unit@.len() == 1,
    ensures
        final(s)@ == old(s)@ + run(unit@[0], count as nat),
{
    let mut done: usize = 0;
    while done < count
        invariant
            done <= count,
            unit@.len() == 1,
            s@ == old(s)@ + run(unit@[0], done as nat),
        decreases count - done,
    {
        s.append(unit);
        done += 1;
    }
}

/// The views of a sequence of tests.
pub open spec fn views(tests: Seq<Test>) -> Seq<(Seq<char>, bool)> {
    tests.map_values(|t: Test| t@)
}

/// The labeled words for words of `size` characters, the last of which has
/// its capital at index `pivot`.
pub open spec fn test_set(size: nat, pivot: nat) -> Seq<(Seq<char>, bool)> {
    seq![
        ("USA"@, true),
        ("FlaG"@, false),
        ("Leetcode"@, true),
        ("leetcode"@, true),
        ("LEETCODE"@, true),
        ("LeetCode"@, false),
        ("uSA"@, false),
        ("A"@, true),
        ("a"@, true),
        (run('A', size), true),
        (run('a', size), true),
        (seq!['A'] + run('a', (size - 1) as nat), true),
        (run('A', size / 2) + run('a', size / 2), false),
        (run('a', (size - 1) as nat) + seq!['Z'], false),
        (run('o', pivot) + seq!['O'] + run('o', (size - pivot - 1) as nat), false),
    ]
}

/// The test `t` expects the verdict that the rule gives.
pub open spec fn agrees(t: (Seq<char>, bool)) -> bool {
    valid_capital_use(t.0) == t.1
}

/// Every test of the set for `size` and `pivot` expects the verdict that the
/// rule gives, unless the set is built for a size below four or with the
/// capital of the last word in front.
///
/// For a size of two or three the word of capitals followed by lowercase
/// letters is `Aa`, which is valid though labeled invalid. With the pivot at
/// zero the last word is a capital followed by lowercase letters, which is
/// valid though labeled invalid.
pub proof fn lemma_test_set_agrees(size: nat, pivot: nat)
    requires
        size >= 2,
        pivot < size,
    ensures
        (forall|i: int| 0 <= i < 15 ==> agrees(#[trigger] test_set(size, pivot)[i])) <==> (size >= 4
            && pivot >= 1),
{
    let set = test_set(size, pivot);
    reveal_strlit("USA");
    reveal_strlit("FlaG");
    reveal_strlit("Leetcode");
    reveal_strlit("leetcode");
    reveal_strlit("LEETCODE");
    reveal_strlit("LeetCode");
    reveal_strlit("uSA");
    reveal_strlit("A");
    reveal_strlit("a");
    assert(agrees(set[1])) by {
        assert(!is_lower(set[1].0[3]));
        assert(!is_upper(set[1].0[1]));
    }
    assert(agrees(set[5])) by {
        assert(!is_lower(set[5].0[4]));
        assert(!is_upper(set[5].0[1]));
    }
    assert(agrees(set[6])) by {
        assert(!is_lower(set[6].0[1]));
        assert(!is_upper(set[6].0[0]));
    }
    assert(agrees(set[13])) by {
        assert(!is_lower(set[13].0[size - 1]));
        assert(!is_upper(set[13].0[0]));
    }
    if size >= 4 {
        assert(agrees(set[12])) by {
            assert(!is_lower(set[12].0[1]));
            assert(!is_upper(set[12].0[(size / 2) as int]));
        }
    } else {
        assert(!agrees(set[12])) by {
            assert(set[12].0.len() == 2);
            assert(is_lower(set[12].0[1]));
        }
    }
    if pivot >= 1 {
        assert(agrees(set[14])) by {
            assert(!is_lower(set[14].0[pivot as int]));
            assert(!is_upper(set[14].0[0]));
        }
    } else {
        assert(!agrees(set[14]));
    }
}

/// Every test of a set that is built for a size of the schedule, with the
/// capital of the last word anywhere but in front, expects the verdict that
/// the rule gives.
pub proof fn lemma_scheduled_set_agrees(step: int, pivot: nat)
    requires
        0 <= step < schedule().len(),
        1 <= pivot < schedule()[step],
    ensures
        forall|i: int| 0 <= i < 15 ==> agrees(#[trigger] test_set(schedule()[step] as nat, pivot)[i]),
{
    lemma_test_set_agrees(schedule()[step] as nat, pivot);
}

/// Builds the test set for words of `size` characters, with the capital of
/// the last word at index `pivot`.
///
/// Each of the large words is written into a buffer that is reserved once,
/// at its full length.
pub fn create_set_with_pivot(size: usize, pivot: usize) -> (tests: Vec<Test>)
    requires
        2 <= size <= isize::MAX,
        pivot < size,
    ensures
        tests.len() == 15,
        views(tests@) == test_set(size as nat, pivot as nat),
{
    proof {
        reveal_strlit("A");
        reveal_strlit("a");
        reveal_strlit("Z");
        reveal_strlit("O");
        reveal_strlit("o");
    }
    let mut big_uppercase = String::with_capacity(size);
    push_run(&mut big_uppercase, "A", size);

    let mut big_lowercase = String::with_capacity(size);
    push_run(&mut big_lowercase, "a", size);

    let mut big_first_cap = String::with_capacity(size);
    big_first_cap.append("A");
    push_run(&mut big_first_cap, "a", size - 1);

    let mut big_incorrect = String::with_capacity(size);
    push_run(&mut big_incorrect, "A", size / 2);
    push_run(&mut big_incorrect, "a", size / 2);

    let mut almost_all_lowercase = String::with_capacity(size);
    push_run(&mut almost_all_lowercase, "a", size - 1);
    almost_all_lowercase.append("Z");

    let mut random_incorrect = String::with_capacity(size);
    push_run(&mut random_incorrect, "o", pivot);
    random_incorrect.append("O");
    push_run(&mut random_incorrect, "o", size - pivot - 1);

    let tests = vec![
        Test { string: "USA".to_owned(), expected: true },
        Test { string: "FlaG".to_owned(), expected: false },
        Test { string: "Leetcode".to_owned(), expected: true },
        Test { string: "leetcode".to_owned(), expected: true },
        Test { string: "LEETCODE".to_owned(), expected: true },
        Test { string: "LeetCode".to_owned(), expected: false },
        Test { string: "uSA".to_owned(), expected: false },
        Test { string: "A".to_owned(), expected: true },
        Test { string: "a".to_owned(), expected: true },
        Test { string: big_uppercase, expected: true },
        Test { string: big_lowercase, expected: true },
        Test { string: big_first_cap, expected: true },
        Test { string: big_incorrect, expected: false },
        Test { string: almost_all_lowercase, expected: false },
        Test { string: random_incorrect, expected: false },
    ];
    proof {
        let expected = test_set(size as nat, pivot as nat);
        assert(tests@.len() == 15);
        assert(tests@[9]@.0 =~= expected[9].0);
        assert(tests@[10]@.0 =~= expected[10].0);
        assert(tests@[11]@.0 =~= expected[11].0);
        assert(tests@[12]@.0 =~= expected[12].0);
        assert(tests@[13]@.0 =~= expected[13].0);
        assert(tests@[14]@.0 =~= expected[14].0);
        assert(views(tests@) =~= expected);
    }
    tests
}

/// Builds the test set for words of `size` characters, with the capital of
/// the last word at an index drawn at random.
pub fn create_set(size: usize) -> (tests: Vec<Test>)
    requires
        2 <= size <= isize::MAX,
    ensures
        tests.len() == 15,
        exists|pivot: nat| pivot < size && views(tests@) == #[trigger] test_set(size as nat, pivot),
{
    let pivot = random_index(size);
    create_set_with_pivot(size, pivot)
}

} // verus!
