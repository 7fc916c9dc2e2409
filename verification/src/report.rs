use crate::corpus::views_of;
use crate::strutil::push_char;
use crate::test_enums::problem_text;
use crate::test_result::{description_of, TestResult, TestResultV};
use vstd::prelude::*;
use vstd::string::StrSliceExecFns;
use vstd::string::StringExecFns;

verus! {

// ---------------------------------------------------------------------------
// What the presentation layer computes from the outcomes: folded diagnostic
// text, the cell describing a failure, the tallies of the summary table,
// and the readings of interactive answers. The rendering itself - tables,
// colors, prompts - belongs to the surrounding application.
// ---------------------------------------------------------------------------

/// Display folding of diagnostic text, starting from a run of `counter`
/// characters since the last break: a newline is inserted in front of
/// every two-hundredth character of a line.
pub open spec fn folded_from(s: Seq<char>, counter: int) -> Seq<char>
    decreases s.len(),
{
    if s.len() == 0 {
        Seq::empty()
    } else {
        let c = s[0];
        let n: int = if c == '\n' {
            1
        } else {
            counter + 1
        };
        let head: Seq<char> = if n % 200 == 0 {
            seq!['\n', c]
        } else {
            seq![c]
        };
        head + folded_from(s.drop_first(), n)
    }
}

/// Display folding of diagnostic text.
pub open spec fn folded(s: Seq<char>) -> Seq<char> {
    folded_from(s, 0)
}

/// Folds long diagnostic text for display: a newline is inserted in front
/// of every two-hundredth character of a line.
pub fn truncate(text: &str) -> (r: String)
    ensures
        r@ == folded(text@),
{
    let len = text.unicode_len();
    let mut result = String::new();
    let mut char_number: usize = 0;
    let mut i: usize = 0;
    proof {
        assert(text@.skip(0) =~= text@);
        assert(result@ + folded_from(text@, 0) =~= folded(text@));
    }
    while i < len
        invariant
            i <= len,
            len == text@.len(),
            char_number <= i,
            result@ + folded_from(text@.skip(i as int), char_number as int) == folded(text@),
        decreases len - i,
    {
        let ghost before = result@;
        let character = text.get_char(i);
        if character == '\n' {
            char_number = 1;
        } else {
            char_number = char_number + 1;
        }
        if char_number % 200 == 0 {
            push_char(&mut result, '\n');
            push_char(&mut result, character);
            proof {
                assert(result@ =~= before + seq!['\n', character]);
            }
        } else {
            push_char(&mut result, character);
            proof {
                assert(result@ =~= before + seq![character]);
            }
        }
        proof {
            assert(text@.skip(i as int)[0] == character);
            assert(text@.skip(i as int).drop_first() =~= text@.skip(i + 1));
            assert(result@ + folded_from(text@.skip(i + 1), char_number as int) =~= folded(
                text@,
            ));
        }
        i = i + 1;
    }
    proof {
        assert(text@.skip(len as int) =~= Seq::<char>::empty());
        assert(result@ =~= folded(text@));
    }
    result
}

/// The cell text reported for a failed unit: the headline of its problem,
/// a separator, and the full diagnostic folded for display.
pub fn failure_cell(result: &TestResult) -> (r: String)
    ensures
        r@ == description_of(result@.failed_cause) + ": \n"@ + folded(
            problem_text(result@.failed_cause),
        ),
{
    let mut description = result.get_problem_description();
    description.append(": \n");
    let problem_folded = truncate(result.get_problem());
    description.append(problem_folded.as_str());
    proof {
        assert(description@ =~= description_of(result@.failed_cause) + ": \n"@ + folded(
            problem_text(result@.failed_cause),
        ));
    }
    description
}

// ---------------------------------------------------------------------------
// The summary tallies.
// ---------------------------------------------------------------------------

/// A unit counted as passed.
pub open spec fn is_pass(t: TestResultV) -> bool {
    t.passed
}

/// A unit counted as failed on comparison.
pub open spec fn is_diff_fail(t: TestResultV) -> bool {
    !t.passed && t.failed_cause is Diff
}

/// A unit counted as failed on the memory check.
pub open spec fn is_valgrind_fail(t: TestResultV) -> bool {
    !t.passed && t.failed_cause is Valgrind
}

/// A unit counted as failed for any other reason.
pub open spec fn is_other_fail(t: TestResultV) -> bool {
    !t.passed && !(t.failed_cause is Diff) && !(t.failed_cause is Valgrind)
}

pub open spec fn count_passed(s: Seq<TestResultV>) -> int
    decreases s.len(),
{
    if s.len() == 0 {
        0
    } else {
        count_passed(s.drop_last()) + if is_pass(s.last()) {
            1int
        } else {
            0int
        }
    }
}

pub open spec fn count_diff_failed(s: Seq<TestResultV>) -> int
    decreases s.len(),
{
    if s.len() == 0 {
        0
    } else {
        count_diff_failed(s.drop_last()) + if is_diff_fail(s.last()) {
            1int
        } else {
            0int
        }
    }
}

pub open spec fn count_valgrind_failed(s: Seq<TestResultV>) -> int
    decreases s.len(),
{
    if s.len() == 0 {
        0
    } else {
        count_valgrind_failed(s.drop_last()) + if is_valgrind_fail(s.last()) {
            1int
        } else {
            0int
        }
    }
}

pub open spec fn count_other_failed(s: Seq<TestResultV>) -> int
    decreases s.len(),
{
    if s.len() == 0 {
        0
    } else {
        count_other_failed(s.drop_last()) + if is_other_fail(s.last()) {
            1int
        } else {
            0int
        }
    }
}

/// The tallies of one run: how many units passed, and how many failed on
/// comparison, on the memory check, or for any other reason.
pub struct Summary {
    pub passed: usize,
    pub valgrind_failed: usize,
    pub diff_failed: usize,
    pub other_failed: usize,
}

/// Tallies the outcomes of a run.
pub fn summarize(results: &Vec<TestResult>) -> (r: Summary)
    ensures
        r.passed == count_passed(views_of(results@)),
        r.diff_failed == count_diff_failed(views_of(results@)),
        r.valgrind_failed == count_valgrind_failed(views_of(results@)),
        r.other_failed == count_other_failed(views_of(results@)),
{
    let mut passed: usize = 0;
    let mut valgrind_failed: usize = 0;
    let mut diff_failed: usize = 0;
    let mut other_failed: usize = 0;
    let mut i: usize = 0;
    while i < results.len()
        invariant
            i <= results@.len(),
            passed == count_passed(views_of(results@).take(i as int)),
            diff_failed == count_diff_failed(views_of(results@).take(i as int)),
            valgrind_failed == count_valgrind_failed(views_of(results@).take(i as int)),
            other_failed == count_other_failed(views_of(results@).take(i as int)),
            passed <= i && diff_failed <= i && valgrind_failed <= i && other_failed <= i,
        decreases results@.len() - i,
    {
        let result = &results[i];
        if result.passed() {
            passed = passed + 1;
        } else if result.diff_error() {
            diff_failed = diff_failed + 1;
        } else if result.valgrind_error() {
            valgrind_failed = valgrind_failed + 1;
        } else {
            other_failed = other_failed + 1;
        }
        proof {
            let vs = views_of(results@);
            assert(vs.take(i + 1).drop_last() =~= vs.take(i as int));
            assert(vs.take(i + 1).last() == result@);
        }
        i = i + 1;
    }
    proof {
        assert(views_of(results@).take(results@.len() as int) =~= views_of(results@));
    }
    Summary { passed, valgrind_failed, diff_failed, other_failed }
}

/// Law: the four tallies classify every unit exactly once - together they
/// always add up to the whole corpus.
pub proof fn lemma_tallies_partition(s: Seq<TestResultV>)
    ensures
        count_passed(s) + count_diff_failed(s) + count_valgrind_failed(s) + count_other_failed(s)
            == s.len(),
    decreases s.len(),
{
    if s.len() > 0 {
        lemma_tallies_partition(s.drop_last());
    }
}

// ---------------------------------------------------------------------------
// Reading interactive answers.
// ---------------------------------------------------------------------------

/// `s` spells `word` with each character in either of the two given cases.
pub open spec fn matches_word_ci(s: Seq<char>, lower: Seq<char>, upper: Seq<char>) -> bool {
    s.len() == lower.len() && (forall|k: int|
        0 <= k < s.len() ==> (s[k] == lower[k] || s[k] == upper[k]))
}

fn matches_ci(s: &str, lower: &str, upper: &str) -> (r: bool)
    requires
        lower@.len() == upper@.len(),
    ensures
        r == matches_word_ci(s@, lower@, upper@),
{
    let s_len = s.unicode_len();
    if s_len != lower.unicode_len() {
        return false;
    }
    let mut k: usize = 0;
    while k < s_len
        invariant
            k <= s_len,
            s_len == s@.len(),
            s_len == lower@.len(),
            s_len == upper@.len(),
            forall|m: int| 0 <= m < k ==> (s@[m] == lower@[m] || s@[m] == upper@[m]),
        decreases s_len - k,
    {
        let c = s.get_char(k);
        if c != lower.get_char(k) && c != upper.get_char(k) {
            return false;
        }
        k = k + 1;
    }
    true
}

/// How a yes/no answer reads once lowercased: exactly the words `true`
/// and `false`, in any mixture of cases, are understood.
pub open spec fn spec_parse_bool(s: Seq<char>) -> Option<bool> {
    if matches_word_ci(s, "true"@, "TRUE"@) {
        Some(true)
    } else if matches_word_ci(s, "false"@, "FALSE"@) {
        Some(false)
    } else {
        None
    }
}

/// Reads a yes/no answer the way the interface understands it.
pub fn parse_bool(s: &str) -> (r: Option<bool>)
    ensures
        r == spec_parse_bool(s@),
{
    proof {
        reveal_strlit("true");
        reveal_strlit("TRUE");
        reveal_strlit("false");
        reveal_strlit("FALSE");
    }
    if matches_ci(s, "true", "TRUE") {
        Some(true)
    } else if matches_ci(s, "false", "FALSE") {
        Some(false)
    } else {
        None
    }
}

/// A decimal digit's value, or nothing.
pub open spec fn digit_value(c: char) -> Option<int> {
    if 48 <= c as int && c as int <= 57 {
        Some(c as int - 48)
    } else {
        None
    }
}

/// The number the digit characters spell in decimal.
pub open spec fn digits_value(s: Seq<char>) -> int
    decreases s.len(),
{
    if s.len() == 0 {
        0
    } else {
        digits_value(s.drop_last()) * 10 + match digit_value(s.last()) {
            Some(d) => d,
            None => 0,
        }
    }
}

/// All characters are decimal digits.
pub open spec fn all_digits(s: Seq<char>) -> bool {
    forall|k: int| 0 <= k < s.len() ==> digit_value(s[k]) is Some
}

/// How a menu number reads: an optional leading `+`, then at least one
/// decimal digit, spelling a value that fits the type.
pub open spec fn spec_parse_u8(s: Seq<char>) -> Option<u8> {
    let digits = if s.len() > 0 && s[0] == '+' {
        s.drop_first()
    } else {
        s
    };
    if digits.len() > 0 && all_digits(digits) && digits_value(digits) <= 255 {
        Some(digits_value(digits) as u8)
    } else {
        None
    }
}

/// A longer digit string spells at least as large a number.
proof fn lemma_digits_value_monotone(s: Seq<char>, i: int)
    requires
        0 <= i <= s.len(),
    ensures
        digits_value(s.take(i)) <= digits_value(s),
        digits_value(s) >= 0,
    decreases s.len() - i,
{
    if i == s.len() {
        assert(s.take(i) =~= s);
        lemma_digits_value_nonneg(s);
    } else {
        lemma_digits_value_monotone(s, i + 1);
        assert(s.take(i + 1).drop_last() =~= s.take(i));
        assert(s.take(i + 1).last() == s[i]);
        lemma_digits_value_nonneg(s.take(i));
    }
}

proof fn lemma_digits_value_nonneg(s: Seq<char>)
    ensures
        digits_value(s) >= 0,
    decreases s.len(),
{
    if s.len() > 0 {
        lemma_digits_value_nonneg(s.drop_last());
    }
}

fn parse_u8_digits(s: &str, start: usize) -> (r: Option<u8>)
    requires
        start as int <= s@.len(),
    ensures
        ({
            let digits = s@.skip(start as int);
            match r {
                Some(v) => digits.len() > 0 && all_digits(digits) && digits_value(digits)
                    == v as int,
                None => !(digits.len() > 0 && all_digits(digits) && digits_value(digits) <= 255),
            }
        }),
{
    let len = s.unicode_len();
    if start == len {
        return None;
    }
    let ghost digits = s@.skip(start as int);
    let mut value: usize = 0;
    let mut k: usize = start;
    while k < len
        invariant
            start <= k <= len,
            len == s@.len(),
            digits == s@.skip(start as int),
            all_digits(digits.take(k - start)),
            value == digits_value(digits.take(k - start)),
            value <= 255,
        decreases len - k,
    {
        let c = s.get_char(k);
        let code = c as u32;
        proof {
            assert(digits.take(k - start + 1).drop_last() =~= digits.take(k - start));
            assert(digits.take(k - start + 1).last() == s@[k as int]);
        }
        if code < 48 || code > 57 {
            proof {
                assert(digit_value(digits[k - start]) is None);
            }
            return None;
        }
        let d = (code - 48) as usize;
        let next = value * 10 + d;
        if next > 255 {
            proof {
                lemma_digits_value_monotone(digits, k - start + 1);
                assert(digits_value(digits) >= digits_value(digits.take(k - start + 1)));
            }
            return None;
        }
        value = next;
        k = k + 1;
    }
    proof {
        assert(digits.take(len - start) =~= digits);
    }
    Some(value as u8)
}

/// Reads a number the way the interface understands it.
pub fn parse_u8(s: &str) -> (r: Option<u8>)
    ensures
        r == spec_parse_u8(s@),
{
    let len = s.unicode_len();
    if len > 0 && s.get_char(0) == '+' {
        let r = parse_u8_digits(s, 1);
        proof {
            assert(s@.skip(1) =~= s@.drop_first());
        }
        r
    } else {
        let r = parse_u8_digits(s, 0);
        proof {
            assert(s@.skip(0) =~= s@);
        }
        r
    }
}

/// Reads a menu answer: the number it spells, provided that number names
/// one of the first `maximum_number` menu entries.
pub fn choose_option(input: &str, maximum_number: u8) -> (r: Option<u8>)
    ensures
        r == ({
            match spec_parse_u8(input@) {
                Some(v) => if 1 <= v && v <= maximum_number {
                    Some(v)
                } else {
                    None::<u8>
                },
                None => None::<u8>,
            }
        }),
{
    match parse_u8(input) {
        Some(v) => if 1 <= v && v <= maximum_number {
            Some(v)
        } else {
            None
        },
        None => None,
    }
}

} // verus!
