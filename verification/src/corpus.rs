use crate::paths::path_extension_of;
use crate::paths::has_extension;
use crate::strutil::{
    dec_rep, lemma_dec_rep_injective, lemma_lex_le_total, lemma_lex_le_trans,
    lemma_lex_sorted_unique, lex_le, usize_to_string,
};
use crate::test_result::{
    eq_except_time, finished, fresh_outcome, run_machine, StepV, TestResult, TestResultV,
};
use vstd::prelude::*;
use vstd::string::StringExecFns;

verus! {

// ---------------------------------------------------------------------------
// The corpus: one unit per matching file, sorted by path. The application
// enumerates the directory and hands the entry paths in; everything the
// engine decides about them is verified here.
// ---------------------------------------------------------------------------

/// Whether the file at `path` is a feeder-mode test unit: its final path
/// segment carries exactly the extension `in`.
pub fn is_infile(path: &str) -> (r: bool)
    ensures
        r == (path_extension_of(path@) == Some("in"@)),
{
    has_extension(path, "in")
}

/// Whether the file at `path` is a compiled-mode test unit: its final path
/// segment carries exactly the extension `c`.
pub fn is_cfile(path: &str) -> (r: bool)
    ensures
        r == (path_extension_of(path@) == Some("c"@)),
{
    has_extension(path, "c")
}

/// The views of a sequence of units.
pub open spec fn views_of(s: Seq<TestResult>) -> Seq<TestResultV> {
    s.map_values(|t: TestResult| t@)
}

/// One fresh unit per entry path that carries the extension `ext`, in the
/// order the entries came.
pub open spec fn loaded_units(entries: Seq<Seq<char>>, ext: Seq<char>) -> Seq<TestResultV>
    decreases entries.len(),
{
    if entries.len() == 0 {
        Seq::empty()
    } else {
        let rest = loaded_units(entries.drop_last(), ext);
        if path_extension_of(entries.last()) == Some(ext) {
            rest.push(fresh_outcome(entries.last()))
        } else {
            rest
        }
    }
}

/// The views of the entry paths.
pub open spec fn path_views_of(entries: Seq<String>) -> Seq<Seq<char>> {
    entries.map_values(|p: String| p@)
}

fn load_with(entries: &Vec<String>, ext: &str) -> (r: Vec<TestResult>)
    ensures
        views_of(r@) == loaded_units(path_views_of(entries@), ext@),
{
    let mut r: Vec<TestResult> = Vec::new();
    let mut i: usize = 0;
    assert(views_of(r@) =~= loaded_units(path_views_of(entries@.take(0)), ext@));
    while i < entries.len()
        invariant
            i <= entries@.len(),
            views_of(r@) == loaded_units(path_views_of(entries@.take(i as int)), ext@),
        decreases entries@.len() - i,
    {
        let ghost prefix = entries@.take(i as int);
        let entry = &entries[i];
        if has_extension(entry.as_str(), ext) {
            r.push(TestResult::new(entry.as_str()));
        }
        proof {
            let next = entries@.take(i + 1);
            assert(next.drop_last() =~= prefix);
            assert(path_views_of(next).drop_last() =~= path_views_of(prefix));
            assert(path_views_of(next).last() == entries@[i as int]@);
            assert(views_of(r@) =~= loaded_units(path_views_of(next), ext@));
        }
        i = i + 1;
    }
    proof {
        assert(entries@.take(entries@.len() as int) =~= entries@);
    }
    r
}

/// One fresh unit per entry with the feeder extension, in entry order.
pub fn load(entries: &Vec<String>) -> (r: Vec<TestResult>)
    ensures
        views_of(r@) == loaded_units(path_views_of(entries@), "in"@),
{
    load_with(entries, "in")
}

/// One fresh unit per entry with the source extension, in entry order.
pub fn load_c(entries: &Vec<String>) -> (r: Vec<TestResult>)
    ensures
        views_of(r@) == loaded_units(path_views_of(entries@), "c"@),
{
    load_with(entries, "c")
}

// ---------------------------------------------------------------------------
// Corpus order.
// ---------------------------------------------------------------------------

/// The units are sorted by their paths.
pub open spec fn sorted_by_path(s: Seq<TestResultV>) -> bool {
    forall|i: int, j: int|
        0 <= i < j < s.len() ==> lex_le(s[i].test_path, s[j].test_path)
}

/// Sorts the corpus by unit path, so that run order — and with it each
/// unit's temp-file index — is deterministic on an unchanged corpus.
pub fn sort_by_path(list: &mut Vec<TestResult>)
    ensures
        sorted_by_path(views_of(final(list)@)),
        final(list)@.to_multiset() == old(list)@.to_multiset(),
        final(list)@.len() == old(list)@.len(),
{
    let ghost orig = list@;
    if list.len() <= 1 {
        return;
    }
    let mut i: usize = 1;
    while i < list.len()
        invariant
            1 <= i,
            i <= list@.len(),
            list@.len() == orig.len(),
            sorted_by_path(views_of(list@).take(i as int)),
            list@.to_multiset() == orig.to_multiset(),
        decreases list@.len() - i,
    {
        let ghost pre = list@;
        let x = list.remove(i);
        let ghost mid = list@;
        proof {
            vstd::seq_lib::to_multiset_remove(pre, i as int);
            assert(mid.to_multiset() == pre.to_multiset().remove(pre[i as int]));
        }
        let mut j: usize = 0;
        while j < i && list[j].path_le(&x)
            invariant
                j <= i,
                i < pre.len(),
                list@ == mid,
                mid == pre.remove(i as int),
                forall|k: int| 0 <= k < j ==> lex_le(views_of(mid)[k].test_path, x@.test_path),
            decreases i - j,
        {
            j = j + 1;
        }
        proof {
            assert(j < i ==> !lex_le(views_of(mid)[j as int].test_path, x@.test_path));
        }
        list.insert(j, x);
        proof {
            broadcast use vstd::multiset::group_multiset_axioms;

            let now = list@;
            assert(now == mid.insert(j as int, x));
            // The multiset is restored: the removed unit went back in.
            vstd::seq_lib::to_multiset_insert(mid, j as int, x);
            assert(now.to_multiset() == mid.to_multiset().insert(x));
            vstd::seq_lib::to_multiset_contains(pre, pre[i as int]);
            assert(pre.to_multiset().count(pre[i as int]) > 0);
            assert(now.to_multiset() =~= pre.to_multiset());
            // The sorted prefix grew by one.
            let vs = views_of(now);
            let old_vs = views_of(mid);
            assert forall|p: int, q: int| 0 <= p < q < i + 1 implies lex_le(
                vs[p].test_path,
                vs[q].test_path,
            ) by {
                assert(forall|k: int| 0 <= k < j ==> vs[k] == old_vs[k]);
                assert(vs[j as int] == x@);
                assert(forall|k: int| j < k <= i ==> vs[k] == old_vs[k - 1]);
                // Prefix entries of the old list were mutually sorted.
                assert(forall|a: int, b: int|
                    0 <= a < b < i ==> lex_le(old_vs[a].test_path, old_vs[b].test_path)) by {
                    assert(forall|k: int|
                        0 <= k < i ==> old_vs[k] == views_of(pre).take(i as int)[k]);
                }
                if q == j {
                    // p < j: at or before the insertion point, at most x.
                } else if p == j {
                    // x goes before the first prefix entry it does not follow.
                    if j < i {
                        lemma_lex_le_total(old_vs[j as int].test_path, x@.test_path);
                        if q - 1 > j {
                            lemma_lex_le_trans(
                                x@.test_path,
                                old_vs[j as int].test_path,
                                old_vs[q - 1].test_path,
                            );
                        }
                    }
                } else if p < j && q > j {
                    if j < i {
                        lemma_lex_le_total(old_vs[j as int].test_path, x@.test_path);
                        lemma_lex_le_trans(
                            vs[p].test_path,
                            x@.test_path,
                            old_vs[j as int].test_path,
                        );
                        if q - 1 > j {
                            lemma_lex_le_trans(
                                vs[p].test_path,
                                old_vs[j as int].test_path,
                                old_vs[q - 1].test_path,
                            );
                        }
                    }
                }
            }
            assert(sorted_by_path(views_of(now).take(i + 1)));
        }
        i = i + 1;
    }
    proof {
        if list@.len() >= 1 {
            assert(views_of(list@).take(i as int) =~= views_of(list@));
        }
    }
}

/// Law: executing the units in place never reorders the corpus. Whatever
/// each unit's state machine wrote into its own slot, the paths stayed,
/// so a corpus sorted before fan-out is sorted when the outcomes come
/// back, whatever order the workers finished in.
pub proof fn lemma_order_survives_runs(before: Seq<TestResultV>, after: Seq<TestResultV>)
    requires
        before.len() == after.len(),
        forall|k: int| 0 <= k < after.len() ==> after[k].test_path == before[k].test_path,
        sorted_by_path(before),
    ensures
        sorted_by_path(after),
{
}

/// The paths of the units, in order.
pub open spec fn paths_of(s: Seq<TestResultV>) -> Seq<Seq<char>> {
    s.map_values(|t: TestResultV| t.test_path)
}

/// Law: a corpus has only one sorted order - two path-sorted arrangements
/// of the same units carry the same path at every position.
pub proof fn lemma_sorted_order_unique(a: Seq<TestResultV>, b: Seq<TestResultV>)
    requires
        sorted_by_path(a),
        sorted_by_path(b),
        paths_of(a).to_multiset() == paths_of(b).to_multiset(),
    ensures
        a.len() == b.len(),
        forall|k: int| 0 <= k < a.len() ==> a[k].test_path == b[k].test_path,
{
    assert forall|i: int, j: int|
        0 <= i < j < paths_of(a).len() implies lex_le(paths_of(a)[i], paths_of(a)[j]) by {
        assert(paths_of(a)[i] == a[i].test_path && paths_of(a)[j] == a[j].test_path);
    }
    assert forall|i: int, j: int|
        0 <= i < j < paths_of(b).len() implies lex_le(paths_of(b)[i], paths_of(b)[j]) by {
        assert(paths_of(b)[i] == b[i].test_path && paths_of(b)[j] == b[j].test_path);
    }
    lemma_lex_sorted_unique(paths_of(a), paths_of(b));
    assert forall|k: int| 0 <= k < a.len() implies a[k].test_path == b[k].test_path by {
        assert(paths_of(a)[k] == paths_of(b)[k]);
    }
}

/// Law: rerunning an unchanged corpus yields element-wise equal outcomes
/// apart from timing. Both loads sort the same units into the same
/// positions; each unit starts fresh at its path; and its concluded
/// record is a function of its path and the events its tools produced,
/// never of when or how fast the workers ran.
pub proof fn lemma_corpus_rerun_elementwise(
    a: Seq<TestResultV>,
    b: Seq<TestResultV>,
    scripts: Seq<Seq<StepV>>,
    verdicts: Seq<bool>,
    first_times: Seq<u64>,
    second_times: Seq<u64>,
)
    requires
        sorted_by_path(a),
        sorted_by_path(b),
        paths_of(a).to_multiset() == paths_of(b).to_multiset(),
        forall|k: int| 0 <= k < a.len() ==> a[k] == fresh_outcome(a[k].test_path),
        forall|k: int| 0 <= k < b.len() ==> b[k] == fresh_outcome(b[k].test_path),
    ensures
        a.len() == b.len(),
        forall|k: int|
            0 <= k < a.len() ==> eq_except_time(
                finished(run_machine(a[k], scripts[k]), verdicts[k], first_times[k]),
                finished(run_machine(b[k], scripts[k]), verdicts[k], second_times[k]),
            ),
{
    lemma_sorted_order_unique(a, b);
    assert forall|k: int|
        0 <= k < a.len() implies eq_except_time(
        finished(run_machine(a[k], scripts[k]), verdicts[k], first_times[k]),
        finished(run_machine(b[k], scripts[k]), verdicts[k], second_times[k]),
    ) by {
        assert(a[k] == b[k]);
    }
}

// ---------------------------------------------------------------------------
// Temp-file names, namespaced by the unit's position in the sorted corpus.
// ---------------------------------------------------------------------------

/// Name of the file that captures a unit's standard output.
pub open spec fn stdout_temp_of(index: nat) -> Seq<char> {
    "rtest_stdout"@ + dec_rep(index)
}

/// Name of the file that captures a unit's standard error.
pub open spec fn stderr_temp_of(index: nat) -> Seq<char> {
    "rtest_stderr"@ + dec_rep(index)
}

/// Name of the executable the compile step produces.
pub open spec fn compilation_temp_of(index: nat) -> Seq<char> {
    "rtest_compilation"@ + dec_rep(index)
}

/// Name of the file that captures the standard output of the unit at
/// `index`.
pub fn stdout_temp_name(index: usize) -> (r: String)
    ensures
        r@ == stdout_temp_of(index as nat),
{
    let mut r = "rtest_stdout".to_owned();
    let digits = usize_to_string(index);
    r.append(digits.as_str());
    r
}

/// Name of the file that captures the standard error of the unit at
/// `index`.
pub fn stderr_temp_name(index: usize) -> (r: String)
    ensures
        r@ == stderr_temp_of(index as nat),
{
    let mut r = "rtest_stderr".to_owned();
    let digits = usize_to_string(index);
    r.append(digits.as_str());
    r
}

/// Name of the executable the compile step produces for the unit at
/// `index`.
pub fn compilation_temp_name(index: usize) -> (r: String)
    ensures
        r@ == compilation_temp_of(index as nat),
{
    let mut r = "rtest_compilation".to_owned();
    let digits = usize_to_string(index);
    r.append(digits.as_str());
    r
}

/// Path under which the freshly compiled unit at `index` is invoked.
pub fn compiled_run_path(index: usize) -> (r: String)
    ensures
        r@ == "./"@ + compilation_temp_of(index as nat),
{
    let mut r = "./".to_owned();
    let name = compilation_temp_name(index);
    r.append(name.as_str());
    proof {
        assert(r@ =~= "./"@ + compilation_temp_of(index as nat));
    }
    r
}

/// Law: units at different positions never collide on a temp file, so
/// concurrently running units need no coordination over them.
pub proof fn lemma_temp_names_distinct(i: nat, j: nat)
    requires
        i != j,
    ensures
        stdout_temp_of(i) != stdout_temp_of(j),
        stderr_temp_of(i) != stderr_temp_of(j),
        compilation_temp_of(i) != compilation_temp_of(j),
{
    reveal_strlit("rtest_stdout");
    reveal_strlit("rtest_stderr");
    reveal_strlit("rtest_compilation");
    assert(stdout_temp_of(i).skip(12) =~= dec_rep(i));
    assert(stdout_temp_of(j).skip(12) =~= dec_rep(j));
    assert(stderr_temp_of(i).skip(12) =~= dec_rep(i));
    assert(stderr_temp_of(j).skip(12) =~= dec_rep(j));
    assert(compilation_temp_of(i).skip(17) =~= dec_rep(i));
    assert(compilation_temp_of(j).skip(17) =~= dec_rep(j));
    if dec_rep(i) == dec_rep(j) {
        lemma_dec_rep_injective(i, j);
    }
}

} // verus!
