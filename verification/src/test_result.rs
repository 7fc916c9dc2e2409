use crate::paths::{
    base_name_of, base_name_string, core_of, core_string, stderr_file_of, stdout_file_of,
};
use crate::strutil::{lex_le, str_le};
use crate::test_enums::{problem_text, DiffResult, DiffResultV, TestFail, TestFailV};
use vstd::prelude::*;
use vstd::string::StringExecFns;

verus! {

/// Exit code recorded on a fresh outcome, before any run has completed.
pub const INITIAL_EXIT_CODE: i32 = 5;

/// Exit code reserved for the memory checker: it is configured to exit with
/// this value exactly when it detected memory errors, so the engine can
/// tell a memory-check failure from any real exit code of the subject.
pub const MEMCHECK_ERROR_EXIT: i32 = -573;

// ---------------------------------------------------------------------------
// What the application observed of one external tool invocation.
// ---------------------------------------------------------------------------

/// Mathematical image of a [`ToolOutcome`].
pub enum ToolOutcomeV {
    SpawnFailed(Seq<char>),
    NoExitCode,
    Exited(i32, Seq<char>, Seq<char>),
}

/// What happened when the application invoked one external tool on behalf
/// of the engine: the process could not be spawned (with the error text),
/// it ended but its exit status could not be read, or it exited with the
/// given code after producing the given standard output and standard error.
pub enum ToolOutcome {
    SpawnFailed(String),
    NoExitCode,
    Exited(i32, String, String),
}

impl View for ToolOutcome {
    type V = ToolOutcomeV;

    open spec fn view(&self) -> ToolOutcomeV {
        match self {
            ToolOutcome::SpawnFailed(e) => ToolOutcomeV::SpawnFailed(e@),
            ToolOutcome::NoExitCode => ToolOutcomeV::NoExitCode,
            ToolOutcome::Exited(code, out, err) => ToolOutcomeV::Exited(*code, out@, err@),
        }
    }
}

// ---------------------------------------------------------------------------
// The per-unit outcome record.
// ---------------------------------------------------------------------------

/// Mathematical image of a [`TestResult`].
pub struct TestResultV {
    pub test_path: Seq<char>,
    pub passed: bool,
    pub time_millis: u64,
    pub failed_cause: TestFailV,
    pub return_code: i32,
    pub compilation_warnings: Option<Seq<char>>,
}

/// One test unit together with its recorded outcome: the path of the
/// unit's input (or source) file, whether it passed, the elapsed wall time
/// in milliseconds, the failure cause (an empty inner problem until a
/// failure is recorded), the subject's exit code, and the compiler's
/// warning text in compiled mode.
pub struct TestResult {
    test_path: String,
    passed: bool,
    time_millis: u64,
    failed_cause: TestFail,
    return_code: i32,
    compilation_warnings: Option<String>,
}

impl View for TestResult {
    type V = TestResultV;

    closed spec fn view(&self) -> TestResultV {
        TestResultV {
            test_path: self.test_path@,
            passed: self.passed,
            time_millis: self.time_millis,
            failed_cause: self.failed_cause@,
            return_code: self.return_code,
            compilation_warnings: match &self.compilation_warnings {
                Some(w) => Some(w@),
                None => None,
            },
        }
    }
}

/// The record a unit carries before its state machine has run.
pub open spec fn fresh_outcome(path: Seq<char>) -> TestResultV {
    TestResultV {
        test_path: path,
        passed: false,
        time_millis: 0,
        failed_cause: TestFailV::InnerProblem(Seq::<char>::empty()),
        return_code: INITIAL_EXIT_CODE,
        compilation_warnings: None,
    }
}

/// A record on which no step has failed yet (and which has not passed):
/// exactly the records the machine may still conclude as passed.
pub open spec fn pending(s: TestResultV) -> bool {
    &&& !s.passed
    &&& s.failed_cause == TestFailV::InnerProblem(Seq::<char>::empty())
}

/// A record never claims a pass while carrying a failure cause.
pub open spec fn wf_outcome(s: TestResultV) -> bool {
    s.passed ==> s.failed_cause == TestFailV::InnerProblem(Seq::<char>::empty())
}

// ---------------------------------------------------------------------------
// The transitions of the per-test state machine, as functions from the old
// record and the observed event to the new record.
// ---------------------------------------------------------------------------

/// Effect of a plain run of the subject program: a spawn failure or an
/// unreadable exit status is a tool-invocation failure; otherwise the exit
/// code is recorded and the run counts as done.
pub open spec fn run_step(s: TestResultV, e: ToolOutcomeV) -> TestResultV {
    match e {
        ToolOutcomeV::SpawnFailed(msg) => TestResultV {
            failed_cause: TestFailV::InnerProblem(msg),
            ..s
        },
        ToolOutcomeV::NoExitCode => TestResultV { failed_cause: TestFailV::ProgramExitCode, ..s },
        ToolOutcomeV::Exited(code, _, _) => TestResultV { return_code: code, ..s },
    }
}

/// Whether a plain run may proceed to comparison.
pub open spec fn run_step_ok(e: ToolOutcomeV) -> bool {
    e is Exited
}

/// Effect of a run under the memory checker: on the reserved exit code the
/// captured standard error becomes the memory-check failure; on any other
/// exit code that code is the subject's own and the run proceeds.
pub open spec fn valgrind_step(s: TestResultV, e: ToolOutcomeV) -> TestResultV {
    match e {
        ToolOutcomeV::SpawnFailed(msg) => TestResultV {
            failed_cause: TestFailV::InnerProblem(msg),
            ..s
        },
        ToolOutcomeV::NoExitCode => TestResultV { failed_cause: TestFailV::ValgrindExitCode, ..s },
        ToolOutcomeV::Exited(code, _, err) => if code == MEMCHECK_ERROR_EXIT {
            TestResultV { failed_cause: TestFailV::Valgrind(err), ..s }
        } else {
            TestResultV { return_code: code, ..s }
        },
    }
}

/// Whether a run under the memory checker may proceed to comparison.
pub open spec fn valgrind_step_ok(e: ToolOutcomeV) -> bool {
    match e {
        ToolOutcomeV::Exited(code, _, _) => code != MEMCHECK_ERROR_EXIT,
        _ => false,
    }
}

/// Effect of the compile step: a zero exit keeps the compiler's standard
/// error as non-fatal warnings; any other exit records it as the
/// compilation failure.
pub open spec fn compile_step(s: TestResultV, e: ToolOutcomeV) -> TestResultV {
    match e {
        ToolOutcomeV::SpawnFailed(msg) => TestResultV {
            failed_cause: TestFailV::InnerProblem(msg),
            ..s
        },
        ToolOutcomeV::NoExitCode => TestResultV {
            failed_cause: TestFailV::CompilationExitCode,
            ..s
        },
        ToolOutcomeV::Exited(code, _, err) => if code == 0 {
            TestResultV { compilation_warnings: Some(err), ..s }
        } else {
            TestResultV { failed_cause: TestFailV::Compilation(err), ..s }
        },
    }
}

/// Whether compilation succeeded and the unit may be run.
pub open spec fn compile_step_ok(e: ToolOutcomeV) -> bool {
    match e {
        ToolOutcomeV::Exited(code, _, _) => code == 0,
        _ => false,
    }
}

/// How one invocation of the diff tool reads: exit code 0 is a match, 1 a
/// textual difference carrying the tool's standard output, any other code
/// the tool's own trouble; an unspawnable tool or an unreadable exit
/// status is an invocation problem.
pub open spec fn diff_class(e: ToolOutcomeV) -> DiffResultV {
    match e {
        ToolOutcomeV::SpawnFailed(msg) => DiffResultV::InnerProblem(msg),
        ToolOutcomeV::NoExitCode => DiffResultV::InnerProblem(
            "ERROR: Reading exitcode of diff FAILED."@,
        ),
        ToolOutcomeV::Exited(code, out, err) => if code == 0 {
            DiffResultV::Match
        } else if code == 1 {
            DiffResultV::DifferenceNotSpecified(out)
        } else {
            DiffResultV::Trouble(err)
        },
    }
}

/// Effect of comparing captured standard output: a difference is retagged
/// as a standard-output difference; any other non-match is recorded as it
/// came.
pub open spec fn stdout_diff_step(s: TestResultV, d: DiffResultV) -> TestResultV {
    match d {
        DiffResultV::Match => s,
        DiffResultV::DifferenceNotSpecified(e) => TestResultV {
            failed_cause: TestFailV::Diff(DiffResultV::DifferenceStdout(e)),
            ..s
        },
        other => TestResultV { failed_cause: TestFailV::Diff(other), ..s },
    }
}

/// Effect of comparing captured standard error: a difference is retagged
/// as a standard-error difference; any other non-match is recorded as it
/// came.
pub open spec fn stderr_diff_step(s: TestResultV, d: DiffResultV) -> TestResultV {
    match d {
        DiffResultV::Match => s,
        DiffResultV::DifferenceNotSpecified(e) => TestResultV {
            failed_cause: TestFailV::Diff(DiffResultV::DifferenceStderr(e)),
            ..s
        },
        other => TestResultV { failed_cause: TestFailV::Diff(other), ..s },
    }
}

/// Whether a comparison found a match.
pub open spec fn diff_step_ok(d: DiffResultV) -> bool {
    d is Match
}

/// Effect of concluding the machine: the pass flag and the elapsed time
/// are recorded, everything else stays.
pub open spec fn finished(s: TestResultV, all_ok: bool, elapsed_millis: u64) -> TestResultV {
    TestResultV { passed: all_ok, time_millis: elapsed_millis, ..s }
}

impl TestResult {
    /// A fresh unit for the input file at `path`, in the not-yet-run state.
    pub fn new(path: &str) -> (r: TestResult)
        ensures
            r@ == fresh_outcome(path@),
    {
        TestResult {
            test_path: path.to_owned(),
            passed: false,
            time_millis: 0,
            failed_cause: TestFail::InnerProblem(String::new()),
            return_code: INITIAL_EXIT_CODE,
            compilation_warnings: None,
        }
    }

    /// The exit code the subject program returned (the initial sentinel
    /// before any run has completed).
    pub fn get_exit_code(&self) -> (r: i32)
        ensures
            r == self@.return_code,
    {
        self.return_code
    }

    /// Whether the recorded failure is a memory-check failure.
    /// It is meaningful only on a unit that has been executed.
    pub fn valgrind_error(&self) -> (r: bool)
        ensures
            r == (self@.failed_cause is Valgrind),
    {
        matches!(&self.failed_cause, TestFail::Valgrind(_))
    }

    /// Whether the recorded failure is a comparison failure.
    /// It is meaningful only on a unit that has been executed.
    pub fn diff_error(&self) -> (r: bool)
        ensures
            r == (self@.failed_cause is Diff),
    {
        matches!(&self.failed_cause, TestFail::Diff(_))
    }

    /// Whether the unit passed.
    /// It is meaningful only on a unit that has been executed.
    pub fn passed(&self) -> (r: bool)
        ensures
            r == self@.passed,
    {
        self.passed
    }

    /// Elapsed wall time of the unit's execution, in milliseconds.
    pub fn get_time(&self) -> (r: u64)
        ensures
            r == self@.time_millis,
    {
        self.time_millis
    }

    /// Whether no step has failed (and no pass has been recorded) yet.
    pub fn not_yet_failed(&self) -> (r: bool)
        ensures
            r == pending(self@),
    {
        if self.passed {
            return false;
        }
        match &self.failed_cause {
            TestFail::InnerProblem(msg) => {
                let empty = msg.as_str().is_empty();
                proof {
                    if empty {
                        assert(msg@ =~= Seq::<char>::empty());
                    }
                }
                empty
            },
            _ => false,
        }
    }

    /// The unit's path without its extension: the directory part kept
    /// whole, the final segment cut at its first `.`.
    fn get_core(&self) -> (r: String)
        ensures
            r@ == core_of(self@.test_path),
    {
        core_string(self.test_path.as_str())
    }

    /// Path of the expected-stdout file: the core of the unit's path
    /// followed by `.out`.
    pub fn get_stdout_file(&self) -> (r: String)
        ensures
            r@ == stdout_file_of(self@.test_path),
    {
        let mut r = self.get_core();
        r.append(".out");
        r
    }

    /// Path of the expected-stderr file: the core of the unit's path
    /// followed by `.err`.
    pub fn get_stderr_file(&self) -> (r: String)
        ensures
            r@ == stderr_file_of(self@.test_path),
    {
        let mut r = self.get_core();
        r.append(".err");
        r
    }

    /// The unit's file name: the final segment of its path.
    pub fn get_name(&self) -> (r: String)
        ensures
            r@ == base_name_of(self@.test_path),
    {
        base_name_string(self.test_path.as_str())
    }

    /// Path of the unit's input (or source) file, as the loader recorded it.
    pub fn get_test_path(&self) -> (r: &str)
        ensures
            r@ == self@.test_path,
    {
        self.test_path.as_str()
    }

    /// Whether this unit sorts at or before `other` in corpus order.
    pub fn path_le(&self, other: &TestResult) -> (r: bool)
        ensures
            r == lex_le(self@.test_path, other@.test_path),
    {
        str_le(self.test_path.as_str(), other.test_path.as_str())
    }

    /// Records what a plain run of the subject program observed, and
    /// reports whether the machine may proceed to comparison.
    pub fn apply_run(&mut self, outcome: ToolOutcome) -> (r: bool)
        ensures
            final(self)@ == run_step(old(self)@, outcome@),
            r == run_step_ok(outcome@),
    {
        match outcome {
            ToolOutcome::SpawnFailed(msg) => {
                self.failed_cause = TestFail::InnerProblem(msg);
                false
            },
            ToolOutcome::NoExitCode => {
                self.failed_cause = TestFail::ProgramExitCode;
                false
            },
            ToolOutcome::Exited(code, _, _) => {
                self.return_code = code;
                true
            },
        }
    }

    /// Records what a run under the memory checker observed, and reports
    /// whether the machine may proceed to comparison.
    pub fn apply_valgrind(&mut self, outcome: ToolOutcome) -> (r: bool)
        ensures
            final(self)@ == valgrind_step(old(self)@, outcome@),
            r == valgrind_step_ok(outcome@),
    {
        match outcome {
            ToolOutcome::SpawnFailed(msg) => {
                self.failed_cause = TestFail::InnerProblem(msg);
                false
            },
            ToolOutcome::NoExitCode => {
                self.failed_cause = TestFail::ValgrindExitCode;
                false
            },
            ToolOutcome::Exited(code, _, err) => {
                if code == MEMCHECK_ERROR_EXIT {
                    self.failed_cause = TestFail::Valgrind(err);
                    false
                } else {
                    self.return_code = code;
                    true
                }
            },
        }
    }

    /// Records what the compile step observed, and reports whether the
    /// machine may proceed to running the unit.
    pub fn apply_compilation(&mut self, outcome: ToolOutcome) -> (r: bool)
        ensures
            final(self)@ == compile_step(old(self)@, outcome@),
            r == compile_step_ok(outcome@),
    {
        match outcome {
            ToolOutcome::SpawnFailed(msg) => {
                self.failed_cause = TestFail::InnerProblem(msg);
                false
            },
            ToolOutcome::NoExitCode => {
                self.failed_cause = TestFail::CompilationExitCode;
                false
            },
            ToolOutcome::Exited(code, _, err) => {
                if code == 0 {
                    self.compilation_warnings = Some(err);
                    true
                } else {
                    self.failed_cause = TestFail::Compilation(err);
                    false
                }
            },
        }
    }

    /// Reads one invocation of the diff tool into a comparison outcome.
    pub fn classify_diff(outcome: ToolOutcome) -> (r: DiffResult)
        ensures
            r@ == diff_class(outcome@),
    {
        match outcome {
            ToolOutcome::SpawnFailed(msg) => DiffResult::InnerProblem(msg),
            ToolOutcome::NoExitCode => DiffResult::InnerProblem(
                "ERROR: Reading exitcode of diff FAILED.".to_owned(),
            ),
            ToolOutcome::Exited(code, out, err) => {
                if code == 0 {
                    DiffResult::Match
                } else if code == 1 {
                    DiffResult::DifferenceNotSpecified(out)
                } else {
                    DiffResult::Trouble(err)
                }
            },
        }
    }

    /// Records the comparison of captured standard output, and reports
    /// whether it matched.
    pub fn apply_stdout_diff(&mut self, d: DiffResult) -> (r: bool)
        ensures
            final(self)@ == stdout_diff_step(old(self)@, d@),
            r == diff_step_ok(d@),
    {
        match d {
            DiffResult::Match => true,
            DiffResult::DifferenceNotSpecified(e) => {
                self.failed_cause = TestFail::Diff(DiffResult::DifferenceStdout(e));
                false
            },
            other => {
                self.failed_cause = TestFail::Diff(other);
                false
            },
        }
    }

    /// Records the comparison of captured standard error, and reports
    /// whether it matched.
    pub fn apply_stderr_diff(&mut self, d: DiffResult) -> (r: bool)
        ensures
            final(self)@ == stderr_diff_step(old(self)@, d@),
            r == diff_step_ok(d@),
    {
        match d {
            DiffResult::Match => true,
            DiffResult::DifferenceNotSpecified(e) => {
                self.failed_cause = TestFail::Diff(DiffResult::DifferenceStderr(e));
                false
            },
            other => {
                self.failed_cause = TestFail::Diff(other);
                false
            },
        }
    }

    /// Concludes the unit's state machine: records whether every step
    /// succeeded and how long the whole run took. A pass may only be
    /// recorded on a unit on which no step has failed.
    pub fn finish(&mut self, all_ok: bool, elapsed_millis: u64)
        requires
            all_ok ==> pending(old(self)@),
        ensures
            final(self)@ == finished(old(self)@, all_ok, elapsed_millis),
    {
        self.passed = all_ok;
        self.time_millis = elapsed_millis;
    }

    /// The headline of the recorded problem, naming the step that failed
    /// and, for a comparison failure, the stream that differed.
    pub fn get_problem_description(&self) -> (r: String)
        ensures
            r@ == description_of(self@.failed_cause),
    {
        match &self.failed_cause {
            TestFail::ProgramExitCode => "SYSTEM: Program EXITCODE read failed!".to_owned(),
            TestFail::ValgrindExitCode => "SYSTEM: Valgrind EXITCODE read failed!".to_owned(),
            TestFail::CompilationExitCode => "SYSTEM: Gcc EXITCODE read failed!".to_owned(),
            TestFail::Valgrind(_) => "Valgrind ERROR".to_owned(),
            TestFail::Compilation(_) => "Compilation ERROR".to_owned(),
            TestFail::Diff(diff_error) => match diff_error {
                DiffResult::DifferenceNotSpecified(_) => "Diff ERROR: Difference (not specified)"
                    .to_owned(),
                DiffResult::DifferenceStderr(_) => "Diff ERROR: Difference (stderr)".to_owned(),
                DiffResult::DifferenceStdout(_) => "Diff ERROR: Difference (stdout)".to_owned(),
                DiffResult::InnerProblem(_) => "Diff ERROR: InnerProblem".to_owned(),
                DiffResult::Trouble(_) => "Diff ERROR: Trouble".to_owned(),
                DiffResult::Match => "PROGRAM UNDEFINED DIFF ERROR".to_owned(),
            },
            TestFail::InnerProblem(_) => "PROGRAM INNER PROBLEM".to_owned(),
        }
    }

    /// The full diagnostic text of the recorded problem.
    pub fn get_problem(&self) -> (r: &str)
        ensures
            r@ == problem_text(self@.failed_cause),
    {
        self.failed_cause.get_problem()
    }
}

/// The headline for a comparison failure, naming the stream that differed
/// or the way the tool itself went wrong.
pub open spec fn diff_description_of(d: DiffResultV) -> Seq<char> {
    match d {
        DiffResultV::DifferenceNotSpecified(_) => "Diff ERROR: Difference (not specified)"@,
        DiffResultV::DifferenceStderr(_) => "Diff ERROR: Difference (stderr)"@,
        DiffResultV::DifferenceStdout(_) => "Diff ERROR: Difference (stdout)"@,
        DiffResultV::InnerProblem(_) => "Diff ERROR: InnerProblem"@,
        DiffResultV::Trouble(_) => "Diff ERROR: Trouble"@,
        DiffResultV::Match => "PROGRAM UNDEFINED DIFF ERROR"@,
    }
}

/// The headline of a failure cause.
pub open spec fn description_of(c: TestFailV) -> Seq<char> {
    match c {
        TestFailV::ProgramExitCode => "SYSTEM: Program EXITCODE read failed!"@,
        TestFailV::ValgrindExitCode => "SYSTEM: Valgrind EXITCODE read failed!"@,
        TestFailV::CompilationExitCode => "SYSTEM: Gcc EXITCODE read failed!"@,
        TestFailV::Valgrind(_) => "Valgrind ERROR"@,
        TestFailV::Compilation(_) => "Compilation ERROR"@,
        TestFailV::Diff(d) => diff_description_of(d),
        TestFailV::InnerProblem(_) => "PROGRAM INNER PROBLEM"@,
    }
}

// ---------------------------------------------------------------------------
// Laws of the per-test state machine as a whole: a run is a fold of steps
// over a fresh record, concluded once.
// ---------------------------------------------------------------------------

/// One observed event of a unit's state machine.
pub enum StepV {
    CompileRun(ToolOutcomeV),
    SubjectRun(ToolOutcomeV),
    MemCheckRun(ToolOutcomeV),
    StdoutCompared(DiffResultV),
    StderrCompared(DiffResultV),
}

/// Effect of one observed event on the record.
pub open spec fn machine_step(s: TestResultV, st: StepV) -> TestResultV {
    match st {
        StepV::CompileRun(e) => compile_step(s, e),
        StepV::SubjectRun(e) => run_step(s, e),
        StepV::MemCheckRun(e) => valgrind_step(s, e),
        StepV::StdoutCompared(d) => stdout_diff_step(s, d),
        StepV::StderrCompared(d) => stderr_diff_step(s, d),
    }
}

/// Effect of a whole sequence of observed events.
pub open spec fn run_machine(s: TestResultV, steps: Seq<StepV>) -> TestResultV
    decreases steps.len(),
{
    if steps.len() == 0 {
        s
    } else {
        run_machine(machine_step(s, steps[0]), steps.drop_first())
    }
}

/// Law: the adapter steps never decide a pass, never touch the unit's
/// identity, and never touch its timing. Only the conclusion does.
pub proof fn lemma_steps_preserve_identity(s: TestResultV, steps: Seq<StepV>)
    ensures
        run_machine(s, steps).test_path == s.test_path,
        run_machine(s, steps).time_millis == s.time_millis,
        run_machine(s, steps).passed == s.passed,
    decreases steps.len(),
{
    if steps.len() > 0 {
        lemma_steps_preserve_identity(machine_step(s, steps[0]), steps.drop_first());
    }
}

/// Law: a concluded record claims a pass only when no failure cause is
/// attached; when it failed, the single recorded cause stands.
pub proof fn lemma_passed_has_no_cause(s: TestResultV, all_ok: bool, elapsed_millis: u64)
    requires
        all_ok ==> pending(s),
    ensures
        wf_outcome(finished(s, all_ok, elapsed_millis)),
        !all_ok ==> finished(s, all_ok, elapsed_millis).failed_cause == s.failed_cause,
{
}

/// Agreement in every recorded field but the timing.
pub open spec fn eq_except_time(x: TestResultV, y: TestResultV) -> bool {
    &&& x.test_path == y.test_path
    &&& x.passed == y.passed
    &&& x.failed_cause == y.failed_cause
    &&& x.return_code == y.return_code
    &&& x.compilation_warnings == y.compilation_warnings
}

/// Law: a unit rerun over the same observed tool events reproduces its
/// outcome, field for field, apart from the recorded timing.
pub proof fn lemma_rerun_reproduces_outcome(
    path: Seq<char>,
    steps: Seq<StepV>,
    all_ok: bool,
    t1: u64,
    t2: u64,
)
    ensures
        eq_except_time(
            finished(run_machine(fresh_outcome(path), steps), all_ok, t1),
            finished(run_machine(fresh_outcome(path), steps), all_ok, t2),
        ),
{
}

} // verus!
