use vstd::prelude::*;

verus! {

// ---------------------------------------------------------------------------
// The failure taxonomy: what one invocation of the diff tool reported, and
// why a test unit failed. Each executable type has a ghost mirror holding
// the diagnostic text as a sequence of characters, so that contracts can
// speak about the contents of the diagnostics.
// ---------------------------------------------------------------------------

/// Mathematical image of a [`DiffResult`].
pub enum DiffResultV {
    Match,
    DifferenceNotSpecified(Seq<char>),
    DifferenceStderr(Seq<char>),
    DifferenceStdout(Seq<char>),
    Trouble(Seq<char>),
    InnerProblem(Seq<char>),
}

/// Outcome of comparing one captured stream against its expected file.
///
/// `Match` means the files agree. A difference is `DifferenceNotSpecified`
/// as it comes from the tool and is retagged with the stream it belongs to
/// before it is recorded. `Trouble` carries the tool's own error text when
/// it exited with a code that means neither match nor difference, and
/// `InnerProblem` carries the reason the tool could not be invoked or its
/// exit status could not be read.
pub enum DiffResult {
    Match,
    DifferenceNotSpecified(String),
    DifferenceStderr(String),
    DifferenceStdout(String),
    Trouble(String),
    InnerProblem(String),
}

impl View for DiffResult {
    type V = DiffResultV;

    open spec fn view(&self) -> DiffResultV {
        match self {
            DiffResult::Match => DiffResultV::Match,
            DiffResult::DifferenceNotSpecified(s) => DiffResultV::DifferenceNotSpecified(s@),
            DiffResult::DifferenceStderr(s) => DiffResultV::DifferenceStderr(s@),
            DiffResult::DifferenceStdout(s) => DiffResultV::DifferenceStdout(s@),
            DiffResult::Trouble(s) => DiffResultV::Trouble(s@),
            DiffResult::InnerProblem(s) => DiffResultV::InnerProblem(s@),
        }
    }
}

/// Mathematical image of a [`TestFail`].
pub enum TestFailV {
    Valgrind(Seq<char>),
    Diff(DiffResultV),
    InnerProblem(Seq<char>),
    Compilation(Seq<char>),
    ProgramExitCode,
    ValgrindExitCode,
    CompilationExitCode,
}

/// Why a test unit failed.
///
/// `Valgrind` carries the memory checker's report, `Diff` the comparison
/// outcome, `Compilation` the compiler's error text. `InnerProblem` means a
/// tool could not be invoked (the detail is the spawning error; a fresh,
/// not yet executed outcome carries an empty `InnerProblem`). The three
/// exit-code variants mean the named tool ran but its exit status could not
/// be read.
pub enum TestFail {
    Valgrind(String),
    Diff(DiffResult),
    InnerProblem(String),
    Compilation(String),
    ProgramExitCode,
    ValgrindExitCode,
    CompilationExitCode,
}

impl View for TestFail {
    type V = TestFailV;

    open spec fn view(&self) -> TestFailV {
        match self {
            TestFail::Valgrind(s) => TestFailV::Valgrind(s@),
            TestFail::Diff(d) => TestFailV::Diff(d@),
            TestFail::InnerProblem(s) => TestFailV::InnerProblem(s@),
            TestFail::Compilation(s) => TestFailV::Compilation(s@),
            TestFail::ProgramExitCode => TestFailV::ProgramExitCode,
            TestFail::ValgrindExitCode => TestFailV::ValgrindExitCode,
            TestFail::CompilationExitCode => TestFailV::CompilationExitCode,
        }
    }
}

/// The detail text carried by a comparison failure; the fixed fallback text
/// for the variants that are never recorded on a failed unit.
pub open spec fn diff_problem_text(d: DiffResultV) -> Seq<char> {
    match d {
        DiffResultV::DifferenceStderr(e) => e,
        DiffResultV::DifferenceStdout(e) => e,
        DiffResultV::InnerProblem(e) => e,
        DiffResultV::Trouble(e) => e,
        DiffResultV::Match => "UNDEFINED BEHAVIOUR OF GET_PROBLEM FUNCTION"@,
        DiffResultV::DifferenceNotSpecified(_) => "UNDEFINED BEHAVIOUR OF GET_PROBLEM FUNCTION"@,
    }
}

/// The detail text carried by a failure cause; empty for the exit-code
/// variants, which have nothing but their kind to report.
pub open spec fn problem_text(c: TestFailV) -> Seq<char> {
    match c {
        TestFailV::Valgrind(e) => e,
        TestFailV::InnerProblem(e) => e,
        TestFailV::Compilation(e) => e,
        TestFailV::Diff(d) => diff_problem_text(d),
        TestFailV::ProgramExitCode => ""@,
        TestFailV::ValgrindExitCode => ""@,
        TestFailV::CompilationExitCode => ""@,
    }
}

impl TestFail {
    /// The full diagnostic text of this failure cause.
    pub fn get_problem(&self) -> (r: &str)
        ensures
            r@ == problem_text(self@),
    {
        match self {
            TestFail::Valgrind(err) => err.as_str(),
            TestFail::InnerProblem(err) => err.as_str(),
            TestFail::Compilation(err) => err.as_str(),
            TestFail::Diff(diff_error) => match diff_error {
                DiffResult::DifferenceStderr(err) => err.as_str(),
                DiffResult::DifferenceStdout(err) => err.as_str(),
                DiffResult::InnerProblem(err) => err.as_str(),
                DiffResult::Trouble(err) => err.as_str(),
                _ => "UNDEFINED BEHAVIOUR OF GET_PROBLEM FUNCTION",
            },
            TestFail::ProgramExitCode => "",
            TestFail::ValgrindExitCode => "",
            TestFail::CompilationExitCode => "",
        }
    }
}

} // verus!
