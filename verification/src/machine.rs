use crate::corpus::{compilation_temp_of, compiled_run_path};
use crate::settings::Options;
use crate::test_result::{finished, pending, TestResult};
use vstd::prelude::*;

verus! {

// ---------------------------------------------------------------------------
// The fixed sequence of the per-test state machine: an optional compile
// step, then one run (under the memory checker or not), then comparison of
// standard output and, when enabled, of standard error. Any failed step
// halts the machine; the remaining actions are never taken.
//
// The engine decides, the application acts: given the plan and the phase a
// unit is in, `next_action` names the external tool to invoke next (or
// tells the application to conclude), and `advance` moves the phase once
// the step's success or failure is known.
// ---------------------------------------------------------------------------

/// The strategy chosen once, before fan-out, as a pure function of the run
/// configuration: whether units are compiled first, whether they run under
/// the memory checker, and whether captured standard error is compared.
#[derive(Clone, Copy, PartialEq, Eq, Structural)]
pub struct ExecutionPlan {
    pub compile: bool,
    pub memcheck: bool,
    pub compare_stderr: bool,
}

/// Reads the strategy off the run configuration.
pub fn plan_of(settings: &Options) -> (r: ExecutionPlan)
    ensures
        r.compile == settings@.use_compilation_mode,
        r.memcheck == settings@.is_valgrind_active,
        r.compare_stderr == settings@.use_stderr_tests,
{
    ExecutionPlan {
        compile: settings.get_program_mode(),
        memcheck: settings.get_valgrind_activity(),
        compare_stderr: settings.get_stderr_option(),
    }
}

/// How far a unit's state machine has come.
#[derive(Clone, Copy, PartialEq, Eq, Structural, Debug)]
pub enum TestPhase {
    /// Nothing has run yet.
    Start,
    /// The compile step succeeded.
    Compiled,
    /// The run (plain or under the memory checker) succeeded.
    Executed,
    /// Captured standard output matched its expected file.
    CheckedStdout,
    /// Captured standard error matched its expected file as well.
    Complete,
    /// Some step failed; no further tool is invoked.
    Halted,
}

/// The next thing the application must do for a unit.
#[derive(Clone, Copy, PartialEq, Eq, Structural, Debug)]
pub enum TestAction {
    RunCompiler,
    RunMemCheck,
    RunSubject,
    CompareStdout,
    CompareStderr,
    Finish,
}

/// The action owed in a phase, under a plan.
pub open spec fn spec_next_action(plan: ExecutionPlan, phase: TestPhase) -> TestAction {
    match phase {
        TestPhase::Start => if plan.compile {
            TestAction::RunCompiler
        } else if plan.memcheck {
            TestAction::RunMemCheck
        } else {
            TestAction::RunSubject
        },
        TestPhase::Compiled => if plan.memcheck {
            TestAction::RunMemCheck
        } else {
            TestAction::RunSubject
        },
        TestPhase::Executed => TestAction::CompareStdout,
        TestPhase::CheckedStdout => if plan.compare_stderr {
            TestAction::CompareStderr
        } else {
            TestAction::Finish
        },
        TestPhase::Complete => TestAction::Finish,
        TestPhase::Halted => TestAction::Finish,
    }
}

/// The phase after performing the owed action with the given success.
pub open spec fn spec_advance(plan: ExecutionPlan, phase: TestPhase, step_ok: bool) -> TestPhase {
    if !step_ok {
        TestPhase::Halted
    } else {
        match phase {
            TestPhase::Start => if plan.compile {
                TestPhase::Compiled
            } else {
                TestPhase::Executed
            },
            TestPhase::Compiled => TestPhase::Executed,
            TestPhase::Executed => TestPhase::CheckedStdout,
            TestPhase::CheckedStdout => TestPhase::Complete,
            TestPhase::Complete => TestPhase::Complete,
            TestPhase::Halted => TestPhase::Halted,
        }
    }
}

/// Whether a machine that is owed `Finish` concluded with every step
/// successful.
pub open spec fn spec_run_passed(phase: TestPhase) -> bool {
    !(phase is Halted)
}

/// The action owed in a phase, under a plan.
pub fn next_action(plan: &ExecutionPlan, phase: TestPhase) -> (r: TestAction)
    ensures
        r == spec_next_action(*plan, phase),
{
    match phase {
        TestPhase::Start => if plan.compile {
            TestAction::RunCompiler
        } else if plan.memcheck {
            TestAction::RunMemCheck
        } else {
            TestAction::RunSubject
        },
        TestPhase::Compiled => if plan.memcheck {
            TestAction::RunMemCheck
        } else {
            TestAction::RunSubject
        },
        TestPhase::Executed => TestAction::CompareStdout,
        TestPhase::CheckedStdout => if plan.compare_stderr {
            TestAction::CompareStderr
        } else {
            TestAction::Finish
        },
        TestPhase::Complete => TestAction::Finish,
        TestPhase::Halted => TestAction::Finish,
    }
}

/// The phase after performing the owed action with the given success.
pub fn advance(plan: &ExecutionPlan, phase: TestPhase, step_ok: bool) -> (r: TestPhase)
    ensures
        r == spec_advance(*plan, phase, step_ok),
{
    if !step_ok {
        TestPhase::Halted
    } else {
        match phase {
            TestPhase::Start => if plan.compile {
                TestPhase::Compiled
            } else {
                TestPhase::Executed
            },
            TestPhase::Compiled => TestPhase::Executed,
            TestPhase::Executed => TestPhase::CheckedStdout,
            TestPhase::CheckedStdout => TestPhase::Complete,
            TestPhase::Complete => TestPhase::Complete,
            TestPhase::Halted => TestPhase::Halted,
        }
    }
}

/// Whether a machine that is owed `Finish` concluded with every step
/// successful.
pub fn run_passed(phase: TestPhase) -> (r: bool)
    ensures
        r == spec_run_passed(phase),
{
    !matches!(phase, TestPhase::Halted)
}

/// The executable a run action launches: the unit's fresh compilation
/// artifact in compiled mode, the configured subject program otherwise.
pub fn run_target(plan: &ExecutionPlan, index: usize, program: &str) -> (r: String)
    ensures
        plan.compile ==> r@ == "./"@ + compilation_temp_of(index as nat),
        !plan.compile ==> r@ == program@,
{
    if plan.compile {
        compiled_run_path(index)
    } else {
        program.to_owned()
    }
}

/// Concludes a unit once the machine owes `Finish`: the unit passed
/// exactly when the machine was not halted and the record corroborates
/// that no step failed; the elapsed time is recorded either way.
pub fn conclude(frame: &mut TestResult, phase: TestPhase, elapsed_millis: u64)
    ensures
        final(frame)@ == finished(
            old(frame)@,
            spec_run_passed(phase) && pending(old(frame)@),
            elapsed_millis,
        ),
{
    let all_ok = run_passed(phase) && frame.not_yet_failed();
    frame.finish(all_ok, elapsed_millis);
}

/// Law: one failed step halts the machine, and a halted machine is only
/// ever concluded — a compile failure never runs the unit, and a failed
/// run or memory check never reaches comparison.
pub proof fn lemma_failure_short_circuits(plan: ExecutionPlan, phase: TestPhase)
    ensures
        spec_advance(plan, phase, false) == TestPhase::Halted,
        spec_next_action(plan, TestPhase::Halted) == TestAction::Finish,
        !spec_run_passed(spec_advance(plan, phase, false)),
{
}

/// Law: the machine reads the plan but the plan never changes mid-run; a
/// machine that advances with every step successful reaches `Finish` owed
/// in a passing phase.
pub proof fn lemma_all_ok_run_passes(plan: ExecutionPlan, phase: TestPhase)
    ensures
        spec_run_passed(phase) ==> spec_run_passed(spec_advance(plan, phase, true)),
{
}

} // verus!
