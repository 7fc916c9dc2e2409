use rtest::machine::{
    advance, conclude, next_action, run_passed, run_target, ExecutionPlan, TestAction, TestPhase,
};
use rtest::test_result::{TestResult, ToolOutcome, MEMCHECK_ERROR_EXIT};

fn feeder_plan(memcheck: bool, compare_stderr: bool) -> ExecutionPlan {
    ExecutionPlan { compile: false, memcheck, compare_stderr }
}

// Scenario: one unit with matching expected files, memory check disabled,
// the subject exits cleanly - the unit passes with exit code 0.
#[test]
fn passing_feeder_run() {
    let plan = feeder_plan(false, true);
    let mut tr = TestResult::new("/corpus/t1.in");

    let mut phase = TestPhase::Start;
    assert_eq!(next_action(&plan, phase), TestAction::RunSubject);
    let ok = tr.apply_run(ToolOutcome::Exited(0, "echoed".to_string(), String::new()));
    assert!(ok);
    phase = advance(&plan, phase, ok);

    assert_eq!(next_action(&plan, phase), TestAction::CompareStdout);
    let d = TestResult::classify_diff(ToolOutcome::Exited(0, String::new(), String::new()));
    let ok = tr.apply_stdout_diff(d);
    assert!(ok);
    phase = advance(&plan, phase, ok);

    assert_eq!(next_action(&plan, phase), TestAction::CompareStderr);
    let d = TestResult::classify_diff(ToolOutcome::Exited(0, String::new(), String::new()));
    let ok = tr.apply_stderr_diff(d);
    assert!(ok);
    phase = advance(&plan, phase, ok);

    assert_eq!(next_action(&plan, phase), TestAction::Finish);
    assert!(run_passed(phase));
    tr.finish(run_passed(phase), 17);

    assert!(tr.passed());
    assert_eq!(tr.get_exit_code(), 0);
    assert_eq!(tr.get_time(), 17);
    assert!(!tr.diff_error());
    assert!(!tr.valgrind_error());
}

// Scenario: the expected stdout differs - the unit fails with a comparison
// cause tagged stdout.
#[test]
fn failing_stdout_comparison() {
    let plan = feeder_plan(false, false);
    let mut tr = TestResult::new("/corpus/t1.in");

    let mut phase = TestPhase::Start;
    let ok = tr.apply_run(ToolOutcome::Exited(0, String::new(), String::new()));
    assert!(ok);
    phase = advance(&plan, phase, ok);

    let d = TestResult::classify_diff(ToolOutcome::Exited(
        1,
        "2c2\n< actual\n> expected".to_string(),
        String::new(),
    ));
    let ok = tr.apply_stdout_diff(d);
    assert!(!ok);
    phase = advance(&plan, phase, ok);
    assert_eq!(next_action(&plan, phase), TestAction::Finish);
    assert!(!run_passed(phase));
    tr.finish(run_passed(phase), 3);

    assert!(!tr.passed());
    assert!(tr.diff_error());
    assert_eq!(tr.get_problem_description(), "Diff ERROR: Difference (stdout)");
    assert_eq!(tr.get_problem(), "2c2\n< actual\n> expected");
}

// Scenario: the memory checker reports leaks - the unit fails with a
// memory-check cause and comparison is never attempted.
#[test]
fn failing_memory_check() {
    let plan = feeder_plan(true, true);
    let mut tr = TestResult::new("/corpus/t1.in");

    let mut phase = TestPhase::Start;
    assert_eq!(next_action(&plan, phase), TestAction::RunMemCheck);
    let ok = tr.apply_valgrind(ToolOutcome::Exited(
        MEMCHECK_ERROR_EXIT,
        String::new(),
        "definitely lost: 16 bytes".to_string(),
    ));
    assert!(!ok);
    phase = advance(&plan, phase, ok);

    // The machine is halted: the only thing left is to conclude.
    assert_eq!(phase, TestPhase::Halted);
    assert_eq!(next_action(&plan, phase), TestAction::Finish);
    tr.finish(run_passed(phase), 4);

    assert!(!tr.passed());
    assert!(tr.valgrind_error());
    assert!(!tr.diff_error());
    assert_eq!(tr.get_problem_description(), "Valgrind ERROR");
    assert_eq!(tr.get_problem(), "definitely lost: 16 bytes");
}

// Scenario: compiled mode and the source does not compile - the unit fails
// with a compilation cause; the unit is never run, nothing is compared.
#[test]
fn failing_compilation() {
    let plan = ExecutionPlan { compile: true, memcheck: true, compare_stderr: true };
    let mut tr = TestResult::new("/corpus/t1.c");

    let mut phase = TestPhase::Start;
    assert_eq!(next_action(&plan, phase), TestAction::RunCompiler);
    let ok = tr.apply_compilation(ToolOutcome::Exited(
        1,
        String::new(),
        "t1.c:3: error: expected ';'".to_string(),
    ));
    assert!(!ok);
    phase = advance(&plan, phase, ok);

    assert_eq!(phase, TestPhase::Halted);
    assert_eq!(next_action(&plan, phase), TestAction::Finish);
    tr.finish(run_passed(phase), 9);

    assert!(!tr.passed());
    assert_eq!(tr.get_problem_description(), "Compilation ERROR");
    assert_eq!(tr.get_problem(), "t1.c:3: error: expected ';'");
}

#[test]
fn compilation_warnings_do_not_fail() {
    let plan = ExecutionPlan { compile: true, memcheck: false, compare_stderr: false };
    let mut tr = TestResult::new("/corpus/t1.c");

    let mut phase = TestPhase::Start;
    let ok = tr.apply_compilation(ToolOutcome::Exited(
        0,
        String::new(),
        "t1.c:5: warning: unused variable".to_string(),
    ));
    assert!(ok);
    phase = advance(&plan, phase, ok);
    assert_eq!(phase, TestPhase::Compiled);
    assert_eq!(next_action(&plan, phase), TestAction::RunSubject);
}

#[test]
fn memcheck_passes_real_exit_code_through() {
    let mut tr = TestResult::new("/corpus/t1.in");
    let ok = tr.apply_valgrind(ToolOutcome::Exited(7, String::new(), String::new()));
    assert!(ok);
    assert_eq!(tr.get_exit_code(), 7);
    assert!(!tr.valgrind_error());
}

#[test]
fn spawn_failure_is_tool_invocation_failure() {
    let mut tr = TestResult::new("/corpus/t1.in");
    let ok = tr.apply_run(ToolOutcome::SpawnFailed("No such file or directory".to_string()));
    assert!(!ok);
    tr.finish(false, 1);
    assert!(!tr.passed());
    assert!(!tr.diff_error());
    assert!(!tr.valgrind_error());
    assert_eq!(tr.get_problem_description(), "PROGRAM INNER PROBLEM");
    assert_eq!(tr.get_problem(), "No such file or directory");
}

#[test]
fn unreadable_exit_codes() {
    let mut tr = TestResult::new("/corpus/t1.in");
    assert!(!tr.apply_run(ToolOutcome::NoExitCode));
    assert_eq!(tr.get_problem_description(), "SYSTEM: Program EXITCODE read failed!");

    let mut tr = TestResult::new("/corpus/t1.in");
    assert!(!tr.apply_valgrind(ToolOutcome::NoExitCode));
    assert_eq!(tr.get_problem_description(), "SYSTEM: Valgrind EXITCODE read failed!");

    let mut tr = TestResult::new("/corpus/t1.c");
    assert!(!tr.apply_compilation(ToolOutcome::NoExitCode));
    assert_eq!(tr.get_problem_description(), "SYSTEM: Gcc EXITCODE read failed!");
}

#[test]
fn diff_tool_trouble() {
    let mut tr = TestResult::new("/corpus/t1.in");
    let d = TestResult::classify_diff(ToolOutcome::Exited(
        2,
        String::new(),
        "diff: missing operand".to_string(),
    ));
    assert!(!tr.apply_stdout_diff(d));
    assert_eq!(tr.get_problem_description(), "Diff ERROR: Trouble");
    assert_eq!(tr.get_problem(), "diff: missing operand");
}

#[test]
fn stderr_difference_is_tagged_stderr() {
    let mut tr = TestResult::new("/corpus/t1.in");
    assert!(tr.apply_run(ToolOutcome::Exited(0, String::new(), String::new())));
    let d = TestResult::classify_diff(ToolOutcome::Exited(0, String::new(), String::new()));
    assert!(tr.apply_stdout_diff(d));
    let d = TestResult::classify_diff(ToolOutcome::Exited(
        1,
        "1c1\n< a\n> b".to_string(),
        String::new(),
    ));
    assert!(!tr.apply_stderr_diff(d));
    assert_eq!(tr.get_problem_description(), "Diff ERROR: Difference (stderr)");
    assert_eq!(tr.get_problem(), "1c1\n< a\n> b");
}

#[test]
fn run_target_follows_the_mode() {
    let compiled = ExecutionPlan { compile: true, memcheck: false, compare_stderr: false };
    let feeder = ExecutionPlan { compile: false, memcheck: false, compare_stderr: false };
    assert_eq!(run_target(&compiled, 4, "/bin/subject"), "./rtest_compilation4");
    assert_eq!(run_target(&feeder, 4, "/bin/subject"), "/bin/subject");
}

#[test]
fn conclude_records_the_machine_verdict() {
    let mut tr = TestResult::new("/corpus/t1.in");
    assert!(tr.apply_run(ToolOutcome::Exited(0, String::new(), String::new())));
    conclude(&mut tr, TestPhase::Complete, 11);
    assert!(tr.passed());
    assert_eq!(tr.get_time(), 11);

    let mut tr = TestResult::new("/corpus/t2.in");
    assert!(!tr.apply_run(ToolOutcome::SpawnFailed("gone".to_string())));
    conclude(&mut tr, TestPhase::Halted, 12);
    assert!(!tr.passed());
    assert_eq!(tr.get_time(), 12);
}

#[test]
fn fresh_outcome_state() {
    let tr = TestResult::new("/corpus/t1.in");
    assert!(!tr.passed());
    assert_eq!(tr.get_exit_code(), 5);
    assert_eq!(tr.get_time(), 0);
    assert!(tr.not_yet_failed());
    assert_eq!(tr.get_problem(), "");
}
