use rtest::machine::{next_action, plan_of, TestAction, TestPhase};
use rtest::settings::Options;

#[test]
fn default_configuration() {
    let options = Options::default();
    assert_eq!(options.get_test_path(), "testy/");
    assert_eq!(options.get_program_path(), "PLEASE, SET!");
    assert!(options.get_valgrind_activity());
    assert!(!options.get_stderr_option());
    assert_eq!(options.get_language(), "EN_en");
    assert!(!options.get_program_mode());
}

#[test]
fn flag_setters() {
    let mut options = Options::default();
    options.set_valgrind_activity(false);
    assert!(!options.get_valgrind_activity());
    options.set_stderr_usage(true);
    assert!(options.get_stderr_option());
    options.set_compilation_mode(true);
    assert!(options.get_program_mode());
    options.set_language("PL_pl");
    assert_eq!(options.get_language(), "PL_pl");
}

#[test]
fn path_setters_reject_missing_paths() {
    let mut options = Options::default();
    // Nothing plausible exists under this name; the setters must refuse it
    // and leave the configuration unchanged.
    let bogus = "/nonexistent_rtest_path_for_tests/xyz";
    assert!(!options.set_test_path(bogus));
    assert_eq!(options.get_test_path(), "testy/");
    assert!(!options.set_program_path(bogus));
    assert_eq!(options.get_program_path(), "PLEASE, SET!");
}

#[test]
fn rebuilding_from_fields_round_trips() {
    let options = Options::from_fields(
        "/corpus".to_string(),
        "/bin/subject".to_string(),
        false,
        true,
        "EN_en".to_string(),
        true,
    );
    assert_eq!(options.get_test_path(), "/corpus");
    assert_eq!(options.get_program_path(), "/bin/subject");
    assert!(!options.get_valgrind_activity());
    assert!(options.get_stderr_option());
    assert!(options.get_program_mode());
}

#[test]
fn plan_follows_configuration() {
    let mut options = Options::default();
    options.set_valgrind_activity(true);
    options.set_compilation_mode(true);
    options.set_stderr_usage(false);
    let plan = plan_of(&options);
    assert!(plan.compile && plan.memcheck && !plan.compare_stderr);
    assert_eq!(next_action(&plan, TestPhase::Start), TestAction::RunCompiler);
    assert_eq!(next_action(&plan, TestPhase::Compiled), TestAction::RunMemCheck);
    assert_eq!(next_action(&plan, TestPhase::CheckedStdout), TestAction::Finish);

    options.set_valgrind_activity(false);
    options.set_compilation_mode(false);
    options.set_stderr_usage(true);
    let plan = plan_of(&options);
    assert_eq!(next_action(&plan, TestPhase::Start), TestAction::RunSubject);
    assert_eq!(next_action(&plan, TestPhase::CheckedStdout), TestAction::CompareStderr);
}
