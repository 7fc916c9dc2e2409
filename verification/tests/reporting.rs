use rtest::report::{choose_option, failure_cell, parse_bool, parse_u8, summarize, truncate};
use rtest::test_result::{TestResult, ToolOutcome, MEMCHECK_ERROR_EXIT};

#[test]
fn truncate_folds_every_two_hundredth_character() {
    let long = "x".repeat(405);
    let folded = truncate(&long);
    // A newline is inserted before characters 200 and 400.
    let expected = format!("{}\n{}\n{}", "x".repeat(199), "x".repeat(200), "x".repeat(6));
    assert_eq!(folded, expected);
}

#[test]
fn truncate_keeps_short_text() {
    assert_eq!(truncate("short line"), "short line");
    assert_eq!(truncate(""), "");
}

#[test]
fn truncate_resets_at_newlines() {
    let text = format!("{}\n{}", "a".repeat(150), "b".repeat(150));
    assert_eq!(truncate(&text), text);
}

#[test]
fn failure_cell_holds_headline_and_folded_detail() {
    let mut tr = TestResult::new("/c/t1.in");
    let d = TestResult::classify_diff(ToolOutcome::Exited(
        1,
        "1c1\n< a\n> b".to_string(),
        String::new(),
    ));
    assert!(!tr.apply_stdout_diff(d));
    let cell = failure_cell(&tr);
    assert_eq!(cell, "Diff ERROR: Difference (stdout): \n1c1\n< a\n> b");
}

#[test]
fn summary_tallies_each_unit_once() {
    let mut passed = TestResult::new("/c/a.in");
    passed.finish(true, 1);

    let mut diff_failed = TestResult::new("/c/b.in");
    let d = TestResult::classify_diff(ToolOutcome::Exited(1, "x".to_string(), String::new()));
    assert!(!diff_failed.apply_stdout_diff(d));
    diff_failed.finish(false, 1);

    let mut valgrind_failed = TestResult::new("/c/c.in");
    assert!(!valgrind_failed.apply_valgrind(ToolOutcome::Exited(
        MEMCHECK_ERROR_EXIT,
        String::new(),
        "leak".to_string(),
    )));
    valgrind_failed.finish(false, 1);

    let mut other_failed = TestResult::new("/c/d.in");
    assert!(!other_failed.apply_run(ToolOutcome::SpawnFailed("gone".to_string())));
    other_failed.finish(false, 1);

    let results = vec![passed, diff_failed, valgrind_failed, other_failed];
    let summary = summarize(&results);
    assert_eq!(summary.passed, 1);
    assert_eq!(summary.diff_failed, 1);
    assert_eq!(summary.valgrind_failed, 1);
    assert_eq!(summary.other_failed, 1);
    assert_eq!(
        summary.passed + summary.diff_failed + summary.valgrind_failed + summary.other_failed,
        results.len()
    );
}

#[test]
fn bool_answers() {
    assert_eq!(parse_bool("true"), Some(true));
    assert_eq!(parse_bool("FALSE"), Some(false));
    assert_eq!(parse_bool("TrUe"), Some(true));
    assert_eq!(parse_bool("yes"), None);
    assert_eq!(parse_bool(""), None);
    assert_eq!(parse_bool("true "), None);
}

#[test]
fn number_answers() {
    assert_eq!(parse_u8("7"), Some(7));
    assert_eq!(parse_u8("+42"), Some(42));
    assert_eq!(parse_u8("255"), Some(255));
    assert_eq!(parse_u8("256"), None);
    assert_eq!(parse_u8("007"), Some(7));
    assert_eq!(parse_u8(""), None);
    assert_eq!(parse_u8("+"), None);
    assert_eq!(parse_u8("4a"), None);
    assert_eq!(parse_u8("-1"), None);
}

#[test]
fn menu_choices_are_range_checked() {
    assert_eq!(choose_option("2", 3), Some(2));
    assert_eq!(choose_option("3", 3), Some(3));
    assert_eq!(choose_option("0", 3), None);
    assert_eq!(choose_option("4", 3), None);
    assert_eq!(choose_option("seven", 7), None);
}
