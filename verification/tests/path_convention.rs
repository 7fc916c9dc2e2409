use rtest::test_result::TestResult;

#[test]
fn testing_get_stdout_test() {
    let ts = TestResult::new("/usr/bin/a/b/c/def.in");
    assert!(ts.get_stdout_file() == "/usr/bin/a/b/c/def.out");
}

#[test]
fn testing_get_stderr_test() {
    let ts = TestResult::new("/usr/bin/a/b/c/def.in");
    assert!(ts.get_stderr_file() == "/usr/bin/a/b/c/def.err");
}

#[test]
fn get_name_test() {
    let ts = TestResult::new("/usr/bin/a/b/c/def.in");
    assert!(ts.get_name() == "def.in");
}

#[test]
fn test_result_get_stdout_test() {
    let ts = TestResult::new("/usr/bin/a/b/c/def.in");
    assert!(ts.get_stdout_file() == "/usr/bin/a/b/c/def.out");
}

#[test]
fn test_result_get_stderr_test() {
    let ts = TestResult::new("/usr/bin/a/b/c/def.in");
    assert!(ts.get_stderr_file() == "/usr/bin/a/b/c/def.err");
}

#[test]
fn get_test_path_test() {
    let ts = TestResult::new("/usr/bin/a/b/c/def.in");
    assert!(ts.get_name() == "def.in");
}

#[test]
fn first_dot_truncation() {
    // A name with several dots truncates at the first one.
    let ts = TestResult::new("a.b.c.in");
    assert_eq!(ts.get_stdout_file(), "a.out");
    assert_eq!(ts.get_stderr_file(), "a.err");
}

#[test]
fn dotted_directory_is_kept_whole() {
    // The truncation scans the final segment only: a dot in a directory
    // name never moves the expected-output paths.
    let ts = TestResult::new("/a.b/c.in");
    assert_eq!(ts.get_stdout_file(), "/a.b/c.out");
    assert_eq!(ts.get_stderr_file(), "/a.b/c.err");

    let ts = TestResult::new("/v1.2/suite.x/case.one.in");
    assert_eq!(ts.get_stdout_file(), "/v1.2/suite.x/case.out");
}

#[test]
fn name_without_directory() {
    let ts = TestResult::new("plain.in");
    assert_eq!(ts.get_name(), "plain.in");
    assert_eq!(ts.get_stdout_file(), "plain.out");
}

#[test]
fn extension_filters() {
    assert!(rtest::corpus::is_infile("/corpus/t1.in"));
    assert!(!rtest::corpus::is_infile("/corpus/t1.c"));
    assert!(!rtest::corpus::is_infile("/corpus/readme"));
    assert!(!rtest::corpus::is_infile("/corpus/.in"));
    assert!(!rtest::corpus::is_infile("/corpus.in/noext"));
    assert!(rtest::corpus::is_cfile("/corpus/t1.c"));
    assert!(rtest::corpus::is_cfile("b.extra.c"));
    assert!(!rtest::corpus::is_cfile("/corpus/t1.cc"));
}
