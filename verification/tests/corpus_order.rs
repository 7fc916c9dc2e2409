use rtest::corpus::{
    compilation_temp_name, compiled_run_path, load, load_c, sort_by_path, stderr_temp_name,
    stdout_temp_name,
};

fn paths(v: &[&str]) -> Vec<String> {
    v.iter().map(|s| s.to_string()).collect()
}

#[test]
fn load_keeps_only_feeder_units() {
    let entries = paths(&["/c/a.in", "/c/b.txt", "/c/c.in", "/c/nodot", "/c/.in"]);
    let units = load(&entries);
    assert_eq!(units.len(), 2);
    assert_eq!(units[0].get_name(), "a.in");
    assert_eq!(units[1].get_name(), "c.in");
}

#[test]
fn load_c_keeps_only_source_units() {
    let entries = paths(&["/c/a.in", "/c/b.c", "/c/z.c"]);
    let units = load_c(&entries);
    assert_eq!(units.len(), 2);
    assert_eq!(units[0].get_name(), "b.c");
    assert_eq!(units[1].get_name(), "z.c");
}

// Scenario: ten independent units - after sorting, each unit's position is
// its deterministic temp-file index, and no two indices collide on a name.
#[test]
fn ten_units_get_distinct_indices() {
    let entries = paths(&[
        "/c/t09.in", "/c/t03.in", "/c/t07.in", "/c/t01.in", "/c/t05.in", "/c/t10.in", "/c/t02.in",
        "/c/t08.in", "/c/t04.in", "/c/t06.in",
    ]);
    let mut units = load(&entries);
    sort_by_path(&mut units);
    assert_eq!(units.len(), 10);

    let expected = [
        "t01.in", "t02.in", "t03.in", "t04.in", "t05.in", "t06.in", "t07.in", "t08.in", "t09.in",
        "t10.in",
    ];
    for (index, unit) in units.iter().enumerate() {
        assert_eq!(unit.get_name(), expected[index]);
    }

    let mut names: Vec<String> = Vec::new();
    for index in 0..units.len() {
        names.push(stdout_temp_name(index));
        names.push(stderr_temp_name(index));
        names.push(compilation_temp_name(index));
    }
    for a in 0..names.len() {
        for b in (a + 1)..names.len() {
            assert_ne!(names[a], names[b]);
        }
    }
}

#[test]
fn sort_orders_by_path() {
    let entries = paths(&["/z/b.in", "/a/z.in", "/a/a.in", "/z/a.in"]);
    let mut units = load(&entries);
    sort_by_path(&mut units);
    assert_eq!(units[0].get_test_path(), "/a/a.in");
    assert_eq!(units[1].get_test_path(), "/a/z.in");
    assert_eq!(units[2].get_test_path(), "/z/a.in");
    assert_eq!(units[3].get_test_path(), "/z/b.in");
}

#[test]
fn sort_keeps_equal_corpora_aligned() {
    // Loading and sorting the same entries twice gives the same order:
    // run order is reproducible on an unchanged corpus.
    let entries = paths(&["/c/m.in", "/c/a.in", "/c/x.in"]);
    let mut first = load(&entries);
    sort_by_path(&mut first);
    let mut second = load(&entries);
    sort_by_path(&mut second);
    assert_eq!(first.len(), second.len());
    for k in 0..first.len() {
        assert_eq!(first[k].get_test_path(), second[k].get_test_path());
    }
}

#[test]
fn temp_names_follow_the_convention() {
    assert_eq!(stdout_temp_name(0), "rtest_stdout0");
    assert_eq!(stderr_temp_name(3), "rtest_stderr3");
    assert_eq!(compilation_temp_name(12), "rtest_compilation12");
    assert_eq!(compiled_run_path(7), "./rtest_compilation7");
}
