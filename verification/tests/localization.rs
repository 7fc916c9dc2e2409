use rtest::language::{LangDict, LiteralGenerator};

#[test]
fn default_dictionary_answers_known_literals() {
    let dict = LangDict::default();
    assert_eq!(dict.get_literal("START_TESTS"), "Start testing");
    assert_eq!(dict.get_literal("TEST_TOTAL"), "TOTAL");
    assert_eq!(dict.get_literal("INCORRECT_PATH"), "Entered path was incorrect!");
}

#[test]
fn unknown_literals_fall_back() {
    let dict = LangDict::default();
    assert_eq!(dict.get_literal("NO_SUCH_LITERAL"), "NO TRANSLATION YET.");
}

#[test]
fn language_tags() {
    let dict = LangDict::default();
    assert!(dict.language_format_good("EN_en"));
    assert!(dict.language_format_good("PL_pl"));
    assert!(!dict.language_format_good("DE_de"));
    assert!(!dict.language_format_good(""));
}

#[test]
fn dictionary_reads_from_json() {
    let dict = LangDict::from_json("{\"GREETING\": \"hello\", \"FAREWELL\": \"bye\"}")
        .expect("a JSON object of strings parses");
    assert_eq!(dict.get_literal("GREETING"), "hello");
    assert_eq!(dict.get_literal("FAREWELL"), "bye");
    assert_eq!(dict.get_literal("OTHER"), "NO TRANSLATION YET.");
}

#[test]
fn broken_translation_text_is_refused() {
    assert!(LangDict::from_json("not json at all").is_none());
    assert!(LangDict::from_json("[1, 2, 3]").is_none());
    assert!(LangDict::from_json("{\"KEY\": 5}").is_none());
}

#[test]
fn dictionary_round_trips_through_json() {
    let dict = LangDict::default();
    let text = dict.to_json();
    let back = LangDict::from_json(&text).expect("the saved dictionary reads back");
    assert_eq!(back.get_literal("START_TESTS"), "Start testing");
    assert_eq!(back.get_literal("MAIN_TITLE"), dict.get_literal("MAIN_TITLE"));
    assert_eq!(back.get_literal("RESULT_EXITCODE"), dict.get_literal("RESULT_EXITCODE"));
}
