use crate::strutil::str_eq;
use vstd::prelude::*;

verus! {

// ---------------------------------------------------------------------------
// The localization dictionary: a read-only table from literal identifiers
// to display strings. The engine only ever looks identifiers up; loading a
// translation file and saving one back are the application's business, and
// arrive here as plain text through the JSON wrappers below.
// ---------------------------------------------------------------------------

/// Supplies the interface's display strings.
pub trait LiteralGenerator {
    /// What `get_literal` answers for the identifier.
    spec fn literal_spec(&self, identificator: Seq<char>) -> Seq<char>;

    /// Whether `language_format_good` accepts the language tag.
    spec fn format_good_spec(&self, language_format: Seq<char>) -> bool;

    /// The display string registered for the identifier.
    fn get_literal<'input>(&'input self, identificator: &str) -> (r: &'input str)
        ensures
            r@ == self.literal_spec(identificator@),
    ;

    /// Whether the language tag names an available translation.
    fn language_format_good(&self, language_format: &str) -> (r: bool)
        ensures
            r == self.format_good_spec(language_format@),
    ;
}

/// The value the first pair with the given key carries, if any.
pub open spec fn lookup(
    entries: Seq<(Seq<char>, Seq<char>)>,
    key: Seq<char>,
) -> Option<Seq<char>>
    decreases entries.len(),
{
    if entries.len() == 0 {
        None
    } else if entries[0].0 == key {
        Some(entries[0].1)
    } else {
        lookup(entries.drop_first(), key)
    }
}

proof fn lemma_lookup_at(entries: Seq<(Seq<char>, Seq<char>)>, key: Seq<char>, k: int)
    requires
        0 <= k < entries.len(),
        forall|m: int| 0 <= m < k ==> entries[m].0 != key,
        entries[k].0 == key,
    ensures
        lookup(entries, key) == Some(entries[k].1),
    decreases k,
{
    if k > 0 {
        lemma_lookup_at(entries.drop_first(), key, k - 1);
    }
}

proof fn lemma_lookup_none(entries: Seq<(Seq<char>, Seq<char>)>, key: Seq<char>)
    requires
        forall|m: int| 0 <= m < entries.len() ==> entries[m].0 != key,
    ensures
        lookup(entries, key) is None,
    decreases entries.len(),
{
    if entries.len() > 0 {
        lemma_lookup_none(entries.drop_first(), key);
    }
}

/// No two pairs share a key.
pub open spec fn distinct_keys(entries: Seq<(Seq<char>, Seq<char>)>) -> bool {
    forall|a: int, b: int| 0 <= a < b < entries.len() ==> entries[a].0 != entries[b].0
}

/// The pairs read as a map.
pub open spec fn map_of_pairs(entries: Seq<(Seq<char>, Seq<char>)>) -> Map<Seq<char>, Seq<char>>
    decreases entries.len(),
{
    if entries.len() == 0 {
        Map::empty()
    } else {
        map_of_pairs(entries.drop_last()).insert(entries.last().0, entries.last().1)
    }
}

/// What `serde_json::from_str` reads out of a text that is a JSON object
/// whose values are all strings: the object, as a map from keys to
/// values. Nothing when the text is not such an object.
pub uninterp spec fn json_string_object_of(s: Seq<char>) -> Option<Map<Seq<char>, Seq<char>>>;

/// Relies on `serde_json::from_str::<HashMap<String, String>>`: reads a
/// JSON object of strings, whose keys the map keeps unique; the pairs come
/// back in no particular order.
#[verifier::external_body]
fn parse_string_pairs(content: &str) -> (r: Option<Vec<(String, String)>>)
    ensures
        match r {
            Some(v) => {
                &&& json_string_object_of(content@) matches Some(m) && map_of_pairs(
                    pair_views(v@),
                ) == m
                &&& distinct_keys(pair_views(v@))
            },
            None => json_string_object_of(content@) is None,
        },
{
    match serde_json::from_str::<std::collections::HashMap<String, String>>(content) {
        Ok(m) => Some(m.into_iter().collect()),
        Err(_) => None,
    }
}

/// Relies on `serde_json::to_string_pretty` on an ordered map of strings:
/// renders the pairs as pretty-printed JSON. What exactly the rendering
/// looks like is not relied upon anywhere.
#[verifier::external_body]
fn string_pairs_to_json(entries: &Vec<(String, String)>) -> String {
    let map: std::collections::BTreeMap<&str, &str> = entries
        .iter()
        .map(|p| (p.0.as_str(), p.1.as_str()))
        .collect();
    match serde_json::to_string_pretty(&map) {
        Ok(text) => text,
        Err(_) => String::new(),
    }
}

/// The views of a sequence of string pairs.
pub open spec fn pair_views(entries: Seq<(String, String)>) -> Seq<(Seq<char>, Seq<char>)> {
    entries.map_values(|p: (String, String)| (p.0@, p.1@))
}

/// The dictionary: identifier-to-text pairs with pairwise distinct keys.
pub struct LangDict {
    entries: Vec<(String, String)>,
}

impl View for LangDict {
    type V = Seq<(Seq<char>, Seq<char>)>;

    closed spec fn view(&self) -> Seq<(Seq<char>, Seq<char>)> {
        pair_views(self.entries@)
    }
}

impl LiteralGenerator for LangDict {
    open spec fn literal_spec(&self, identificator: Seq<char>) -> Seq<char> {
        match lookup(self@, identificator) {
            Some(v) => v,
            None => "NO TRANSLATION YET."@,
        }
    }

    open spec fn format_good_spec(&self, language_format: Seq<char>) -> bool {
        language_format == "EN_en"@ || language_format == "PL_pl"@
    }

    fn get_literal<'input>(&'input self, identificator: &str) -> (r: &'input str) {
        let n = self.entries.len();
        let mut k: usize = 0;
        while k < n
            invariant
                k <= n,
                n == self.entries@.len(),
                forall|m: int| 0 <= m < k ==> self@[m].0 != identificator@,
            decreases n - k,
        {
            if str_eq(self.entries[k].0.as_str(), identificator) {
                proof {
                    lemma_lookup_at(self@, identificator@, k as int);
                }
                return self.entries[k].1.as_str();
            }
            k = k + 1;
        }
        proof {
            lemma_lookup_none(self@, identificator@);
        }
        "NO TRANSLATION YET."
    }

    fn language_format_good(&self, language_format: &str) -> (r: bool) {
        str_eq(language_format, "EN_en") || str_eq(language_format, "PL_pl")
    }
}

impl LangDict {
    /// Reads a dictionary out of the text of a translation file. Nothing
    /// comes back when the text is not a JSON object of strings.
    pub fn from_json(content: &str) -> (r: Option<LangDict>)
        ensures
            match r {
                Some(d) => {
                    &&& json_string_object_of(content@) matches Some(m) && map_of_pairs(d@) == m
                    &&& distinct_keys(d@)
                },
                None => json_string_object_of(content@) is None,
            },
    {
        match parse_string_pairs(content) {
            Some(entries) => Some(LangDict { entries }),
            None => None,
        }
    }

    /// The dictionary rendered as JSON, for saving a translation file.
    pub fn to_json(&self) -> String {
        string_pairs_to_json(&self.entries)
    }

}

/// The built-in English table, pair for pair.
pub open spec fn default_entries() -> Seq<(Seq<char>, Seq<char>)> {
    seq![
        ("MAIN_TITLE"@, "         __   __    __  ___  ____  ___  ___  ____ \n        / _) /  \\  /  \\(   \\(_  _)(  _)/ __)(_  _)\n       ( (/\\( () )( () )) ) ) )(   ) _)\\__ \\  )(  \n        \\__/ \\__/  \\__/(___/ (__) (___)(___/ (__)"@),
        ("OPTIONS_TITLE"@, "                    _ (`-.  .-') _                            .-') _   .-')    \n               ( (OO  )(  OO) )                          ( OO ) ) ( OO ).  \n .-'),-----.  _.`     \\/     '._ ,-.-')  .-'),-----. ,--./ ,--,' (_)---\\_) \n( OO'  .-.  '(__...--''|'--...__)|  |OO)( OO'  .-.  '|   \\ |  |\\ /    _ |  \n/   |  | |  | |  /  | |'--.  .--'|  |  \\/   |  | |  ||    \\|  | )\\  :` `.  \n\\_) |  |\\|  | |  |_.' |   |  |   |  |(_/\\_) |  |\\|  ||  .     |/  '..`''.) \n  \\ |  | |  | |  .___.'   |  |  ,|  |_.'  \\ |  | |  ||  |\\    |  .-._)   \\ \n   `'  '-'  ' |  |        |  | (_|  |      `'  '-'  '|  | \\   |  \\       / \n     `-----'  `--'        `--'   `--'        `-----' `--'  `--'   `-----'"@),
        ("TEST_FOLDER_PATH"@, "1)    Test directory:"@),
        ("PROGRAM_PATH"@, "2)      Program path:"@),
        ("VALGRIND_ACTIVITY"@, "3) Valgrind activity:"@),
        ("STDERR_ACTIVITY"@, "4)   Stderr activity:"@),
        ("LANGUAGE_OPTION"@, "5)          Language:"@),
        ("WARNING_ABSOLUTE_PATH"@, "Warning 1: Please use paths of absolute formats!"@),
        ("WARNING_LANGUAGE"@, "Warning 2: Language will change after program restart."@),
        ("CHOOSE_OPTION_RETURN6"@, "Choose option (6 exits options menu):"@),
        ("START_TESTS"@, "Start testing"@),
        ("SHOW_SETTINGS"@, "Program settings"@),
        ("EXIT_PROGRAM"@, "Exit program"@),
        ("CHOOSE_OPTION_ENTER"@, "Choose an option and press ENTER:"@),
        ("GET_LANGUAGE"@, "Enter a language:"@),
        ("GET_TEST_PATH"@, "Enter a path to folder with tests:"@),
        ("INCORRECT_PATH"@, "Entered path was incorrect!"@),
        ("GET_PROGRAM_PATH"@, "Enter a path to compiled program:"@),
        ("VALGRIND_USAGE"@, "Valgrind usage: (true / false)"@),
        ("INCORRECT_VALUE"@, "Entered value was incorrect!"@),
        ("STDERR_USAGE"@, "Testing of stderr on: (true / false)"@),
        ("READ_ERROR"@, "Reading input error. Try again."@),
        ("READ_ERROR_DIGIT"@, "Reading input error. Entered digit was incorrect."@),
        ("READ_ERROR_NUMBER"@, "Reading input error. Entered number was incorrect."@),
        ("PROGRAM_END"@, "Program is terminating."@),
        ("RESULT_ID"@, "ID"@),
        ("RESULT_NAME"@, "NAME"@),
        ("RESULT_TIME"@, "TIME"@),
        ("RESULT_PASSED"@, "PASSED"@),
        ("RESULT_OUTCOME"@, "PROBLEM / EXITCODE"@),
        ("RESULT_TRUE_OUT"@, "TRUE"@),
        ("RESULT_FALSE_OUT"@, "FALSE"@),
        ("RESULT_EXITCODE"@, "Program's returned exitcode"@),
        ("TEST_TOTAL"@, "TOTAL"@),
        ("TEST_PASSED"@, "PASSED"@),
        ("TEST_FAILED"@, "FAILED"@),
        ("TEST_VALGRIND_FAILED"@, "VALGRIND FAILED"@),
        ("TEST_DIFF_FAILED"@, "DIFF FAILED"@),
        ("TEST_OTHER_FAILED"@, "OTHER FAIL"@),
    ]
}

impl Default for LangDict {
    /// The built-in English dictionary, used when no translation file can
    /// be read.
    fn default() -> (r: LangDict)
        ensures
            r@ == default_entries(),
    {
        let mut entries: Vec<(String, String)> = Vec::new();
        entries.push(("MAIN_TITLE".to_owned(), "         __   __    __  ___  ____  ___  ___  ____ \n        / _) /  \\  /  \\(   \\(_  _)(  _)/ __)(_  _)\n       ( (/\\( () )( () )) ) ) )(   ) _)\\__ \\  )(  \n        \\__/ \\__/  \\__/(___/ (__) (___)(___/ (__)".to_owned()));
        entries.push(("OPTIONS_TITLE".to_owned(), "                    _ (`-.  .-') _                            .-') _   .-')    \n               ( (OO  )(  OO) )                          ( OO ) ) ( OO ).  \n .-'),-----.  _.`     \\/     '._ ,-.-')  .-'),-----. ,--./ ,--,' (_)---\\_) \n( OO'  .-.  '(__...--''|'--...__)|  |OO)( OO'  .-.  '|   \\ |  |\\ /    _ |  \n/   |  | |  | |  /  | |'--.  .--'|  |  \\/   |  | |  ||    \\|  | )\\  :` `.  \n\\_) |  |\\|  | |  |_.' |   |  |   |  |(_/\\_) |  |\\|  ||  .     |/  '..`''.) \n  \\ |  | |  | |  .___.'   |  |  ,|  |_.'  \\ |  | |  ||  |\\    |  .-._)   \\ \n   `'  '-'  ' |  |        |  | (_|  |      `'  '-'  '|  | \\   |  \\       / \n     `-----'  `--'        `--'   `--'        `-----' `--'  `--'   `-----'".to_owned()));
        entries.push(("TEST_FOLDER_PATH".to_owned(), "1)    Test directory:".to_owned()));
        entries.push(("PROGRAM_PATH".to_owned(), "2)      Program path:".to_owned()));
        entries.push(("VALGRIND_ACTIVITY".to_owned(), "3) Valgrind activity:".to_owned()));
        entries.push(("STDERR_ACTIVITY".to_owned(), "4)   Stderr activity:".to_owned()));
        entries.push(("LANGUAGE_OPTION".to_owned(), "5)          Language:".to_owned()));
        entries.push(("WARNING_ABSOLUTE_PATH".to_owned(), "Warning 1: Please use paths of absolute formats!".to_owned()));
        entries.push(("WARNING_LANGUAGE".to_owned(), "Warning 2: Language will change after program restart.".to_owned()));
        entries.push(("CHOOSE_OPTION_RETURN6".to_owned(), "Choose option (6 exits options menu):".to_owned()));
        entries.push(("START_TESTS".to_owned(), "Start testing".to_owned()));
        entries.push(("SHOW_SETTINGS".to_owned(), "Program settings".to_owned()));
        entries.push(("EXIT_PROGRAM".to_owned(), "Exit program".to_owned()));
        entries.push(("CHOOSE_OPTION_ENTER".to_owned(), "Choose an option and press ENTER:".to_owned()));
        entries.push(("GET_LANGUAGE".to_owned(), "Enter a language:".to_owned()));
        entries.push(("GET_TEST_PATH".to_owned(), "Enter a path to folder with tests:".to_owned()));
        entries.push(("INCORRECT_PATH".to_owned(), "Entered path was incorrect!".to_owned()));
        entries.push(("GET_PROGRAM_PATH".to_owned(), "Enter a path to compiled program:".to_owned()));
        entries.push(("VALGRIND_USAGE".to_owned(), "Valgrind usage: (true / false)".to_owned()));
        entries.push(("INCORRECT_VALUE".to_owned(), "Entered value was incorrect!".to_owned()));
        entries.push(("STDERR_USAGE".to_owned(), "Testing of stderr on: (true / false)".to_owned()));
        entries.push(("READ_ERROR".to_owned(), "Reading input error. Try again.".to_owned()));
        entries.push(("READ_ERROR_DIGIT".to_owned(), "Reading input error. Entered digit was incorrect.".to_owned()));
        entries.push(("READ_ERROR_NUMBER".to_owned(), "Reading input error. Entered number was incorrect.".to_owned()));
        entries.push(("PROGRAM_END".to_owned(), "Program is terminating.".to_owned()));
        entries.push(("RESULT_ID".to_owned(), "ID".to_owned()));
        entries.push(("RESULT_NAME".to_owned(), "NAME".to_owned()));
        entries.push(("RESULT_TIME".to_owned(), "TIME".to_owned()));
        entries.push(("RESULT_PASSED".to_owned(), "PASSED".to_owned()));
        entries.push(("RESULT_OUTCOME".to_owned(), "PROBLEM / EXITCODE".to_owned()));
        entries.push(("RESULT_TRUE_OUT".to_owned(), "TRUE".to_owned()));
        entries.push(("RESULT_FALSE_OUT".to_owned(), "FALSE".to_owned()));
        entries.push(("RESULT_EXITCODE".to_owned(), "Program's returned exitcode".to_owned()));
        entries.push(("TEST_TOTAL".to_owned(), "TOTAL".to_owned()));
        entries.push(("TEST_PASSED".to_owned(), "PASSED".to_owned()));
        entries.push(("TEST_FAILED".to_owned(), "FAILED".to_owned()));
        entries.push(("TEST_VALGRIND_FAILED".to_owned(), "VALGRIND FAILED".to_owned()));
        entries.push(("TEST_DIFF_FAILED".to_owned(), "DIFF FAILED".to_owned()));
        entries.push(("TEST_OTHER_FAILED".to_owned(), "OTHER FAIL".to_owned()));
        let r = LangDict { entries };
        proof {
            assert(r@ =~= default_entries());
        }
        r
    }
}

} // verus!
