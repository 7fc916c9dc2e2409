use vstd::prelude::*;

verus! {

/// Mathematical image of an [`Options`] value: every field as a plain
/// sequence or boolean.
pub struct OptionsV {
    pub test_root_directory: Seq<char>,
    pub program_executable_path: Seq<char>,
    pub is_valgrind_active: bool,
    pub use_stderr_tests: bool,
    pub language: Seq<char>,
    pub use_compilation_mode: bool,
}

/// Run configuration consumed by the test engine: where the corpus lives,
/// which subject program to run, and which optional steps are enabled.
pub struct Options {
    test_root_directory: String,
    program_executable_path: String,
    is_valgrind_active: bool,
    use_stderr_tests: bool,
    language: String,
    use_compilation_mode: bool,
}

impl View for Options {
    type V = OptionsV;

    closed spec fn view(&self) -> OptionsV {
        OptionsV {
            test_root_directory: self.test_root_directory@,
            program_executable_path: self.program_executable_path@,
            is_valgrind_active: self.is_valgrind_active,
            use_stderr_tests: self.use_stderr_tests,
            language: self.language@,
            use_compilation_mode: self.use_compilation_mode,
        }
    }
}

/// Relies on `std::path::Path::is_dir`: returns whether the path names an
/// existing directory on disk. The result depends on the state of the file
/// system, so nothing is promised of it.
#[verifier::external_body]
fn path_is_dir(path: &str) -> bool {
    std::path::Path::new(path).is_dir()
}

/// Relies on `std::path::Path::is_file`: returns whether the path names an
/// existing regular file on disk. The result depends on the state of the
/// file system, so nothing is promised of it.
#[verifier::external_body]
fn path_is_file(path: &str) -> bool {
    std::path::Path::new(path).is_file()
}

impl Default for Options {
    /// The configuration used before the user has saved one.
    fn default() -> (r: Options)
        ensures
            r@.test_root_directory == "testy/"@,
            r@.program_executable_path == "PLEASE, SET!"@,
            r@.is_valgrind_active,
            !r@.use_stderr_tests,
            r@.language == "EN_en"@,
            !r@.use_compilation_mode,
    {
        Options {
            test_root_directory: "testy/".to_owned(),
            program_executable_path: "PLEASE, SET!".to_owned(),
            is_valgrind_active: true,
            use_stderr_tests: false,
            language: "EN_en".to_owned(),
            use_compilation_mode: false,
        }
    }
}

impl Options {
    /// Builds a configuration from plain values, one per field; the
    /// surrounding application uses it to revive a saved configuration.
    pub fn from_fields(
        test_root_directory: String,
        program_executable_path: String,
        is_valgrind_active: bool,
        use_stderr_tests: bool,
        language: String,
        use_compilation_mode: bool,
    ) -> (r: Options)
        ensures
            r@ == (OptionsV {
                test_root_directory: test_root_directory@,
                program_executable_path: program_executable_path@,
                is_valgrind_active,
                use_stderr_tests,
                language: language@,
                use_compilation_mode,
            }),
    {
        Options {
            test_root_directory,
            program_executable_path,
            is_valgrind_active,
            use_stderr_tests,
            language,
            use_compilation_mode,
        }
    }

    /// Path of the directory that holds the corpus.
    pub fn get_test_path(&self) -> (r: &str)
        ensures
            r@ == self@.test_root_directory,
    {
        self.test_root_directory.as_str()
    }

    /// The configured display language.
    pub fn get_language(&self) -> (r: &str)
        ensures
            r@ == self@.language,
    {
        self.language.as_str()
    }

    /// Whether each unit runs under the memory checker (true - it does).
    pub fn get_valgrind_activity(&self) -> (r: bool)
        ensures
            r == self@.is_valgrind_active,
    {
        self.is_valgrind_active
    }

    /// Whether captured standard error is compared as well (true - it is).
    pub fn get_stderr_option(&self) -> (r: bool)
        ensures
            r == self@.use_stderr_tests,
    {
        self.use_stderr_tests
    }

    /// Whether each unit is a source file compiled before running
    /// (true - compiled mode; false - feeder mode).
    pub fn get_program_mode(&self) -> (r: bool)
        ensures
            r == self@.use_compilation_mode,
    {
        self.use_compilation_mode
    }

    /// Path of the subject program (or, in compiled mode, of the
    /// precompiled object the sources are linked against).
    pub fn get_program_path(&self) -> (r: &str)
        ensures
            r@ == self@.program_executable_path,
    {
        self.program_executable_path.as_str()
    }

    /// Accepts the path as the corpus directory when it names an existing
    /// directory, and reports whether it did; no other field changes.
    pub fn set_test_path(&mut self, path: &str) -> (r: bool)
        ensures
            r ==> final(self)@ == (OptionsV { test_root_directory: path@, ..old(self)@ }),
            !r ==> final(self)@ == old(self)@,
    {
        if path_is_dir(path) {
            self.test_root_directory = path.to_owned();
            true
        } else {
            false
        }
    }

    /// Accepts the path as the subject program when it names an existing
    /// file, and reports whether it did; no other field changes.
    pub fn set_program_path(&mut self, path: &str) -> (r: bool)
        ensures
            r ==> final(self)@ == (OptionsV {
                program_executable_path: path@,
                ..old(self)@
            }),
            !r ==> final(self)@ == old(self)@,
    {
        if path_is_file(path) {
            self.program_executable_path = path.to_owned();
            true
        } else {
            false
        }
    }

    /// Turns the memory-check step on or off.
    pub fn set_valgrind_activity(&mut self, option: bool)
        ensures
            final(self)@ == (OptionsV { is_valgrind_active: option, ..old(self)@ }),
    {
        self.is_valgrind_active = option;
    }

    /// Turns the comparison of captured standard error on or off.
    pub fn set_stderr_usage(&mut self, option: bool)
        ensures
            final(self)@ == (OptionsV { use_stderr_tests: option, ..old(self)@ }),
    {
        self.use_stderr_tests = option;
    }

    /// Records the display language.
    pub fn set_language(&mut self, lang: &str)
        ensures
            final(self)@ == (OptionsV { language: lang@, ..old(self)@ }),
    {
        self.language = lang.to_owned();
    }

    /// Chooses between compiled mode and feeder mode.
    pub fn set_compilation_mode(&mut self, option: bool)
        ensures
            final(self)@ == (OptionsV { use_compilation_mode: option, ..old(self)@ }),
    {
        self.use_compilation_mode = option;
    }
}

} // verus!
