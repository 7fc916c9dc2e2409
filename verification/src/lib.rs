//! A test-orchestration engine for black-box I/O testing of C programs.
//!
//! The library owns the logic of a test run: discovering test units in a
//! corpus, deriving the expected-output paths, driving each unit through the
//! per-test state machine (optional compile step, execution under a
//! memory checker or not, output comparison), classifying failures, and
//! aggregating the outcomes. Invocations of the external tools themselves
//! (the subject program, the compiler, the memory checker, the diff tool)
//! are performed by the surrounding application, which feeds the captured
//! exit codes and streams back into the verified state machine.

pub mod settings;
pub mod strutil;
pub mod paths;
pub mod test_enums;
pub mod test_result;
pub mod machine;
pub mod corpus;
pub mod report;
pub mod language;

use vstd::prelude::*;

verus! {

} // verus!
