//! The life-cycle status of a test script: a closed set of tags bound to
//! exact literal strings.

use vstd::prelude::*;

use crate::node::str_eq;

verus! {

/// The status of a test script. Enables tracking the life-cycle of the
/// content.
#[derive(Debug, Clone, Copy, PartialEq, Eq, Structural)]
pub enum TestScriptStatus {
    Draft,
    Active,
    Retired,
    Unknown,
}

/// The tag bound to `s`, if any: the match is case-sensitive and exact,
/// with no trimming or folding.
pub open spec fn spec_status_from(s: Seq<char>) -> Option<TestScriptStatus> {
    if s == "draft"@ {
        Some(TestScriptStatus::Draft)
    } else if s == "active"@ {
        Some(TestScriptStatus::Active)
    } else if s == "retired"@ {
        Some(TestScriptStatus::Retired)
    } else if s == "unknown"@ {
        Some(TestScriptStatus::Unknown)
    } else {
        None
    }
}

impl TestScriptStatus {
    /// Parses a status tag: exactly `"draft"`, `"active"`, `"retired"` or
    /// `"unknown"` map to a tag; every other string is unrecognized.
    pub fn from_string(string: &str) -> (r: Option<TestScriptStatus>)
        ensures
            r == spec_status_from(string@),
    {
        if str_eq(string, "draft") {
            Some(TestScriptStatus::Draft)
        } else if str_eq(string, "active") {
            Some(TestScriptStatus::Active)
        } else if str_eq(string, "retired") {
            Some(TestScriptStatus::Retired)
        } else if str_eq(string, "unknown") {
            Some(TestScriptStatus::Unknown)
        } else {
            None
        }
    }
}

} // verus!
