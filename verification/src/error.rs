//! The errors of the library.

use vstd::prelude::*;

verus! {

/// Why a set of name or path patterns could not be built.
#[derive(Clone, Debug)]
pub enum PatternError {
    /// The glob pattern at `index` is malformed.
    Glob { index: usize, detail: String },
    /// Every glob pattern was well formed, but the set could not be built.
    GlobSet { detail: String },
    /// The set of regular expressions could not be built.
    RegexSet { detail: String },
}

impl PatternError {
    /// What was being done when the error came up.
    pub fn context(&self) -> (text: &'static str)
        ensures
            self is Glob ==> text@ == "Unable to parse and build glob pattern"@,
            self is GlobSet ==> text@ == "Unable to build globbing set"@,
            self is RegexSet ==> text@ == "Unable to build regular expression set"@,
    {
        match self {
            PatternError::Glob { .. } => "Unable to parse and build glob pattern",
            PatternError::GlobSet { .. } => "Unable to build globbing set",
            PatternError::RegexSet { .. } => "Unable to build regular expression set",
        }
    }

    /// The text of the underlying failure.
    pub fn detail(&self) -> (text: &String)
        ensures
            self matches PatternError::Glob { detail, .. } ==> text == detail,
            self matches PatternError::GlobSet { detail } ==> text == detail,
            self matches PatternError::RegexSet { detail } ==> text == detail,
    {
        match self {
            PatternError::Glob { detail, .. } => detail,
            PatternError::GlobSet { detail } => detail,
            PatternError::RegexSet { detail } => detail,
        }
    }
}

} // verus!
