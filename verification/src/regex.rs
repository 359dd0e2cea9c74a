//! Sets of regular expressions over full paths.

use crate::entry::DirEntry;
use crate::error::PatternError;
use vstd::prelude::*;

verus! {

#[verifier::external_type_specification]
#[verifier::external_body]
pub struct ExRegexSet(::regex::bytes::RegexSet);

#[verifier::external_type_specification]
#[verifier::external_body]
pub struct ExRegexError(::regex::Error);

/// Whether a set can be built from `patterns` under the given case setting:
/// each is a well-formed regular expression and the whole stays within the
/// size limit.
pub uninterp spec fn regex_set_compiles(patterns: Seq<Seq<char>>, case_insensitive: bool) -> bool;

/// Whether the regular expression `pattern`, under the given case setting,
/// matches somewhere in `haystack`.
pub uninterp spec fn regex_matches(
    pattern: Seq<char>,
    case_insensitive: bool,
    haystack: Seq<u8>,
) -> bool;

/// The patterns that a set was built from.
pub uninterp spec fn regex_set_patterns(set: ::regex::bytes::RegexSet) -> Seq<Seq<char>>;

/// The case setting that a set was built with.
pub uninterp spec fn regex_set_case_insensitive(set: ::regex::bytes::RegexSet) -> bool;

/// The text of each pattern of a list.
pub open spec fn pattern_texts(patterns: Seq<String>) -> Seq<Seq<char>> {
    Seq::new(patterns.len(), |i: int| patterns[i]@)
}

/// Whether one of `patterns`, under the given case setting, matches
/// somewhere in `haystack`.
pub open spec fn any_regex_matches(
    patterns: Seq<Seq<char>>,
    case_insensitive: bool,
    haystack: Seq<u8>,
) -> bool {
    exists|i: int|
        0 <= i < patterns.len() && #[trigger] regex_matches(patterns[i], case_insensitive, haystack)
}

/// `regex::bytes::RegexSetBuilder::new` on the patterns, `case_insensitive`,
/// then `build`: succeeds exactly when the patterns compile, and the set
/// then holds them.
#[verifier::external_body]
fn compile_set(patterns: &Vec<String>, case_insensitive: bool) -> (res: Result<
    ::regex::bytes::RegexSet,
    ::regex::Error,
>)
    ensures
        res is Ok == regex_set_compiles(pattern_texts(patterns@), case_insensitive),
        res matches Ok(set) ==> regex_set_patterns(set) == pattern_texts(patterns@)
            && regex_set_case_insensitive(set) == case_insensitive,
{
    ::regex::bytes::RegexSetBuilder::new(patterns).case_insensitive(case_insensitive).build()
}

/// `regex::bytes::RegexSet::is_match`: true exactly when some regular
/// expression of the set matches somewhere in the haystack.
#[verifier::external_body]
pub(crate) fn set_matches(set: &::regex::bytes::RegexSet, haystack: &[u8]) -> (matched: bool)
    ensures
        matched == (exists|i: int|
            0 <= i < regex_set_patterns(*set).len() && #[trigger] regex_matches(
                regex_set_patterns(*set)[i],
                regex_set_case_insensitive(*set),
                haystack@,
            )),
{
    set.is_match(haystack)
}

/// The `Display` text of a `regex::Error`.
#[verifier::external_body]
fn error_text(error: &::regex::Error) -> (text: String) {
    error.to_string()
}

/// Builds the set of regular expressions for a list of patterns, all under
/// one case setting; an absent list gives the empty set.
pub fn build_regex_set(patterns: Option<&Vec<String>>, case_insensitive: bool) -> (res: Result<
    ::regex::bytes::RegexSet,
    PatternError,
>)
    ensures
        res is Ok == regex_set_compiles(
            pattern_texts(crate::glob::patterns_or_empty(patterns)),
            case_insensitive,
        ),
        res matches Ok(set) ==> regex_set_patterns(set) == pattern_texts(
            crate::glob::patterns_or_empty(patterns),
        ) && regex_set_case_insensitive(set) == case_insensitive,
        res matches Err(e) ==> e is RegexSet,
{
    let built = match patterns {
        Some(list) => compile_set(list, case_insensitive),
        None => {
            let none: Vec<String> = Vec::new();
            compile_set(&none, case_insensitive)
        },
    };
    match built {
        Ok(set) => Ok(set),
        Err(e) => Err(PatternError::RegexSet { detail: error_text(&e) }),
    }
}

/// The bytes of an entry's full path, as the path patterns see them.
pub fn path_to_bytes(dir_entry: &DirEntry) -> (bytes: &[u8])
    ensures
        bytes@ == dir_entry.path@,
{
    dir_entry.path.as_slice()
}

} // verus!
