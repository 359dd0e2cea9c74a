//! Sets of glob patterns over file names.

use crate::error::PatternError;
use globset::{Candidate, Glob, GlobBuilder, GlobSet, GlobSetBuilder};
use vstd::prelude::*;

verus! {

#[verifier::external_type_specification]
#[verifier::external_body]
pub struct ExGlob(Glob);

#[verifier::external_type_specification]
#[verifier::external_body]
pub struct ExGlobSet(GlobSet);

#[verifier::external_type_specification]
#[verifier::external_body]
pub struct ExGlobSetBuilder(GlobSetBuilder);

#[verifier::external_type_specification]
#[verifier::external_body]
pub struct ExGlobError(globset::Error);

/// Whether `pattern` is a well-formed glob, with the given case setting.
pub uninterp spec fn glob_compiles(pattern: Seq<char>, case_insensitive: bool) -> bool;

/// Whether the glob `pattern`, with the given case setting, matches `name`.
pub uninterp spec fn glob_matches(pattern: Seq<char>, case_insensitive: bool, name: Seq<u8>) -> bool;

/// The pattern that a glob was parsed from, and its case setting.
pub uninterp spec fn glob_source(glob: Glob) -> (Seq<char>, bool);

/// Whether a set can be built from these globs, each well formed.
pub uninterp spec fn glob_set_builds(globs: Seq<(Seq<char>, bool)>) -> bool;

/// The globs added to a builder so far, each with its case setting.
pub uninterp spec fn glob_builder_globs(builder: GlobSetBuilder) -> Seq<(Seq<char>, bool)>;

/// The globs that a set holds, each with its case setting.
pub uninterp spec fn glob_set_globs(set: GlobSet) -> Seq<(Seq<char>, bool)>;

/// The globs that a list of patterns stands for under one case setting.
pub open spec fn glob_list(patterns: Seq<String>, case_insensitive: bool) -> Seq<(Seq<char>, bool)> {
    Seq::new(patterns.len(), |i: int| (patterns[i]@, case_insensitive))
}

/// Whether one of `globs` matches `name`.
pub open spec fn any_glob_matches(globs: Seq<(Seq<char>, bool)>, name: Seq<u8>) -> bool {
    exists|i: int| 0 <= i < globs.len() && #[trigger] glob_matches(globs[i].0, globs[i].1, name)
}

/// Whether every pattern of a list is a well-formed glob.
pub open spec fn all_globs_compile(patterns: Seq<String>, case_insensitive: bool) -> bool {
    forall|j: int|
        0 <= j < patterns.len() ==> glob_compiles(#[trigger] patterns[j]@, case_insensitive)
}

/// Whether the pattern at `index` is the first of a list that is malformed.
pub open spec fn first_malformed_glob(
    patterns: Seq<String>,
    case_insensitive: bool,
    index: int,
) -> bool {
    &&& 0 <= index < patterns.len()
    &&& !glob_compiles(patterns[index]@, case_insensitive)
    &&& forall|j: int| 0 <= j < index ==> glob_compiles(#[trigger] patterns[j]@, case_insensitive)
}

/// Whether `error` is what building a set of globs from `patterns` fails
/// with: the first malformed pattern, or, where there is none, a set that
/// cannot be built.
pub open spec fn glob_failure(
    patterns: Seq<String>,
    case_insensitive: bool,
    error: PatternError,
) -> bool {
    match error {
        PatternError::Glob { index, .. } => first_malformed_glob(
            patterns,
            case_insensitive,
            index as int,
        ),
        PatternError::GlobSet { .. } => all_globs_compile(patterns, case_insensitive)
            && !glob_set_builds(glob_list(patterns, case_insensitive)),
        PatternError::RegexSet { .. } => false,
    }
}

/// The patterns that an optional list stands for: none where it is absent.
pub open spec fn patterns_or_empty(patterns: Option<&Vec<String>>) -> Seq<String> {
    match patterns {
        Some(list) => list@,
        None => Seq::empty(),
    }
}

/// `GlobSetBuilder::new`: a builder that holds no glob yet.
#[verifier::external_body]
fn new_builder() -> (builder: GlobSetBuilder)
    ensures
        glob_builder_globs(builder) == Seq::<(Seq<char>, bool)>::empty(),
{
    GlobSetBuilder::new()
}

/// `GlobBuilder::new` on `pattern`, `case_insensitive`, then `build`: the
/// parse succeeds exactly on well-formed patterns, and the glob then
/// stands for the pattern under that case setting.
#[verifier::external_body]
fn parse_glob(pattern: &str, case_insensitive: bool) -> (res: Result<Glob, globset::Error>)
    ensures
        res is Ok == glob_compiles(pattern@, case_insensitive),
        res matches Ok(glob) ==> glob_source(glob) == (pattern@, case_insensitive),
{
    GlobBuilder::new(pattern).case_insensitive(case_insensitive).build()
}

/// `GlobSetBuilder::add`: the glob is appended to those of the builder.
#[verifier::external_body]
fn add_glob(builder: &mut GlobSetBuilder, glob: Glob)
    ensures
        glob_builder_globs(*final(builder)) == glob_builder_globs(*old(builder)).push(
            glob_source(glob),
        ),
{
    builder.add(glob);
}

/// `GlobSetBuilder::build`: a set of the globs added so far, in order.
#[verifier::external_body]
fn build_set(builder: &GlobSetBuilder) -> (res: Result<GlobSet, globset::Error>)
    ensures
        res is Ok == glob_set_builds(glob_builder_globs(*builder)),
        res matches Ok(set) ==> glob_set_globs(set) == glob_builder_globs(*builder),
{
    builder.build()
}

/// `GlobSet::is_match_candidate` on `Candidate::from_bytes`: true exactly
/// when some glob of the set matches the name.
#[verifier::external_body]
pub(crate) fn set_matches(set: &GlobSet, name: &[u8]) -> (matched: bool)
    ensures
        matched == (exists|i: int|
            0 <= i < glob_set_globs(*set).len() && #[trigger] glob_matches(
                glob_set_globs(*set)[i].0,
                glob_set_globs(*set)[i].1,
                name@,
            )),
{
    set.is_match_candidate(&Candidate::from_bytes(name))
}

/// The `Display` text of a `globset::Error`.
#[verifier::external_body]
fn error_text(error: &globset::Error) -> (text: String) {
    error.to_string()
}

/// Builds the set of globs for a list of patterns, all under one case
/// setting; an absent list gives the empty set.
///
/// The first malformed pattern fails the build, with its index.
pub fn build_glob_set(patterns: Option<&Vec<String>>, case_insensitive: bool) -> (res: Result<
    GlobSet,
    PatternError,
>)
    ensures
        res is Ok <==> all_globs_compile(patterns_or_empty(patterns), case_insensitive)
            && glob_set_builds(glob_list(patterns_or_empty(patterns), case_insensitive)),
        res matches Ok(set) ==> glob_set_globs(set) == glob_list(
            patterns_or_empty(patterns),
            case_insensitive,
        ),
        res matches Err(error) ==> glob_failure(
            patterns_or_empty(patterns),
            case_insensitive,
            error,
        ),
{
    let mut builder = new_builder();
    if let Some(list) = patterns {
        let n: usize = list.len();
        let mut i: usize = 0;
        while i < n
            invariant
                patterns_or_empty(patterns) == list@,
                n == list@.len(),
                i <= n,
                glob_builder_globs(builder) == glob_list(list@.take(i as int), case_insensitive),
                forall|j: int| 0 <= j < i ==> glob_compiles(#[trigger] list@[j]@, case_insensitive),
            decreases n - i,
        {
            match parse_glob(list[i].as_str(), case_insensitive) {
                Ok(glob) => add_glob(&mut builder, glob),
                Err(e) => {
                    return Err(PatternError::Glob { index: i, detail: error_text(&e) });
                },
            }
            proof {
                assert(glob_list(list@.take(i + 1), case_insensitive) == glob_list(
                    list@.take(i as int),
                    case_insensitive,
                ).push((list@[i as int]@, case_insensitive)));
            }
            i = i + 1;
        }
        proof {
            assert(list@.take(n as int) == list@);
        }
    } else {
        proof {
            assert(glob_list(Seq::<String>::empty(), case_insensitive) == Seq::<
                (Seq<char>, bool),
            >::empty());
        }
    }
    match build_set(&builder) {
        Ok(set) => Ok(set),
        Err(e) => Err(PatternError::GlobSet { detail: error_text(&e) }),
    }
}

} // verus!
