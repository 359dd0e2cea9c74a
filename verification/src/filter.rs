//! The filter engine: the three predicates that decide whether an entry is
//! reported, and the configuration that they are built from.

use crate::args::Args;
use crate::entry::{DirEntry, EntryType, Probe};
use crate::error::PatternError;
use crate::filetype::FileType;
use crate::glob::{
    all_globs_compile, any_glob_matches, build_glob_set, glob_failure, glob_list, glob_matches,
    glob_set_builds, glob_set_globs,
};
use crate::regex::{
    any_regex_matches, build_regex_set, pattern_texts, regex_matches,
    regex_set_case_insensitive, regex_set_compiles, regex_set_patterns,
};
use globset::GlobSet;
use vstd::prelude::*;

verus! {

/// The filters of one run. Built once, then only read.
pub struct FilterConfig {
    /// The accepted categories.
    pub type_mask: FileType,
    /// The globs over file names; absent where none were asked for.
    pub name_matcher: Option<GlobSet>,
    /// The regular expressions over full paths; absent where none were
    /// asked for.
    pub path_matcher: Option<::regex::bytes::RegexSet>,
    /// The case setting that both matchers were built with.
    pub case_insensitive: bool,
}

/// Whether a file name passes a name matcher: always where the matcher is
/// absent, else where one glob of the set matches it.
pub open spec fn spec_passes_name(file_name: Seq<u8>, matcher: Option<GlobSet>) -> bool {
    match matcher {
        None => true,
        Some(set) => any_glob_matches(glob_set_globs(set), file_name),
    }
}

/// Whether a full path passes a path matcher: always where the matcher is
/// absent, else where one regular expression of the set matches it.
pub open spec fn spec_passes_path(
    path: Seq<u8>,
    matcher: Option<::regex::bytes::RegexSet>,
) -> bool {
    match matcher {
        None => true,
        Some(set) => any_regex_matches(
            regex_set_patterns(set),
            regex_set_case_insensitive(set),
            path,
        ),
    }
}

/// Whether the name patterns of `args`, if any, make a set of globs.
pub open spec fn name_patterns_build(args: Args) -> bool {
    args.name matches Some(list) ==> {
        &&& all_globs_compile(list@, args.case_insensitive)
        &&& glob_set_builds(glob_list(list@, args.case_insensitive))
    }
}

/// Whether the path patterns of `args`, if any, make a set of regular
/// expressions.
pub open spec fn path_patterns_build(args: Args) -> bool {
    args.regex matches Some(list) ==> regex_set_compiles(
        pattern_texts(list@),
        args.case_insensitive,
    )
}

/// Whether `error` is what building the filters of `args` fails with: the
/// fault in the name patterns, or, where they build, the path patterns that
/// do not.
pub open spec fn pattern_failure(args: Args, error: PatternError) -> bool {
    match error {
        PatternError::RegexSet { .. } => name_patterns_build(args) && !path_patterns_build(args),
        _ => args.name matches Some(list) && glob_failure(list@, args.case_insensitive, error),
    }
}

impl FilterConfig {
    /// Both matchers carry the configuration's case setting.
    pub open spec fn wf(&self) -> bool {
        &&& self.name_matcher matches Some(set) ==> forall|i: int|
            0 <= i < glob_set_globs(set).len() ==> (#[trigger] glob_set_globs(set)[i]).1
                == self.case_insensitive
        &&& self.path_matcher matches Some(set) ==> regex_set_case_insensitive(set)
            == self.case_insensitive
    }

    /// Whether this configuration is the one that `args` asks for.
    pub open spec fn built_from(&self, args: Args) -> bool {
        &&& self.type_mask == FileType::spec_new(args.file_type@)
        &&& self.case_insensitive == args.case_insensitive
        &&& match args.name {
            Some(list) => self.name_matcher matches Some(set) && glob_set_globs(set) == glob_list(
                list@,
                args.case_insensitive,
            ),
            None => self.name_matcher is None,
        }
        &&& match args.regex {
            Some(list) => self.path_matcher matches Some(set) && regex_set_patterns(set)
                == pattern_texts(list@) && regex_set_case_insensitive(set)
                == args.case_insensitive,
            None => self.path_matcher is None,
        }
    }

    /// Whether an entry is reported: it passes the type, the name and the
    /// path predicate.
    pub open spec fn reports(&self, entry: DirEntry) -> bool {
        &&& self.type_mask.accepts(entry.file_type, entry.probe)
        &&& spec_passes_name(entry.file_name@, self.name_matcher)
        &&& spec_passes_path(entry.path@, self.path_matcher)
    }

    /// Builds the filters that `args` asks for. A matcher is present
    /// exactly where `args` holds a list of patterns for it.
    ///
    /// Fails on name patterns that make no set of globs, else on path
    /// patterns that make no set of regular expressions.
    pub fn new(args: &Args) -> (res: Result<FilterConfig, PatternError>)
        ensures
            res is Ok <==> name_patterns_build(*args) && path_patterns_build(*args),
            res matches Ok(config) ==> config.built_from(*args) && config.wf(),
            res matches Err(error) ==> pattern_failure(*args, error),
    {
        let type_mask = FileType::new(&args.file_type);
        let name_matcher = match &args.name {
            Some(list) => match build_glob_set(Some(list), args.case_insensitive) {
                Ok(set) => Some(set),
                Err(e) => {
                    return Err(e);
                },
            },
            None => None,
        };
        let path_matcher = match &args.regex {
            Some(list) => match build_regex_set(Some(list), args.case_insensitive) {
                Ok(set) => Some(set),
                Err(e) => {
                    return Err(e);
                },
            },
            None => None,
        };
        Ok(FilterConfig { type_mask, name_matcher, path_matcher, case_insensitive: args.case_insensitive })
    }

    /// Whether an entry passes the type predicate.
    pub fn passes_type(&self, entry: &DirEntry) -> (passes: bool)
        ensures
            passes == self.type_mask.accepts(entry.file_type, entry.probe),
    {
        !self.type_mask.ignore_filetype(entry)
    }
}

/// Whether a file name passes the name matcher.
pub fn passes_name(file_name: &[u8], matcher: &Option<GlobSet>) -> (passes: bool)
    ensures
        passes == spec_passes_name(file_name@, *matcher),
{
    match matcher {
        Some(set) => crate::glob::set_matches(set, file_name),
        None => true,
    }
}

/// Whether a full path passes the path matcher.
pub fn passes_path(path: &[u8], matcher: &Option<::regex::bytes::RegexSet>) -> (passes: bool)
    ensures
        passes == spec_passes_path(path@, *matcher),
{
    match matcher {
        Some(set) => crate::regex::set_matches(set, path),
        None => true,
    }
}

/// The type filter is exhaustive and fails closed: an entry is reported
/// only if its kind is known and the flag of its kind is set.
pub proof fn lemma_reported_type_enabled(config: FilterConfig, entry: DirEntry)
    requires
        config.reports(entry),
    ensures
        entry.file_type != EntryType::Unknown,
        config.type_mask.enables(entry.file_type),
{
}

/// With emptiness asked for, an entry is reported only if it is known to be
/// empty. Where emptiness alone is asked for, files and directories are
/// accepted: a file of zero bytes and a directory without entries pass the
/// type predicate, and a directory with an entry never does.
pub proof fn lemma_empty_filter(requested: Seq<crate::args::FileType>, file_type: EntryType, probe: Probe)
    requires
        requested.contains(crate::args::FileType::Empty),
    ensures
        FileType::spec_new(requested).accepts(file_type, probe) ==> crate::entry::spec_is_empty(
            file_type,
            probe,
        ),
        (probe matches Probe::Listed(n) && n > 0) ==> !FileType::spec_new(requested).accepts(
            EntryType::Directory,
            probe,
        ),
        !requested.contains(crate::args::FileType::File) && !requested.contains(
            crate::args::FileType::Directory,
        ) ==> {
            &&& FileType::spec_new(requested).accepts(EntryType::File, Probe::Sized(0))
            &&& FileType::spec_new(requested).accepts(EntryType::Directory, Probe::Listed(0))
        },
{
}

/// The three predicates are independent and all must hold, and within a
/// matcher one matching pattern is enough: an entry is reported exactly
/// when its type is accepted, the name matcher is absent or one of its
/// globs matches the file name, and the path matcher is absent or one of
/// its regular expressions matches the full path.
pub proof fn lemma_filters_compose(config: FilterConfig, entry: DirEntry)
    ensures
        config.reports(entry) <==> {
            &&& config.type_mask.accepts(entry.file_type, entry.probe)
            &&& (config.name_matcher matches Some(set) ==> exists|i: int|
                0 <= i < glob_set_globs(set).len() && #[trigger] glob_matches(
                    glob_set_globs(set)[i].0,
                    glob_set_globs(set)[i].1,
                    entry.file_name@,
                ))
            &&& (config.path_matcher matches Some(set) ==> exists|i: int|
                0 <= i < regex_set_patterns(set).len() && #[trigger] regex_matches(
                    regex_set_patterns(set)[i],
                    regex_set_case_insensitive(set),
                    entry.path@,
                ))
        },
{
}

} // verus!
