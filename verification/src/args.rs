//! The settings of one run, and how their raw values are validated.

use vstd::prelude::*;

verus! {

/// A category that entries can be filtered by.
#[derive(Clone, Copy, Debug, PartialEq, Eq, Structural)]
pub enum FileType {
    Empty,
    BlockDevice,
    CharDevice,
    Directory,
    Pipe,
    File,
    Symlink,
    Socket,
}

/// The settings of one run.
#[derive(Clone, Debug)]
pub struct Args {
    /// Follow symbolic links.
    pub follow_symlinks: bool,
    /// Do not cross mount points.
    pub one_filesystem: bool,
    /// Number of threads, the writer's included.
    pub threads: usize,
    /// Maximum depth to traverse.
    pub max_depth: Option<usize>,
    /// Glob patterns over the last component of a path.
    pub name: Option<Vec<String>>,
    /// Regular expressions over the full path.
    pub regex: Option<Vec<String>>,
    /// Match both kinds of pattern without regard to case.
    pub case_insensitive: bool,
    /// The categories to keep.
    pub file_type: Vec<FileType>,
    /// The directories to start from, as raw bytes.
    pub path: Vec<Vec<u8>>,
}

/// Why a raw value was turned down.
#[derive(Clone, Debug, PartialEq, Eq)]
pub enum ArgError {
    /// The text is not an unsigned decimal number that fits the machine word.
    InvalidNumber,
    /// The number of threads is outside `2..=65535`.
    ThreadsOutOfRange,
    /// The path does not name a directory that exists and can be normalized.
    NotADirectory { path: String },
    /// No path to start from was given.
    NoPath,
}

impl ArgError {
    /// The text that tells a user what was turned down.
    pub open spec fn spec_message(&self) -> Seq<char> {
        match self {
            ArgError::InvalidNumber => "threads should be an unsigned decimal number"@,
            ArgError::ThreadsOutOfRange => "threads should be in (2..65536) range"@,
            ArgError::NotADirectory { path } => "'"@ + path@ + "' is not an existing directory"@,
            ArgError::NoPath => "no path to start from was given"@,
        }
    }

    /// The text that tells a user what was turned down.
    pub fn message(&self) -> (text: String)
        ensures
            text@ == self.spec_message(),
    {
        match self {
            ArgError::InvalidNumber => String::from_str(
                "threads should be an unsigned decimal number",
            ),
            ArgError::ThreadsOutOfRange => String::from_str("threads should be in (2..65536) range"),
            ArgError::NotADirectory { path } => {
                let mut text = String::from_str("'");
                text.append(path.as_str());
                text.append("' is not an existing directory");
                text
            },
            ArgError::NoPath => String::from_str("no path to start from was given"),
        }
    }
}

/// What the file system said of a path given on the command line.
#[derive(Clone, Debug)]
pub struct PathStatus {
    /// The path names a directory.
    pub is_dir: bool,
    /// The normalized form of the path, where normalizing succeeded.
    pub normalized: Option<Vec<u8>>,
}

pub const MIN_THREADS: usize = 2;

pub const MAX_THREADS: usize = 65535;

/// The value of a decimal digit.
pub open spec fn digit_value(c: char) -> Option<nat> {
    if '0' <= c && c <= '9' {
        Some((c as nat - '0' as nat) as nat)
    } else {
        None
    }
}

/// The number that a run of decimal digits denotes, most significant digit
/// first; `None` where a character is no digit. The empty run denotes zero.
pub open spec fn digits_value(s: Seq<char>) -> Option<nat>
    decreases s.len(),
{
    if s.len() == 0 {
        Some(0)
    } else {
        match (digits_value(s.drop_last()), digit_value(s.last())) {
            (Some(high), Some(low)) => Some(high * 10 + low),
            _ => None,
        }
    }
}

/// The machine word that a text denotes: an optional `+`, then at least one
/// decimal digit and nothing else, with a value that fits.
pub open spec fn spec_parse_usize(s: Seq<char>) -> Option<usize> {
    let digits = if s.len() > 0 && s[0] == '+' {
        s.drop_first()
    } else {
        s
    };
    if digits.len() == 0 {
        None
    } else {
        match digits_value(digits) {
            Some(v) => if v <= usize::MAX {
                Some(v as usize)
            } else {
                None
            },
            None => None,
        }
    }
}

/// A run of characters that starts with a run that is no number is no
/// number either.
proof fn lemma_digits_prefix_none(s: Seq<char>, k: int)
    requires
        0 <= k <= s.len(),
        digits_value(s.take(k)) is None,
    ensures
        digits_value(s) is None,
    decreases s.len() - k,
{
    if k == s.len() {
        assert(s.take(k) == s);
    } else {
        assert(s.take(k + 1).drop_last() == s.take(k));
        lemma_digits_prefix_none(s, k + 1);
    }
}

/// A run of digits denotes at least what any run that it starts with denotes.
proof fn lemma_digits_prefix_le(s: Seq<char>, k: int)
    requires
        0 <= k <= s.len(),
        digits_value(s) is Some,
    ensures
        digits_value(s.take(k)) is Some,
        digits_value(s.take(k))->0 <= digits_value(s)->0,
    decreases s.len() - k,
{
    if k == s.len() {
        assert(s.take(k) == s);
    } else {
        assert(s.take(k + 1).drop_last() == s.take(k));
        lemma_digits_prefix_le(s, k + 1);
    }
}

/// Reads an unsigned decimal number: an optional `+`, then digits only.
pub fn parse_usize(x: &str) -> (res: Option<usize>)
    ensures
        res == spec_parse_usize(x@),
{
    let n: usize = x.unicode_len();
    if n == 0 {
        return None;
    }
    let start: usize = if x.get_char(0) == '+' {
        1
    } else {
        0
    };
    if start == n {
        return None;
    }
    let ghost digits = x@.subrange(start as int, n as int);
    assert(digits == if x@[0] == '+' {
        x@.drop_first()
    } else {
        x@
    });
    let mut acc: usize = 0;
    let mut i: usize = start;
    while i < n
        invariant
            n == x@.len(),
            start <= i <= n,
            digits == x@.subrange(start as int, n as int),
            digits.len() > 0,
            digits == if x@[0] == '+' {
                x@.drop_first()
            } else {
                x@
            },
            digits_value(digits.take(i - start)) == Some(acc as nat),
        decreases n - i,
    {
        let c = x.get_char(i);
        let ghost before = digits.take(i - start);
        let ghost after = digits.take(i - start + 1);
        proof {
            assert(after.drop_last() == before);
        }
        if !(c >= '0' && c <= '9') {
            proof {
                lemma_digits_prefix_none(digits, i - start + 1);
            }
            return None;
        }
        let d: usize = (c as u32 - '0' as u32) as usize;
        if acc > (usize::MAX - d) / 10 {
            proof {
                if digits_value(digits) is Some {
                    lemma_digits_prefix_le(digits, i - start + 1);
                }
            }
            return None;
        }
        acc = acc * 10 + d;
        i = i + 1;
    }
    proof {
        assert(digits.take(n - start) == digits);
    }
    Some(acc)
}

/// Whether a number of threads is in the accepted range.
pub open spec fn threads_in_range(v: usize) -> bool {
    MIN_THREADS <= v <= MAX_THREADS
}

/// Reads the number of threads: an unsigned decimal number in `2..=65535`.
pub fn parse_threads(x: &str) -> (res: Result<usize, ArgError>)
    ensures
        match spec_parse_usize(x@) {
            Some(v) => if threads_in_range(v) {
                res == Ok::<usize, ArgError>(v)
            } else {
                res == Err::<usize, ArgError>(ArgError::ThreadsOutOfRange)
            },
            None => res == Err::<usize, ArgError>(ArgError::InvalidNumber),
        },
{
    match parse_usize(x) {
        Some(v) => {
            if v < MIN_THREADS || v > MAX_THREADS {
                Err(ArgError::ThreadsOutOfRange)
            } else {
                Ok(v)
            }
        },
        None => Err(ArgError::InvalidNumber),
    }
}

impl Default for Args {
    /// Settings with every switch off and every list empty. They name no
    /// path and no thread, so they cannot be run as they are.
    fn default() -> (args: Self)
        ensures
            !args.follow_symlinks,
            !args.one_filesystem,
            args.threads == 0,
            args.max_depth is None,
            args.name is None,
            args.regex is None,
            !args.case_insensitive,
            args.file_type@.len() == 0,
            args.path@.len() == 0,
    {
        Args {
            follow_symlinks: false,
            one_filesystem: false,
            threads: 0,
            max_depth: None,
            name: None,
            regex: None,
            case_insensitive: false,
            file_type: Vec::new(),
            path: Vec::new(),
        }
    }
}

impl Args {
    /// Whether the settings can be run: the number of threads is in range
    /// and there is a path to start from.
    pub open spec fn valid(&self) -> bool {
        threads_in_range(self.threads) && self.path@.len() > 0
    }

    /// Whether `error` is what validating these settings fails with: the
    /// number of threads is looked at first.
    pub open spec fn validate_fails_with(&self, error: ArgError) -> bool {
        if !threads_in_range(self.threads) {
            error == ArgError::ThreadsOutOfRange
        } else {
            self.path@.len() == 0 && error == ArgError::NoPath
        }
    }

    /// Validates the settings: says whether they can be run.
    pub fn validate(&self) -> (res: Result<(), ArgError>)
        ensures
            res is Ok <==> self.valid(),
            res matches Err(error) ==> self.validate_fails_with(error),
    {
        if self.threads < MIN_THREADS || self.threads > MAX_THREADS {
            Err(ArgError::ThreadsOutOfRange)
        } else if self.path.len() == 0 {
            Err(ArgError::NoPath)
        } else {
            Ok(())
        }
    }
}

/// Whether a path names a directory that exists and can be normalized.
#[inline]
pub fn directory_exists(x: &PathStatus) -> (exists: bool)
    ensures
        exists == (x.is_dir && x.normalized is Some),
{
    x.is_dir && x.normalized.is_some()
}

/// Accepts a path given as `x` where the file system says that it is an
/// existing directory, and gives its normalized form.
pub fn parse_paths(x: &str, status: PathStatus) -> (res: Result<Vec<u8>, ArgError>)
    ensures
        status.is_dir && status.normalized is Some ==> res == Ok::<Vec<u8>, ArgError>(
            status.normalized->0,
        ),
        !(status.is_dir && status.normalized is Some) ==> (res matches Err(
            ArgError::NotADirectory { path },
        ) && path@ == x@),
{
    let is_dir = status.is_dir;
    match status.normalized {
        Some(p) => {
            if is_dir {
                Ok(p)
            } else {
                Err(ArgError::NotADirectory { path: x.to_owned() })
            }
        },
        None => Err(ArgError::NotADirectory { path: x.to_owned() }),
    }
}

} // verus!
