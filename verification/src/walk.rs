//! The traversal: its root paths and how the walker is set up.

use crate::args::Args;
use bstr::ByteSlice;
use ignore::{WalkBuilder, WalkParallel};
use vstd::prelude::*;

verus! {

#[verifier::external_type_specification]
#[verifier::external_body]
pub struct ExWalkBuilder(WalkBuilder);

#[verifier::external_type_specification]
#[verifier::external_body]
pub struct ExWalkParallel(WalkParallel);

/// What a walker is set up with.
pub struct WalkSettings {
    /// The paths to start from, in order, each as the bytes that it was
    /// made from.
    pub roots: Seq<Seq<u8>>,
    /// Skip hidden entries.
    pub hidden: bool,
    /// Read ignore files from parent directories.
    pub parents: bool,
    /// Respect `.ignore` files.
    pub ignore: bool,
    /// Respect `.gitignore` files.
    pub git_ignore: bool,
    /// Respect the global gitignore file.
    pub git_global: bool,
    /// Respect `.git/info/exclude` files.
    pub git_exclude: bool,
    pub follow_links: bool,
    pub same_file_system: bool,
    pub max_depth: Option<usize>,
    pub min_depth: Option<usize>,
    /// Number of traversal threads; zero lets the walker choose.
    pub threads: usize,
}

/// What a builder has been set up with so far.
pub uninterp spec fn walk_builder_settings(builder: WalkBuilder) -> WalkSettings;

/// What a walker was built with.
pub uninterp spec fn walker_settings(walker: WalkParallel) -> WalkSettings;

/// The bytes of each path of a list.
pub open spec fn byte_paths(paths: Seq<Vec<u8>>) -> Seq<Seq<u8>> {
    Seq::new(paths.len(), |i: int| paths[i]@)
}

/// A list of paths without its repeats: of paths that are equal byte for
/// byte, only the first stays, in its place.
pub open spec fn spec_unique(paths: Seq<Seq<u8>>) -> Seq<Seq<u8>>
    decreases paths.len(),
{
    if paths.len() == 0 {
        Seq::empty()
    } else {
        let before = spec_unique(paths.drop_last());
        if before.contains(paths.last()) {
            before
        } else {
            before.push(paths.last())
        }
    }
}

/// Removing repeats keeps exactly the paths that occur, each once, and
/// changes nothing in a list that has no repeats.
pub proof fn lemma_unique(paths: Seq<Seq<u8>>)
    ensures
        forall|p: Seq<u8>| spec_unique(paths).contains(p) <==> paths.contains(p),
        spec_unique(paths).no_duplicates(),
        paths.no_duplicates() ==> spec_unique(paths) == paths,
    decreases paths.len(),
{
    if paths.len() > 0 {
        let head = paths.drop_last();
        let before = spec_unique(head);
        let after = spec_unique(paths);
        lemma_unique(head);
        assert forall|p: Seq<u8>| after.contains(p) <==> paths.contains(p) by {
            if paths.contains(p) {
                let j = choose|j: int| 0 <= j < paths.len() && paths[j] == p;
                if j < head.len() {
                    assert(head[j] == p);
                    assert(head.contains(p));
                    let k = choose|k: int| 0 <= k < before.len() && before[k] == p;
                    assert(after[k] == p);
                } else if !before.contains(paths.last()) {
                    assert(after[before.len() as int] == p);
                }
            }
            if after.contains(p) {
                let k = choose|k: int| 0 <= k < after.len() && after[k] == p;
                if k < before.len() {
                    assert(before.contains(p));
                    assert(head.contains(p));
                }
            }
        }
    }
}

/// Whether two runs of bytes are the same.
pub fn same_bytes(a: &[u8], b: &[u8]) -> (same: bool)
    ensures
        same == (a@ == b@),
{
    if a.len() != b.len() {
        return false;
    }
    let n: usize = a.len();
    let mut i: usize = 0;
    while i < n
        invariant
            n == a@.len(),
            n == b@.len(),
            i <= n,
            forall|j: int| 0 <= j < i ==> a@[j] == b@[j],
        decreases n - i,
    {
        if a[i] != b[i] {
            return false;
        }
        i = i + 1;
    }
    assert(a@ =~= b@);
    true
}

/// Whether `path` occurs in `list`.
fn contains_path(list: &Vec<Vec<u8>>, path: &[u8]) -> (found: bool)
    ensures
        found == byte_paths(list@).contains(path@),
{
    let n: usize = list.len();
    let mut i: usize = 0;
    while i < n
        invariant
            n == list@.len(),
            i <= n,
            forall|j: int| 0 <= j < i ==> byte_paths(list@)[j] != path@,
        decreases n - i,
    {
        if same_bytes(list[i].as_slice(), path) {
            assert(byte_paths(list@)[i as int] == path@);
            return true;
        }
        i = i + 1;
    }
    false
}

/// The root paths without repeats: of equal paths only the first stays.
/// Every path that was given is still there, exactly once.
pub fn unique_paths(paths: &[Vec<u8>]) -> (unique: Vec<Vec<u8>>)
    ensures
        byte_paths(unique@) == spec_unique(byte_paths(paths@)),
        byte_paths(unique@).no_duplicates(),
        forall|p: Seq<u8>| byte_paths(unique@).contains(p) <==> byte_paths(paths@).contains(p),
{
    let mut unique: Vec<Vec<u8>> = Vec::new();
    let n: usize = paths.len();
    let mut i: usize = 0;
    while i < n
        invariant
            n == paths@.len(),
            i <= n,
            byte_paths(unique@) == spec_unique(byte_paths(paths@).take(i as int)),
        decreases n - i,
    {
        let ghost head = byte_paths(paths@).take(i as int);
        let ghost next = byte_paths(paths@).take(i + 1);
        let ghost kept = byte_paths(unique@);
        proof {
            assert(next.drop_last() == head);
        }
        if !contains_path(&unique, paths[i].as_slice()) {
            unique.push(paths[i].clone());
            assert(byte_paths(unique@) == kept.push(paths@[i as int]@));
        }
        i = i + 1;
    }
    proof {
        assert(byte_paths(paths@).take(n as int) == byte_paths(paths@));
        lemma_unique(byte_paths(paths@));
    }
    unique
}

/// `WalkBuilder::new`, on the path that `ByteSlice::to_path_lossy` makes of
/// `root` (on Unix, the same bytes): a builder with that one root and the
/// defaults of the `ignore` crate.
#[verifier::external_body]
fn new_builder(root: &[u8]) -> (builder: WalkBuilder)
    ensures
        walk_builder_settings(builder) == (WalkSettings {
            roots: seq![root@],
            hidden: true,
            parents: true,
            ignore: true,
            git_ignore: true,
            git_global: true,
            git_exclude: true,
            follow_links: false,
            same_file_system: false,
            max_depth: None,
            min_depth: None,
            threads: 0,
        }),
{
    WalkBuilder::new(root.to_path_lossy())
}

/// `WalkBuilder::add`, on a path made as in [`new_builder`]: one more root,
/// after those already there.
#[verifier::external_body]
fn add_root(builder: &mut WalkBuilder, root: &[u8])
    ensures
        walk_builder_settings(*final(builder)) == (WalkSettings {
            roots: walk_builder_settings(*old(builder)).roots.push(root@),
            ..walk_builder_settings(*old(builder))
        }),
{
    builder.add(root.to_path_lossy());
}

/// `WalkBuilder::hidden`.
#[verifier::external_body]
fn set_hidden(builder: &mut WalkBuilder, yes: bool)
    ensures
        walk_builder_settings(*final(builder)) == (WalkSettings {
            hidden: yes,
            ..walk_builder_settings(*old(builder))
        }),
{
    builder.hidden(yes);
}

/// `WalkBuilder::standard_filters`: switches the six filters that are on by
/// default, all at once.
#[verifier::external_body]
fn set_standard_filters(builder: &mut WalkBuilder, yes: bool)
    ensures
        walk_builder_settings(*final(builder)) == (WalkSettings {
            hidden: yes,
            parents: yes,
            ignore: yes,
            git_ignore: yes,
            git_global: yes,
            git_exclude: yes,
            ..walk_builder_settings(*old(builder))
        }),
{
    builder.standard_filters(yes);
}

/// `WalkBuilder::follow_links`.
#[verifier::external_body]
fn set_follow_links(builder: &mut WalkBuilder, yes: bool)
    ensures
        walk_builder_settings(*final(builder)) == (WalkSettings {
            follow_links: yes,
            ..walk_builder_settings(*old(builder))
        }),
{
    builder.follow_links(yes);
}

/// `WalkBuilder::same_file_system`.
#[verifier::external_body]
fn set_same_file_system(builder: &mut WalkBuilder, yes: bool)
    ensures
        walk_builder_settings(*final(builder)) == (WalkSettings {
            same_file_system: yes,
            ..walk_builder_settings(*old(builder))
        }),
{
    builder.same_file_system(yes);
}

/// `WalkBuilder::max_depth`, on a builder without a minimum depth: the
/// maximum depth becomes the one given.
#[verifier::external_body]
fn set_max_depth(builder: &mut WalkBuilder, depth: Option<usize>)
    requires
        walk_builder_settings(*old(builder)).min_depth is None,
    ensures
        walk_builder_settings(*final(builder)) == (WalkSettings {
            max_depth: depth,
            ..walk_builder_settings(*old(builder))
        }),
{
    builder.max_depth(depth);
}

/// `WalkBuilder::threads`.
#[verifier::external_body]
fn set_threads(builder: &mut WalkBuilder, n: usize)
    ensures
        walk_builder_settings(*final(builder)) == (WalkSettings {
            threads: n,
            ..walk_builder_settings(*old(builder))
        }),
{
    builder.threads(n);
}

/// `WalkBuilder::build_parallel`: a parallel walker with the builder's
/// settings.
#[verifier::external_body]
fn build_parallel(builder: &WalkBuilder) -> (walker: WalkParallel)
    ensures
        walker_settings(walker) == walk_builder_settings(*builder),
{
    builder.build_parallel()
}

/// The settings of the walker for one run: every root in order, no hidden
/// or ignore-file filtering, and one thread fewer than the run has, since
/// one is kept for the writer.
pub open spec fn spec_walk_settings(args: Args, roots: Seq<Seq<u8>>) -> WalkSettings {
    WalkSettings {
        roots,
        hidden: false,
        parents: false,
        ignore: false,
        git_ignore: false,
        git_global: false,
        git_exclude: false,
        follow_links: args.follow_symlinks,
        same_file_system: args.one_filesystem,
        max_depth: args.max_depth,
        min_depth: None,
        threads: (args.threads - 1) as usize,
    }
}

/// Builds the parallel walker over `paths` as `args` asks.
pub fn build_walker(args: &Args, paths: &[Vec<u8>]) -> (walker: WalkParallel)
    requires
        paths@.len() > 0,
        args.threads >= 1,
    ensures
        walker_settings(walker) == spec_walk_settings(*args, byte_paths(paths@)),
{
    let mut builder = new_builder(paths[0].as_slice());
    set_hidden(&mut builder, false);
    set_standard_filters(&mut builder, false);
    set_follow_links(&mut builder, args.follow_symlinks);
    set_same_file_system(&mut builder, args.one_filesystem);
    set_max_depth(&mut builder, args.max_depth);
    let n: usize = paths.len();
    let mut i: usize = 1;
    assert(byte_paths(paths@.take(1)) == seq![paths@[0]@]);
    while i < n
        invariant
            n == paths@.len(),
            1 <= i <= n,
            walk_builder_settings(builder) == (WalkSettings {
                roots: byte_paths(paths@.take(i as int)),
                threads: 0,
                ..spec_walk_settings(*args, byte_paths(paths@))
            }),
        decreases n - i,
    {
        add_root(&mut builder, paths[i].as_slice());
        proof {
            assert(byte_paths(paths@.take(i + 1)) == byte_paths(paths@.take(i as int)).push(
                paths@[i as int]@,
            ));
        }
        i = i + 1;
    }
    proof {
        assert(paths@.take(n as int) == paths@);
    }
    // One thread is kept for the writer.
    set_threads(&mut builder, args.threads - 1);
    build_parallel(&builder)
}

} // verus!
