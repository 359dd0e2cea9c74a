//! The file-type filter.

use crate::args;
use crate::entry::{spec_is_empty, DirEntry, EntryType, Probe};
use vstd::prelude::*;

verus! {

/// The set of accepted categories.
#[derive(Clone, Copy, Debug, PartialEq, Eq, Structural)]
pub struct FileType {
    pub file: bool,
    pub directory: bool,
    pub symlink: bool,
    pub block_device: bool,
    pub char_device: bool,
    pub pipe: bool,
    pub socket: bool,
    /// When set, an entry must also be empty to be kept.
    pub empty: bool,
}

impl Default for FileType {
    /// The filter that accepts nothing.
    fn default() -> (filetype: Self)
        ensures
            filetype == (FileType {
                file: false,
                directory: false,
                symlink: false,
                block_device: false,
                char_device: false,
                pipe: false,
                socket: false,
                empty: false,
            }),
    {
        FileType {
            file: false,
            directory: false,
            symlink: false,
            block_device: false,
            char_device: false,
            pipe: false,
            socket: false,
            empty: false,
        }
    }
}

impl FileType {
    /// Whether the flag of the category that `file_type` falls under is set.
    /// No flag stands for an unknown kind.
    pub open spec fn enables(&self, file_type: EntryType) -> bool {
        match file_type {
            EntryType::File => self.file,
            EntryType::Directory => self.directory,
            EntryType::Symlink => self.symlink,
            EntryType::BlockDevice => self.block_device,
            EntryType::CharDevice => self.char_device,
            EntryType::Pipe => self.pipe,
            EntryType::Socket => self.socket,
            EntryType::Unknown => false,
        }
    }

    /// Whether an entry of kind `file_type` with contents `probe` is kept.
    pub open spec fn accepts(&self, file_type: EntryType, probe: Probe) -> bool {
        self.enables(file_type) && (self.empty ==> spec_is_empty(file_type, probe))
    }

    /// The filter that a list of requested categories stands for.
    pub open spec fn spec_new(requested: Seq<args::FileType>) -> FileType {
        let implied = requested.contains(args::FileType::Empty)
            && !requested.contains(args::FileType::File)
            && !requested.contains(args::FileType::Directory);
        FileType {
            file: requested.contains(args::FileType::File) || implied,
            directory: requested.contains(args::FileType::Directory) || implied,
            symlink: requested.contains(args::FileType::Symlink),
            block_device: requested.contains(args::FileType::BlockDevice),
            char_device: requested.contains(args::FileType::CharDevice),
            pipe: requested.contains(args::FileType::Pipe),
            socket: requested.contains(args::FileType::Socket),
            empty: requested.contains(args::FileType::Empty),
        }
    }

    /// Builds the filter from the requested categories. A category is
    /// accepted when it occurs in the list. Where emptiness is requested
    /// but neither files nor directories are, both are accepted too.
    pub fn new(clap_filetype: &Vec<args::FileType>) -> (filetype: Self)
        ensures
            filetype == Self::spec_new(clap_filetype@),
    {
        let mut filetype = Self::default();
        let n: usize = clap_filetype.len();
        let mut i: usize = 0;
        while i < n
            invariant
                n == clap_filetype@.len(),
                i <= n,
                filetype.file == clap_filetype@.take(i as int).contains(args::FileType::File),
                filetype.directory == clap_filetype@.take(i as int).contains(
                    args::FileType::Directory,
                ),
                filetype.symlink == clap_filetype@.take(i as int).contains(
                    args::FileType::Symlink,
                ),
                filetype.block_device == clap_filetype@.take(i as int).contains(
                    args::FileType::BlockDevice,
                ),
                filetype.char_device == clap_filetype@.take(i as int).contains(
                    args::FileType::CharDevice,
                ),
                filetype.pipe == clap_filetype@.take(i as int).contains(args::FileType::Pipe),
                filetype.socket == clap_filetype@.take(i as int).contains(args::FileType::Socket),
                filetype.empty == clap_filetype@.take(i as int).contains(args::FileType::Empty),
            decreases n - i,
        {
            let ghost before = clap_filetype@.take(i as int);
            let ghost after = clap_filetype@.take(i + 1);
            proof {
                assert(after == before.push(clap_filetype@[i as int]));
                assert forall|v: args::FileType|
                    after.contains(v) <==> (before.contains(v) || v == clap_filetype@[i as int])
                by {
                    if before.contains(v) {
                        let j = choose|j: int| 0 <= j < before.len() && before[j] == v;
                        assert(after[j] == v);
                    }
                    if v == clap_filetype@[i as int] {
                        assert(after[i as int] == v);
                    }
                }
            }
            match clap_filetype[i] {
                args::FileType::File => filetype.file = true,
                args::FileType::Directory => filetype.directory = true,
                args::FileType::Symlink => filetype.symlink = true,
                args::FileType::BlockDevice => filetype.block_device = true,
                args::FileType::CharDevice => filetype.char_device = true,
                args::FileType::Pipe => filetype.pipe = true,
                args::FileType::Socket => filetype.socket = true,
                args::FileType::Empty => filetype.empty = true,
            }
            i = i + 1;
        }
        proof {
            assert(clap_filetype@.take(n as int) == clap_filetype@);
        }
        if filetype.empty && !filetype.file && !filetype.directory {
            filetype.file = true;
            filetype.directory = true;
        }
        filetype
    }

    /// Whether the contents of an entry of kind `file_type` have to be looked
    /// at before the filter can decide: emptiness is asked for and the kind
    /// is accepted. In every other case the decision is the same whatever
    /// the contents are.
    pub fn needs_probe(&self, file_type: EntryType) -> (needed: bool)
        ensures
            needed == (self.empty && self.enables(file_type)),
            !needed ==> forall|p: Probe, q: Probe|
                self.accepts(file_type, p) == self.accepts(file_type, q),
    {
        if !self.empty {
            return false;
        }
        match file_type {
            EntryType::File => self.file,
            EntryType::Directory => self.directory,
            EntryType::Symlink => self.symlink,
            EntryType::BlockDevice => self.block_device,
            EntryType::CharDevice => self.char_device,
            EntryType::Pipe => self.pipe,
            EntryType::Socket => self.socket,
            EntryType::Unknown => false,
        }
    }

    /// Whether `dir_entry` is dropped: its kind is unknown, the flag of its
    /// kind is not set, or emptiness is asked for and the entry is not
    /// known to be empty.
    pub fn ignore_filetype(&self, dir_entry: &DirEntry) -> (ignored: bool)
        ensures
            ignored == !self.accepts(dir_entry.file_type, dir_entry.probe),
    {
        let enabled = match dir_entry.file_type {
            EntryType::File => self.file,
            EntryType::Directory => self.directory,
            EntryType::Symlink => self.symlink,
            EntryType::BlockDevice => self.block_device,
            EntryType::CharDevice => self.char_device,
            EntryType::Pipe => self.pipe,
            EntryType::Socket => self.socket,
            EntryType::Unknown => false,
        };
        if !enabled {
            true
        } else if self.empty {
            !dir_entry.is_empty()
        } else {
            false
        }
    }
}

} // verus!
