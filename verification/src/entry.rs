//! Directory entries as plain values.

use vstd::prelude::*;

verus! {

/// The kind of node a directory entry stands for.
#[derive(Clone, Copy, Debug, PartialEq, Eq, Structural)]
pub enum EntryType {
    File,
    Directory,
    Symlink,
    BlockDevice,
    CharDevice,
    Pipe,
    Socket,
    /// The kind could not be determined.
    Unknown,
}

/// What a look at an entry's contents gave.
#[derive(Clone, Copy, Debug, PartialEq, Eq, Structural)]
pub enum Probe {
    /// The contents were not looked at, or looking at them failed.
    Unknown,
    /// A direct, non-recursive listing of a directory was read up to this
    /// many entries: zero says that it holds none.
    Listed(usize),
    /// The node holds this many bytes.
    Sized(u64),
}

/// A node found by the traversal.
#[derive(Clone, Debug)]
pub struct DirEntry {
    /// The full path, as raw bytes.
    pub path: Vec<u8>,
    /// The last component of the path, as raw bytes.
    pub file_name: Vec<u8>,
    pub file_type: EntryType,
    pub probe: Probe,
}

/// The traversal could not resolve an entry.
#[derive(Clone, Copy, Debug, PartialEq, Eq, Structural)]
pub struct WalkError;

/// Whether a node of kind `file_type` with contents `probe` is empty: a
/// directory whose listing gave no entry, or any other node of zero bytes.
/// Contents that are not known never count as empty.
pub open spec fn spec_is_empty(file_type: EntryType, probe: Probe) -> bool {
    if file_type == EntryType::Directory {
        probe == Probe::Listed(0)
    } else {
        probe == Probe::Sized(0)
    }
}

impl DirEntry {
    /// Whether this entry is empty; see [`spec_is_empty`].
    pub fn is_empty(&self) -> (empty: bool)
        ensures
            empty == spec_is_empty(self.file_type, self.probe),
    {
        match self.file_type {
            EntryType::Directory => match self.probe {
                Probe::Listed(n) => n == 0,
                _ => false,
            },
            _ => match self.probe {
                Probe::Sized(n) => n == 0,
                _ => false,
            },
        }
    }
}

} // verus!
