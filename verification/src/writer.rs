//! The writer's step: what one received entry adds to the output.

use crate::entry::DirEntry;
use crate::filter::{passes_name, passes_path, spec_passes_name, spec_passes_path, FilterConfig};
use crate::regex::path_to_bytes;
use vstd::prelude::*;

verus! {

/// The byte that ends every line of output.
pub const LINE_END: u8 = 10;

/// The line of an entry: its path, then a line feed.
pub open spec fn spec_line(entry: DirEntry) -> Seq<u8> {
    entry.path@.push(LINE_END)
}

/// What an entry adds to the output: its line where it passes the name and
/// the path predicate, else nothing.
pub open spec fn spec_written(config: FilterConfig, entry: DirEntry) -> Seq<u8> {
    if spec_passes_name(entry.file_name@, config.name_matcher) && spec_passes_path(
        entry.path@,
        config.path_matcher,
    ) {
        spec_line(entry)
    } else {
        Seq::empty()
    }
}

/// Appends the line of `entry` to `out`.
pub fn write_line(entry: &DirEntry, out: &mut Vec<u8>)
    ensures
        final(out)@ == old(out)@ + spec_line(*entry),
{
    out.extend_from_slice(entry.path.as_slice());
    out.push(LINE_END);
}

/// Appends to `out` what a received entry adds to the output: the name
/// predicate is tried first, then the path predicate.
pub fn write_entry(config: &FilterConfig, entry: &DirEntry, out: &mut Vec<u8>)
    ensures
        final(out)@ == old(out)@ + spec_written(*config, *entry),
{
    if !passes_name(entry.file_name.as_slice(), &config.name_matcher) {
        return ;
    }
    if !passes_path(path_to_bytes(entry), &config.path_matcher) {
        return ;
    }
    write_line(entry, out);
}

} // verus!
