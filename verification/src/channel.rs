//! The bounded channel that carries accepted entries from the traversal
//! workers to the writer.

use crate::entry::DirEntry;
use crossbeam_channel::{Receiver, Sender};
use vstd::prelude::*;

verus! {

#[verifier::external_type_specification]
#[verifier::external_body]
#[verifier::reject_recursive_types(T)]
pub struct ExSender<T>(Sender<T>);

#[verifier::external_type_specification]
#[verifier::external_body]
#[verifier::reject_recursive_types(T)]
pub struct ExReceiver<T>(Receiver<T>);

/// The number of entries that a channel buffers before a send blocks.
pub uninterp spec fn sender_capacity(tx: Sender<DirEntry>) -> Option<usize>;

/// Buffered entries per traversal thread.
pub const ENTRIES_PER_WORKER: usize = 16;

/// The largest capacity that a channel is made with: that of a run with
/// the largest accepted number of threads.
pub const MAX_CAPACITY: usize = 1_048_544;

/// The capacity of the channel for a run of `threads` threads: 16 for every
/// thread but the writer's.
pub open spec fn spec_channel_capacity(threads: usize) -> int {
    ENTRIES_PER_WORKER * (threads - 1)
}

/// The capacity of the channel for a run of `threads` threads.
pub fn channel_capacity(threads: usize) -> (capacity: usize)
    requires
        threads >= 1,
        spec_channel_capacity(threads) <= usize::MAX,
    ensures
        capacity == spec_channel_capacity(threads),
{
    ENTRIES_PER_WORKER * (threads - 1)
}

/// `crossbeam_channel::bounded`: a channel that buffers `capacity` entries.
/// The capacity is kept far below the size at which the call panics.
#[verifier::external_body]
fn bounded_channel(capacity: usize) -> (ends: (Sender<DirEntry>, Receiver<DirEntry>))
    requires
        capacity <= MAX_CAPACITY,
    ensures
        sender_capacity(ends.0) == Some(capacity),
{
    crossbeam_channel::bounded(capacity)
}

/// `Sender::send`: blocks while the channel is full, and fails only when
/// the receiving side is gone; the entry then comes back.
#[verifier::external_body]
pub(crate) fn send_entry(tx: &Sender<DirEntry>, entry: DirEntry) -> (res: Result<(), DirEntry>)
    ensures
        res matches Err(back) ==> back == entry,
{
    tx.send(entry).map_err(|error| error.0)
}

/// Makes the channel for a run of `threads` threads, the writer's included.
/// A full channel blocks the sender; it never drops an entry.
pub fn entry_channel(threads: usize) -> (ends: (Sender<DirEntry>, Receiver<DirEntry>))
    requires
        threads >= 1,
        spec_channel_capacity(threads) <= MAX_CAPACITY,
    ensures
        sender_capacity(ends.0) == Some(spec_channel_capacity(threads) as usize),
{
    bounded_channel(channel_capacity(threads))
}

} // verus!
