//! The visitor that each traversal thread calls on every entry it finds.

use crate::channel::send_entry;
use crate::entry::{DirEntry, WalkError};
use crate::filetype::FileType;
use crossbeam_channel::Sender;
use std::sync::atomic::{AtomicBool, Ordering};
use vstd::prelude::*;

verus! {

/// What the traversal is told after a visit.
#[derive(Clone, Copy, Debug, PartialEq, Eq, Structural)]
pub enum WalkState {
    /// Go on.
    Continue,
    /// Do not descend into this directory.
    Skip,
    /// End the whole traversal.
    Quit,
}

/// One visit, as far as the decision depends on it.
pub struct Visit {
    /// The entry was resolved and passed the type predicate.
    pub accepted: bool,
    /// The channel took the entry.
    pub delivered: bool,
    /// The cancellation flag was set when it was read.
    pub cancelled: bool,
}

/// The decision after an entry was offered to the channel: go on only
/// if the channel took it and no stop was asked for.
pub open spec fn spec_after_send(delivered: bool, cancelled: bool) -> WalkState {
    if delivered && !cancelled {
        WalkState::Continue
    } else {
        WalkState::Quit
    }
}

/// The decision of a visit: an entry that is not accepted is passed over.
pub open spec fn spec_visit(visit: Visit) -> WalkState {
    if visit.accepted {
        spec_after_send(visit.delivered, visit.cancelled)
    } else {
        WalkState::Continue
    }
}

/// Whether the worker gets to make visit `i` of `visits`: no visit before
/// it ended the traversal.
pub open spec fn visit_is_made(visits: Seq<Visit>, i: int) -> bool {
    &&& 0 <= i < visits.len()
    &&& forall|j: int| 0 <= j < i ==> spec_visit(#[trigger] visits[j]) != WalkState::Quit
}

/// Whether the flag, once set, stays set.
pub open spec fn flag_is_monotonic(visits: Seq<Visit>) -> bool {
    forall|i: int, j: int|
        0 <= i <= j < visits.len() && (#[trigger] visits[i]).cancelled ==> (#[trigger] visits[j]).cancelled
}

/// The entry that a visit offers to the channel: the one that was resolved,
/// where it passes the type predicate.
pub open spec fn spec_offer(filter: FileType, input: Result<DirEntry, WalkError>) -> Option<
    DirEntry,
> {
    match input {
        Ok(entry) => if filter.accepts(entry.file_type, entry.probe) {
            Some(entry)
        } else {
            None
        },
        Err(_) => None,
    }
}

/// Picks the entry that a visit offers to the channel, if any.
pub fn offer(filter: &FileType, input: Result<DirEntry, WalkError>) -> (offered: Option<DirEntry>)
    ensures
        offered == spec_offer(*filter, input),
{
    match input {
        Ok(entry) => {
            if filter.ignore_filetype(&entry) {
                None
            } else {
                Some(entry)
            }
        },
        Err(_) => None,
    }
}

/// The decision after an entry was offered to the channel.
pub fn after_send(delivered: bool, cancelled: bool) -> (state: WalkState)
    ensures
        state == spec_after_send(delivered, cancelled),
{
    if !delivered {
        WalkState::Quit
    } else if cancelled {
        WalkState::Quit
    } else {
        WalkState::Continue
    }
}

/// Visits one entry: an entry that the traversal could not resolve, or that
/// fails the type predicate, is passed over without touching the channel.
/// Any other is sent to the writer, which may block; the traversal is ended
/// if the writer is gone or, after the send, the flag is found set.
pub fn visit(
    filter: &FileType,
    input: Result<DirEntry, WalkError>,
    tx: &Sender<DirEntry>,
    shutdown: &AtomicBool,
) -> (state: WalkState)
    ensures
        state != WalkState::Skip,
        spec_offer(*filter, input) is None ==> state == WalkState::Continue,
        spec_offer(*filter, input) is Some ==> exists|delivered: bool, cancelled: bool|
            state == #[trigger] spec_after_send(delivered, cancelled),
{
    match offer(filter, input) {
        None => WalkState::Continue,
        Some(entry) => {
            match send_entry(tx, entry) {
                Ok(()) => {
                    let cancelled = shutdown.load(Ordering::Relaxed);
                    let state = after_send(true, cancelled);
                    state
                },
                Err(_) => {
                    let state = after_send(false, false);
                    state
                },
            }
        },
    }
}

/// After the flag is set a worker delivers at most one more entry, and that
/// entry is its last: of two later visits that are both made, the first did
/// not deliver.
pub proof fn lemma_cancellation_is_bounded(visits: Seq<Visit>, set_at: int, first: int, second: int)
    requires
        flag_is_monotonic(visits),
        0 <= set_at <= first < second < visits.len(),
        visits[set_at].cancelled,
        visit_is_made(visits, second),
    ensures
        !(visits[first].accepted && visits[first].delivered),
{
    // The flag was set when visit `first` read it, so a delivery would have
    // ended the traversal there.
    assert(visits[first].cancelled);
    assert(spec_visit(visits[first]) != WalkState::Quit);
}

/// A worker whose channel is closed stops at its next accepted entry: no
/// visit is made after one that was accepted and not delivered.
pub proof fn lemma_closed_channel_stops(visits: Seq<Visit>, first: int, second: int)
    requires
        0 <= first < second < visits.len(),
        visit_is_made(visits, second),
    ensures
        !(visits[first].accepted && !visits[first].delivered),
{
    assert(spec_visit(visits[first]) != WalkState::Quit);
}

} // verus!
