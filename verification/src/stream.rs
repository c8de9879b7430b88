//! The live sync gate: consume milestone events from the channel that the
//! node's event pump fills. One call drains a bounded number of events, so
//! the caller that owns the process lifetime decides how long to keep
//! waiting; everything the sync gate concludes from each event is verified.

use vstd::prelude::*;

use crate::coordinator::Coordinator;
use crate::events::{SyncEvent, SyncState};

verus! {

#[verifier::external_type_specification]
#[verifier::external_body]
#[verifier::reject_recursive_types(T)]
pub struct ExReceiver<T>(crossbeam_channel::Receiver<T>);

/// Relies on crossbeam_channel::Receiver::recv: it blocks until a message
/// arrives, and returns an error exactly when the channel is empty and all
/// senders have been dropped. What arrives depends on the producer thread,
/// so nothing is promised of the result.
#[verifier::external_body]
fn recv_event(rx: &crossbeam_channel::Receiver<SyncEvent>) -> (r: Option<SyncEvent>) {
    match rx.recv() {
        Ok(ev) => Some(ev),
        Err(_) => None,
    }
}

/// What one bounded wait on the live stream ended with.
pub enum SyncPoll {
    /// Both milestones have now been observed; the sync gate is open.
    GateOpened(SyncState),
    /// The stream closed before the sync gate opened; the run is abandoned.
    StreamClosed,
    /// The budget ran out first; the caller may poll again.
    StillWaiting,
}

/// Block on `rx` until the sync gate opens or the stream closes, but
/// consume at most `max_events` events before handing control back. The
/// caller loops while this returns `StillWaiting`; each event's effect on
/// the sync gate is decided by the coordinator.
pub fn poll_initial_sync(
    coord: &mut Coordinator,
    rx: &crossbeam_channel::Receiver<SyncEvent>,
    max_events: usize,
) -> (r: SyncPoll)
    requires
        old(coord).wf(),
        old(coord).phase is AwaitingSync,
    ensures
        final(coord).wf(),
        r matches SyncPoll::GateOpened(st) ==> {
            &&& st.onchain_done && st.gossip_done
            &&& final(coord).phase is SyncComplete
            &&& final(coord).sync == st
        },
        r is StreamClosed ==> final(coord).phase is Failed,
        r is StillWaiting ==> final(coord).phase is AwaitingSync,
{
    let mut consumed: usize = 0;
    while consumed < max_events
        invariant
            coord.wf(),
            coord.phase is AwaitingSync,
            consumed <= max_events,
        decreases max_events - consumed,
    {
        match recv_event(rx) {
            Some(ev) => {
                let done = coord.on_event(ev);
                consumed = consumed + 1;
                if done {
                    return SyncPoll::GateOpened(coord.sync);
                }
            }
            None => {
                coord.on_stream_closed();
                return SyncPoll::StreamClosed;
            }
        }
    }
    SyncPoll::StillWaiting
}

} // verus!
