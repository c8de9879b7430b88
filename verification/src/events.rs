//! Events, requests and error kinds that the coordinator works with.

use vstd::prelude::*;

verus! {

/// One lifecycle event of the running node, reduced to what the sync gate
/// cares about: the two synchronization milestones, and everything else.
/// Other events are observed and dropped; the sync gate never buffers them.
#[derive(Clone, Copy)]
pub enum SyncEvent {
    /// The on-chain wallet finished its initial synchronization.
    OnchainSyncCompleted,
    /// The gossip graph finished its initial synchronization.
    GossipSyncCompleted,
    /// Any other node event; irrelevant to the sync gate.
    Other,
}

/// Which synchronization milestones have been observed so far.
#[derive(Clone, Copy)]
pub struct SyncState {
    pub onchain_done: bool,
    pub gossip_done: bool,
}

/// What the caller asks the liquidity provider for: an invoice of this
/// amount and expiry, carrying this description.
pub struct InvoiceRequest {
    pub amount_msat: u64,
    pub description: String,
    pub expiry_seconds: u32,
}

/// Why a coordinator run failed.
#[derive(Clone, Copy, Debug)]
pub enum InvoiceErrorKind {
    /// The event stream closed before both sync milestones arrived; the
    /// node is unusable for invoice issuance in this run.
    SyncAbandoned,
    /// The provider (or the local check) rejected the description.
    InvalidDescription,
    /// The provider is not reachable over the network.
    LiquidityProviderUnreachable,
    /// The requested amount is outside the accepted range.
    AmountOutOfRange,
    /// A call arrived in a state that forbids it: before the sync gate
    /// opened, or after the coordinator reached a terminal state.
    NodeNotStarted,
}

/// The outcome of one coordinator run: the serialized payment request, or
/// the error kind, surfaced unchanged from the underlying request.
pub type InvoiceResult = Result<String, InvoiceErrorKind>;

/// Whether the events seen so far include the on-chain milestone.
pub open spec fn seen_onchain(events: Seq<SyncEvent>) -> bool {
    exists|i: int| 0 <= i < events.len() && events[i] is OnchainSyncCompleted
}

/// Whether the events seen so far include the gossip milestone.
pub open spec fn seen_gossip(events: Seq<SyncEvent>) -> bool {
    exists|i: int| 0 <= i < events.len() && events[i] is GossipSyncCompleted
}

/// Whether the events seen so far open the sync gate: both milestones have
/// been observed at least once, in either order.
pub open spec fn sync_complete_after(events: Seq<SyncEvent>) -> bool {
    seen_onchain(events) && seen_gossip(events)
}

} // verus!
