//! The coordinator: a state machine that gates invoice creation on the two
//! synchronization milestones and then records the outcome of exactly one
//! invoice request.

use vstd::prelude::*;

use crate::events::{
    sync_complete_after, seen_gossip, seen_onchain, InvoiceErrorKind, InvoiceRequest,
    InvoiceResult, SyncEvent, SyncState,
};

verus! {

/// Where one coordinator run stands. Transitions move only forward:
/// `AwaitingSync` to `SyncComplete` once both milestones are in, then
/// `InvoiceRequested` on a request, and from there to one of the two
/// terminal states, `InvoiceIssued` or `Failed`. `Failed` is also reached
/// from `AwaitingSync` when the event stream closes early.
#[derive(Clone, Copy)]
pub enum Phase {
    AwaitingSync,
    SyncComplete,
    InvoiceRequested,
    InvoiceIssued,
    Failed,
}

/// One invoice-issuance cycle: tracks the milestones, opens the sync gate, and
/// records the single request's outcome. Not restartable.
pub struct Coordinator {
    pub phase: Phase,
    pub sync: SyncState,
}

impl Coordinator {
    /// Every phase from `SyncComplete` onward has both milestones in;
    /// while the sync gate is still closed, at least one is missing.
    pub open spec fn wf(self) -> bool {
        match self.phase {
            Phase::AwaitingSync => !(self.sync.onchain_done && self.sync.gossip_done),
            Phase::SyncComplete => self.sync.onchain_done && self.sync.gossip_done,
            Phase::InvoiceRequested => self.sync.onchain_done && self.sync.gossip_done,
            Phase::InvoiceIssued => self.sync.onchain_done && self.sync.gossip_done,
            Phase::Failed => true,
        }
    }

    /// A coordinator that has consumed nothing yet.
    pub open spec fn fresh(self) -> bool {
        self.phase is AwaitingSync && !self.sync.onchain_done && !self.sync.gossip_done
    }

    pub fn new() -> (c: Coordinator)
        ensures
            c.fresh(),
            c.wf(),
    {
        Coordinator {
            phase: Phase::AwaitingSync,
            sync: SyncState { onchain_done: false, gossip_done: false },
        }
    }

    /// Consume one event: a milestone sets its flag, anything else is
    /// dropped. The sync gate opens, and the call reports it, exactly when both
    /// flags have become true.
    pub fn on_event(&mut self, ev: SyncEvent) -> (done: bool)
        requires
            old(self).wf(),
            old(self).phase is AwaitingSync,
        ensures
            final(self).wf(),
            final(self).sync.onchain_done == (old(self).sync.onchain_done
                || ev is OnchainSyncCompleted),
            final(self).sync.gossip_done == (old(self).sync.gossip_done
                || ev is GossipSyncCompleted),
            final(self).phase == (if final(self).sync.onchain_done
                && final(self).sync.gossip_done {
                Phase::SyncComplete
            } else {
                Phase::AwaitingSync
            }),
            done == (final(self).phase is SyncComplete),
    {
        match ev {
            SyncEvent::OnchainSyncCompleted => {
                self.sync.onchain_done = true;
            }
            SyncEvent::GossipSyncCompleted => {
                self.sync.gossip_done = true;
            }
            SyncEvent::Other => {}
        }
        if self.sync.onchain_done && self.sync.gossip_done {
            self.phase = Phase::SyncComplete;
            true
        } else {
            false
        }
    }

    /// The event stream closed while the sync gate was still waiting: this run
    /// can never issue an invoice.
    pub fn on_stream_closed(&mut self)
        requires
            old(self).wf(),
            old(self).phase is AwaitingSync,
        ensures
            final(self).wf(),
            final(self).phase is Failed,
            final(self).sync == old(self).sync,
    {
        self.phase = Phase::Failed;
    }

    /// Run the sync gate over the event stream as it was delivered: a
    /// finite sequence, ending where the producer terminated. Consumes
    /// events in order and stops at the first prefix that holds both
    /// milestones, returning the state then reached and how many events
    /// were consumed; never earlier, and never later. If the whole stream
    /// closes without completing the sync gate, the run is abandoned.
    pub fn await_initial_sync(&mut self, events: &Vec<SyncEvent>) -> (r: Result<
        (SyncState, usize),
        InvoiceErrorKind,
    >)
        requires
            old(self).fresh(),
        ensures
            final(self).wf(),
            r is Ok <==> sync_complete_after(events@),
            r matches Ok((st, n)) ==> {
                &&& st.onchain_done && st.gossip_done
                &&& n <= events@.len()
                &&& sync_complete_after(events@.subrange(0, n as int))
                &&& forall|m: int| 0 <= m < n ==> !sync_complete_after(events@.subrange(0, m))
                &&& final(self).phase is SyncComplete
                &&& final(self).sync == st
            },
            r is Err ==> {
                &&& r == Err::<(SyncState, usize), InvoiceErrorKind>(
                    InvoiceErrorKind::SyncAbandoned,
                )
                &&& final(self).phase is Failed
            },
    {
        let n = events.len();
        let mut i: usize = 0;
        while i < n
            invariant
                n == events@.len(),
                0 <= i <= n,
                self.wf(),
                self.phase is AwaitingSync,
                self.sync.onchain_done == seen_onchain(events@.subrange(0, i as int)),
                self.sync.gossip_done == seen_gossip(events@.subrange(0, i as int)),
                forall|m: int| 0 <= m <= i ==> !sync_complete_after(events@.subrange(0, m)),
            decreases n - i,
        {
            let ev = events[i];
            proof {
                lemma_seen_extend(events@, i as int);
            }
            let done = self.on_event(ev);
            i = i + 1;
            if done {
                return Ok((self.sync, i));
            }
        }
        proof {
            assert(events@.subrange(0, n as int) =~= events@);
        }
        self.on_stream_closed();
        Err(InvoiceErrorKind::SyncAbandoned)
    }

    /// Ask for the invoice request to be issued. Succeeds, moving the run
    /// to `InvoiceRequested`, exactly when the sync gate is open and the request
    /// passes the local checks: a positive amount and a non-empty
    /// description (the provider enforces its own description limit). Any
    /// other phase, earlier or terminal, is a caller error: the run is left
    /// as it stands and no request goes out.
    pub fn request_jit_invoice(&mut self, req: &InvoiceRequest) -> (r: Result<
        (),
        InvoiceErrorKind,
    >)
        requires
            old(self).wf(),
        ensures
            final(self).wf(),
            final(self).sync == old(self).sync,
            r is Ok <==> (old(self).phase is SyncComplete && req.amount_msat > 0
                && req.description@.len() > 0),
            r is Ok ==> final(self).phase is InvoiceRequested,
            r is Err ==> final(self).phase == old(self).phase,
            !(old(self).phase is SyncComplete) ==> r == Err::<(), InvoiceErrorKind>(
                InvoiceErrorKind::NodeNotStarted,
            ),
            old(self).phase is SyncComplete && req.amount_msat == 0 ==> r == Err::<
                (),
                InvoiceErrorKind,
            >(InvoiceErrorKind::AmountOutOfRange),
            old(self).phase is SyncComplete && req.amount_msat > 0 && req.description@.len() == 0
                ==> r == Err::<(), InvoiceErrorKind>(InvoiceErrorKind::InvalidDescription),
    {
        match self.phase {
            Phase::SyncComplete => {
                if req.amount_msat == 0 {
                    Err(InvoiceErrorKind::AmountOutOfRange)
                } else if req.description.as_str().is_empty() {
                    Err(InvoiceErrorKind::InvalidDescription)
                } else {
                    self.phase = Phase::InvoiceRequested;
                    Ok(())
                }
            }
            _ => Err(InvoiceErrorKind::NodeNotStarted),
        }
    }

    /// Record what the single request came back with: the serialized
    /// payment request moves the run to `InvoiceIssued`, an error kind to
    /// `Failed`. Either way the outcome is surfaced unchanged.
    pub fn record_invoice_outcome(&mut self, outcome: Result<String, InvoiceErrorKind>) -> (r:
        InvoiceResult)
        requires
            old(self).wf(),
            old(self).phase is InvoiceRequested,
        ensures
            final(self).wf(),
            final(self).sync == old(self).sync,
            r == outcome,
            outcome is Ok ==> final(self).phase is InvoiceIssued,
            outcome is Err ==> final(self).phase is Failed,
    {
        match outcome {
            Ok(s) => {
                self.phase = Phase::InvoiceIssued;
                Ok(s)
            }
            Err(kind) => {
                self.phase = Phase::Failed;
                Err(kind)
            }
        }
    }
}

/// Extending the consumed prefix by one event extends what has been seen by
/// exactly that event's milestone, if it is one.
proof fn lemma_seen_extend(events: Seq<SyncEvent>, i: int)
    requires
        0 <= i < events.len(),
    ensures
        seen_onchain(events.subrange(0, i + 1)) == (seen_onchain(events.subrange(0, i))
            || events[i] is OnchainSyncCompleted),
        seen_gossip(events.subrange(0, i + 1)) == (seen_gossip(events.subrange(0, i))
            || events[i] is GossipSyncCompleted),
{
    let shorter = events.subrange(0, i);
    let longer = events.subrange(0, i + 1);
    assert(longer =~= shorter.push(events[i]));
    assert(longer[i] == events[i]);
    if seen_onchain(shorter) {
        let j = choose|j: int| 0 <= j < shorter.len() && shorter[j] is OnchainSyncCompleted;
        assert(longer[j] is OnchainSyncCompleted);
    }
    if seen_onchain(longer) {
        let j = choose|j: int| 0 <= j < longer.len() && longer[j] is OnchainSyncCompleted;
        if j < i {
            assert(shorter[j] is OnchainSyncCompleted);
        }
    }
    if seen_gossip(shorter) {
        let j = choose|j: int| 0 <= j < shorter.len() && shorter[j] is GossipSyncCompleted;
        assert(longer[j] is GossipSyncCompleted);
    }
    if seen_gossip(longer) {
        let j = choose|j: int| 0 <= j < longer.len() && longer[j] is GossipSyncCompleted;
        if j < i {
            assert(shorter[j] is GossipSyncCompleted);
        }
    }
}

} // verus!
