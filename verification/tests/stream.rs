use jit_coordinator::coordinator::{Coordinator, Phase};
use jit_coordinator::events::SyncEvent;
use jit_coordinator::stream::{poll_initial_sync, SyncPoll};

#[test]
fn gate_opens_on_live_stream() {
    let (tx, rx) = crossbeam_channel::bounded::<SyncEvent>(16);
    tx.send(SyncEvent::Other).unwrap();
    tx.send(SyncEvent::OnchainSyncCompleted).unwrap();
    tx.send(SyncEvent::Other).unwrap();
    tx.send(SyncEvent::GossipSyncCompleted).unwrap();
    let mut c = Coordinator::new();
    match poll_initial_sync(&mut c, &rx, 16) {
        SyncPoll::GateOpened(st) => {
            assert!(st.onchain_done);
            assert!(st.gossip_done);
            assert!(matches!(c.phase, Phase::SyncComplete));
        }
        _ => panic!("both milestones were sent"),
    }
    // The trailing events were not consumed: the sync gate stops at completion.
    assert!(tx.try_send(SyncEvent::Other).is_ok());
}

#[test]
fn scenario_d_closed_stream_is_abandoned_without_blocking() {
    let (tx, rx) = crossbeam_channel::bounded::<SyncEvent>(16);
    tx.send(SyncEvent::OnchainSyncCompleted).unwrap();
    drop(tx);
    let mut c = Coordinator::new();
    match poll_initial_sync(&mut c, &rx, 16) {
        SyncPoll::StreamClosed => {
            assert!(matches!(c.phase, Phase::Failed));
        }
        _ => panic!("the stream closed with only one milestone delivered"),
    }
}

#[test]
fn exhausted_budget_reports_still_waiting() {
    let (tx, rx) = crossbeam_channel::bounded::<SyncEvent>(16);
    tx.send(SyncEvent::Other).unwrap();
    tx.send(SyncEvent::Other).unwrap();
    let mut c = Coordinator::new();
    match poll_initial_sync(&mut c, &rx, 2) {
        SyncPoll::StillWaiting => {
            assert!(matches!(c.phase, Phase::AwaitingSync));
        }
        _ => panic!("no milestone was sent"),
    }
    // A later poll can still open the sync gate on the same coordinator.
    tx.send(SyncEvent::GossipSyncCompleted).unwrap();
    tx.send(SyncEvent::OnchainSyncCompleted).unwrap();
    match poll_initial_sync(&mut c, &rx, 2) {
        SyncPoll::GateOpened(st) => {
            assert!(st.onchain_done && st.gossip_done);
        }
        _ => panic!("both milestones arrived on the second poll"),
    }
}

#[test]
fn zero_budget_consumes_nothing() {
    let (tx, rx) = crossbeam_channel::bounded::<SyncEvent>(16);
    tx.send(SyncEvent::OnchainSyncCompleted).unwrap();
    let mut c = Coordinator::new();
    assert!(matches!(poll_initial_sync(&mut c, &rx, 0), SyncPoll::StillWaiting));
    drop(tx);
    // The event is still in the channel.
    assert!(rx.recv().is_ok());
    assert!(rx.recv().is_err());
}
