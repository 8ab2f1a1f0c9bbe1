use std::collections::HashMap;

use raft_transport::message::{
    Peer, RaftMessage, ServerError, SnapshotStatus, SnapshotStatusMsg, SocketAddr, SocketAddrV4,
    SocketAddrV6, StoreMsg,
};
use raft_transport::metrics::{Counter, FailureKind, ResolveLabel};
use raft_transport::router::{ChannelId, MockRaftStoreRouter, RouterEffect, SendCh, ServerRaftStoreRouter};
use raft_transport::snapshot::{ReportEffect, SnapshotReporter, Stopped};
use raft_transport::transport::{Effect, EffectOf, RaftClient, ServerTransport};

type Router = ServerRaftStoreRouter<&'static str, u32, u8, char>;
type Step = EffectOf<Router>;

fn new_transport() -> ServerTransport<Router> {
    ServerTransport::new(
        RaftClient { addrs: HashMap::new() },
        ServerRaftStoreRouter::new(SendCh::new(ChannelId(1), "test-store")),
    )
}

fn addr(port: u16) -> SocketAddr {
    SocketAddr::V4(SocketAddrV4 { ip: 0x0a00_0001, port })
}

fn message(store_id: u64, body: &'static str) -> RaftMessage<&'static str> {
    RaftMessage { region_id: 11, to_peer: Peer { id: 22, store_id }, has_snapshot: false, body }
}

fn snapshot(store_id: u64, body: &'static str) -> RaftMessage<&'static str> {
    RaftMessage { has_snapshot: true, ..message(store_id, body) }
}

fn lost() -> Result<SocketAddr, ServerError> {
    Err(ServerError { reason: "no such store".to_string() })
}

fn counts(step: &Step, label: ResolveLabel) -> bool {
    matches!(step, Effect::Count(Counter::ResolveStore(l)) if *l == label)
}

fn reports_unreachable(step: &Step, store: u64) -> bool {
    let steps = match step {
        Effect::Router(steps) => steps,
        _ => return false,
    };
    steps.len() == 2
        && matches!(
            &steps[0],
            RouterEffect::Count(Counter::ReportFailure {
                kind: FailureKind::Unreachable,
                store_id,
            }) if *store_id == store
        )
        && matches!(
            &steps[1],
            RouterEffect::TrySend {
                channel: ChannelId(1),
                msg: StoreMsg::ReportUnreachable { region_id: 11, to_peer_id: 22 },
            }
        )
}

#[test]
fn a_new_transport_resolves_nothing() {
    let mut addrs = HashMap::new();
    addrs.insert(4, addr(4));
    let transport = ServerTransport::new(
        RaftClient { addrs },
        Router::new(SendCh::new(ChannelId(3), "a")),
    );
    assert!(transport.resolving.is_empty());
    assert_eq!(transport.raft_client.addrs.get(&4), Some(&addr(4)));
    assert_eq!(transport.raft_router.ch.ch, ChannelId(3));
}

#[test]
fn the_first_message_starts_a_resolution() {
    let mut transport = new_transport();
    let steps = transport.send(message(5, "vote")).unwrap();
    assert_eq!(steps.len(), 2);
    assert!(counts(&steps[0], ResolveLabel::Store));
    assert!(matches!(&steps[1], Effect::Resolve { store_id: 5, msg } if msg.body == "vote"));
    assert!(transport.resolving.contains(&5));
    assert!(transport.raft_client.addrs.is_empty());
}

#[test]
fn a_snapshot_starts_a_resolution_under_its_own_label() {
    let mut transport = new_transport();
    let steps = transport.send(snapshot(5, "snap")).unwrap();
    assert_eq!(steps.len(), 2);
    assert!(counts(&steps[0], ResolveLabel::Snap));
    assert!(matches!(&steps[1], Effect::Resolve { store_id: 5, msg } if msg.has_snapshot));
}

#[test]
fn one_resolution_at_a_time() {
    let mut transport = new_transport();
    transport.send(message(5, "first")).unwrap();
    for _ in 0..3 {
        let steps = transport.send(message(5, "second")).unwrap();
        assert_eq!(steps.len(), 2);
        assert!(counts(&steps[0], ResolveLabel::Resolving));
        assert!(reports_unreachable(&steps[1], 5));
    }
    transport.resolved(5, message(5, "first"), lost());
    let steps = transport.send(message(5, "third")).unwrap();
    assert!(matches!(&steps[1], Effect::Resolve { store_id: 5, .. }));
}

#[test]
fn a_found_address_is_used() {
    let mut transport = new_transport();
    transport.send(message(5, "first")).unwrap();
    let steps = transport.resolved(5, message(5, "first"), Ok(addr(1)));
    assert_eq!(steps.len(), 2);
    assert!(counts(&steps[0], ResolveLabel::Success));
    assert!(matches!(
        &steps[1],
        Effect::SendRaft { store_id: 5, addr: a, msg } if *a == addr(1) && msg.body == "first"
    ));
    assert!(!transport.resolving.contains(&5));
    assert_eq!(transport.raft_client.addrs.get(&5), Some(&addr(1)));
    let steps = transport.send(message(5, "second")).unwrap();
    assert_eq!(steps.len(), 1);
    assert!(matches!(
        &steps[0],
        Effect::SendRaft { store_id: 5, addr: a, msg } if *a == addr(1) && msg.body == "second"
    ));
    assert!(transport.resolving.is_empty());
}

#[test]
fn a_found_address_is_remembered() {
    let mut transport = new_transport();
    transport.send(message(5, "first")).unwrap();
    transport.resolved(5, message(5, "first"), Ok(addr(1)));
    transport.send(message(6, "other")).unwrap();
    transport.resolved(6, message(6, "other"), lost());
    transport.send(message(6, "again")).unwrap();
    transport.raft_client.addrs.insert(7, addr(7));
    for body in ["second", "third"] {
        let steps = transport.send(message(5, body)).unwrap();
        assert_eq!(steps.len(), 1);
        assert!(matches!(
            &steps[0],
            Effect::SendRaft { store_id: 5, addr: a, msg } if *a == addr(1) && msg.body == body
        ));
    }
    assert!(!transport.resolving.contains(&5));
}

#[test]
fn a_snapshot_goes_by_its_address_alone() {
    let transport = new_transport();
    let one = transport.write_data(1, addr(9), snapshot(5, "s"));
    let other = transport.write_data(2, addr(9), snapshot(5, "s"));
    assert_eq!(format!("{:?}", one), format!("{:?}", other));
    let expected = SnapshotReporter { region_id: 11, to_peer_id: 22, to_store_id: 5 };
    assert!(matches!(
        &one[0],
        Effect::ScheduleSnapshot { addr: a, reporter, .. } if *a == addr(9) && *reporter == expected
    ));
    let plain = transport.write_data(1, addr(9), message(5, "m"));
    assert!(matches!(&plain[0], Effect::SendRaft { store_id: 1, .. }));
}

#[test]
fn a_mock_router_does_where_nothing_is_dropped() {
    let mut addrs = HashMap::new();
    addrs.insert(5, addr(5));
    let router = MockRaftStoreRouter::<&'static str, u32, u8, char>::new();
    let mut transport = ServerTransport::new(RaftClient { addrs }, router);
    let to = |store_id| message(store_id, "m");
    let steps = transport.send(to(5)).unwrap();
    assert!(matches!(&steps[0], Effect::SendRaft { store_id: 5, .. }));
    let steps = transport.send(to(6)).unwrap();
    assert!(matches!(&steps[1], Effect::Resolve { store_id: 6, .. }));
    let steps = transport.resolved(6, to(6), Ok(addr(6)));
    assert!(matches!(&steps[1], Effect::SendRaft { store_id: 6, .. }));
}

#[test]
fn a_failed_resolution_is_undone() {
    let mut transport = new_transport();
    transport.send(message(5, "first")).unwrap();
    let steps = transport.resolved(5, message(5, "first"), lost());
    assert_eq!(steps.len(), 2);
    assert!(counts(&steps[0], ResolveLabel::Failed));
    assert!(reports_unreachable(&steps[1], 5));
    assert!(transport.resolving.is_empty());
    assert!(transport.raft_client.addrs.is_empty());
    let steps = transport.send(message(5, "second")).unwrap();
    assert!(counts(&steps[0], ResolveLabel::Store));
    assert!(matches!(&steps[1], Effect::Resolve { store_id: 5, msg } if msg.body == "second"));
}

#[test]
fn a_late_failure_starts_another_resolution() {
    let mut transport = new_transport();
    transport.send(message(5, "first")).unwrap();
    transport.send(message(5, "dropped")).unwrap();
    transport.send(message(6, "other")).unwrap();
    transport.resolved(5, message(5, "first"), lost());
    let steps = transport.send(snapshot(5, "next")).unwrap();
    assert_eq!(steps.len(), 2);
    assert!(counts(&steps[0], ResolveLabel::Snap));
    assert!(matches!(&steps[1], Effect::Resolve { store_id: 5, msg } if msg.body == "next"));
}

#[test]
fn an_unanswered_resolution_holds_messages_back() {
    let mut transport = new_transport();
    transport.send(message(5, "first")).unwrap();
    transport.send(message(6, "other")).unwrap();
    transport.resolved(6, message(6, "other"), Ok(addr(6)));
    let steps = transport.send(message(5, "second")).unwrap();
    assert!(counts(&steps[0], ResolveLabel::Resolving));
    assert!(transport.resolving.contains(&5));
}

#[test]
fn snapshots_travel_apart() {
    let mut transport = new_transport();
    let at = SocketAddr::V6(SocketAddrV6 { ip: 1, port: 2, flowinfo: 0, scope_id: 0 });
    let steps = transport.resolved(5, snapshot(5, "big"), Ok(at));
    assert_eq!(steps.len(), 2);
    assert!(counts(&steps[0], ResolveLabel::Success));
    let expected = SnapshotReporter { region_id: 11, to_peer_id: 22, to_store_id: 5 };
    assert!(matches!(
        &steps[1],
        Effect::ScheduleSnapshot { addr: a, msg, reporter }
            if *a == at && msg.body == "big" && *reporter == expected
    ));
    let steps = transport.send(snapshot(5, "bigger")).unwrap();
    assert_eq!(steps.len(), 1);
    assert!(matches!(
        &steps[0],
        Effect::ScheduleSnapshot { addr: a, msg, .. } if *a == at && msg.body == "bigger"
    ));
    let steps = transport.send(message(5, "small")).unwrap();
    assert!(matches!(&steps[0], Effect::SendRaft { store_id: 5, .. }));
}

#[test]
fn messages_are_handed_on_to_the_store_they_name() {
    let mut transport = new_transport();
    transport.resolved(5, message(5, "x"), Ok(addr(5)));
    // The store may differ from the one in the message's header.
    let steps = transport.send_store(5, message(99, "redirected"));
    assert!(matches!(
        &steps[0],
        Effect::SendRaft { store_id: 5, addr: a, msg }
            if *a == addr(5) && msg.to_peer.store_id == 99 && msg.body == "redirected"
    ));
    let steps = transport.send_store(7, message(99, "unknown"));
    assert!(matches!(&steps[1], Effect::Resolve { store_id: 7, .. }));
    let steps = transport.send_store(7, message(99, "dropped"));
    assert!(reports_unreachable(&steps[1], 99));
}

#[test]
fn every_message_is_accounted_for() {
    let mut transport = new_transport();
    let mut steps: Vec<Step> = Vec::new();
    steps.extend(transport.send(message(1, "a")).unwrap());
    steps.extend(transport.send(message(1, "b")).unwrap());
    steps.extend(transport.send(snapshot(2, "c")).unwrap());
    steps.extend(transport.resolved(1, message(1, "a"), Ok(addr(1))));
    steps.extend(transport.resolved(2, snapshot(2, "c"), lost()));
    steps.extend(transport.send(message(1, "d")).unwrap());
    let delivered = steps
        .iter()
        .filter(|s| matches!(s, Effect::SendRaft { .. } | Effect::ScheduleSnapshot { .. }))
        .count();
    let asked = steps.iter().filter(|s| matches!(s, Effect::Resolve { .. })).count();
    let bumped = |label| steps.iter().filter(|s| counts(s, label)).count();
    assert_eq!((delivered, asked), (2, 2));
    assert_eq!(bumped(ResolveLabel::Snap) + bumped(ResolveLabel::Store), asked);
    assert_eq!((bumped(ResolveLabel::Success), bumped(ResolveLabel::Failed)), (1, 1));
    let reported = steps.iter().filter(|s| matches!(s, Effect::Router(_))).count();
    assert_eq!(reported, bumped(ResolveLabel::Resolving) + bumped(ResolveLabel::Failed));
    assert_eq!(delivered + asked + reported, 4 + 2);
}

#[test]
fn stores_are_independent() {
    let mut transport = new_transport();
    transport.resolved(1, message(1, "a"), Ok(addr(1)));
    transport.send(message(2, "b")).unwrap();
    transport.resolved(3, message(3, "c"), lost());
    assert_eq!(transport.raft_client.addrs.get(&1), Some(&addr(1)));
    assert!(transport.resolving.contains(&2));
    assert!(!transport.raft_client.addrs.contains_key(&3));
}

#[test]
fn known_addresses_are_not_asked_for() {
    let mut transport = new_transport();
    transport.resolved(1, message(1, "a"), Ok(addr(1)));
    transport.send(message(1, "b")).unwrap();
    assert!(transport.resolving.is_empty());
    transport.raft_client.addrs.remove(&1);
    let steps = transport.send(message(1, "c")).unwrap();
    assert!(matches!(&steps[1], Effect::Resolve { store_id: 1, .. }));
    assert!(transport.resolving.contains(&1) && !transport.raft_client.addrs.contains_key(&1));
}

#[test]
fn an_unreachable_receiver_is_reported() {
    let transport = new_transport();
    let step = transport.report_unreachable(message(8, "x"));
    assert!(reports_unreachable(&step, 8));
}

fn told(status: SnapshotStatus) -> ReportEffect {
    ReportEffect::SendStatus(SnapshotStatusMsg { region_id: 11, to_peer_id: 22, status })
}

fn counted() -> ReportEffect {
    ReportEffect::Count(Counter::ReportFailure { kind: FailureKind::Snapshot, store_id: 5 })
}

#[test]
fn a_snapshot_report_counts_failures_only() {
    let reporter = new_transport().new_snapshot_reporter(&snapshot(5, "s"));
    assert_eq!(reporter.report(SnapshotStatus::Finish), vec![told(SnapshotStatus::Finish)]);
    assert_eq!(
        reporter.report(SnapshotStatus::Failure),
        vec![counted(), told(SnapshotStatus::Failure)]
    );
}

#[test]
fn a_snapshot_outcome_is_reported_once() {
    let reporter = SnapshotReporter { region_id: 11, to_peer_id: 22, to_store_id: 5 };
    assert_eq!(reporter.scheduled(Ok(())), vec![]);
    assert_eq!(reporter.finished(Ok(())), vec![told(SnapshotStatus::Finish)]);
    let failed = Err(ServerError { reason: "connection reset".to_string() });
    assert_eq!(reporter.finished(failed), vec![counted(), told(SnapshotStatus::Failure)]);
    assert_eq!(
        reporter.scheduled(Err(Stopped)),
        vec![counted(), told(SnapshotStatus::Failure)]
    );
}
