use raft_transport::message::{Msg, Peer, RaftMessage, ServerError, SocketAddr, SocketAddrV4, StoreMsg};
use raft_transport::metrics::{store_label, Counter, FailureKind, ResolveLabel};
use raft_transport::router::{
    after_answer, channel_result, ChannelId, MockRaftStoreRouter, RaftStoreError, RaftStoreRouter, RouterEffect, SendCh,
    ServerRaftStoreRouter,
};

type Told = StoreMsg<&'static str, u32, u8, char>;
type Router = ServerRaftStoreRouter<&'static str, u32, u8, char>;

fn new_router() -> Router {
    ServerRaftStoreRouter::new(SendCh::new(ChannelId(1), "test-store"))
}

fn new_raft_msg(store_id: u64) -> RaftMessage<&'static str> {
    RaftMessage {
        region_id: 7,
        to_peer: Peer { id: 9, store_id },
        has_snapshot: false,
        body: "append",
    }
}

/// Keeps the defaults: nothing is counted.
#[derive(Clone)]
struct PlainRouter;

impl RaftStoreRouter for PlainRouter {
    type Body = &'static str;
    type Request = u32;
    type Callback = u8;
    type Other = char;

    fn send(&self, msg: Told) -> Vec<RouterEffect<Told>> {
        vec![RouterEffect::Send { channel: ChannelId(2), msg }]
    }

    fn try_send(
        &self,
        msg: Told,
    ) -> Vec<RouterEffect<Told>> {
        vec![RouterEffect::TrySend { channel: ChannelId(2), msg }]
    }
}

#[test]
fn server_router_keeps_its_channel() {
    let router = new_router();
    assert_eq!((router.ch.ch, router.ch.name), (ChannelId(1), "test-store"));
    let other = router.clone();
    assert_eq!((other.ch.ch, other.ch.name), (ChannelId(1), "test-store"));
}

#[test]
fn channels_of_one_name_are_kept_apart() {
    let first = Router::new(SendCh::new(ChannelId(7), "store"));
    let second = Router::new(SendCh::new(ChannelId(8), "store"));
    let sent = first.try_send(StoreMsg::Other('q'));
    assert!(matches!(&sent[0], RouterEffect::TrySend { channel: ChannelId(7), .. }));
    let sent = second.try_send(StoreMsg::Other('q'));
    assert!(matches!(&sent[0], RouterEffect::TrySend { channel: ChannelId(8), .. }));
}

#[test]
fn server_router_carries_whatever_the_store_can_be_told() {
    let sent = new_router().send(StoreMsg::Other('q'));
    assert_eq!(sent.len(), 1);
    assert!(matches!(&sent[0], RouterEffect::Send { msg: StoreMsg::Other('q'), .. }));
}

#[test]
fn server_router_sends_with_retry_only_when_asked() {
    let router = new_router();
    let sent = router.send(StoreMsg::RaftMessage(new_raft_msg(1)));
    assert_eq!(sent.len(), 1);
    assert!(matches!(&sent[0], RouterEffect::Send { channel: ChannelId(1), msg: StoreMsg::RaftMessage(m) } if m.to_peer.store_id == 1));
    let tried = router.try_send(StoreMsg::RaftMessage(new_raft_msg(1)));
    assert_eq!(tried.len(), 1);
    assert!(matches!(&tried[0], RouterEffect::TrySend { channel: ChannelId(1), msg: StoreMsg::RaftMessage(m) } if m.body == "append"));
}

#[test]
fn server_router_tries_raft_messages_and_commands_once() {
    let router = new_router();
    let sent = router.send_raft_msg(new_raft_msg(2));
    assert_eq!(sent.len(), 1);
    assert!(matches!(&sent[0], RouterEffect::TrySend { channel: ChannelId(1), msg: StoreMsg::RaftMessage(m) } if m.to_peer.store_id == 2));
    let sent = router.send_command(40, 5);
    assert_eq!(sent.len(), 1);
    assert!(matches!(
        &sent[0],
        RouterEffect::TrySend {
            channel: ChannelId(1),
            msg: StoreMsg::RaftCmd { request: 40, callback: 5 },
        }
    ));
}

#[test]
fn server_router_counts_an_unreachable_store() {
    let sent = new_router().report_unreachable(3, 4, 5);
    assert_eq!(sent.len(), 2);
    assert!(matches!(
        &sent[0],
        RouterEffect::Count(Counter::ReportFailure { kind: FailureKind::Unreachable, store_id: 5 })
    ));
    assert!(matches!(
        &sent[1],
        RouterEffect::TrySend {
            channel: ChannelId(1),
            msg: StoreMsg::ReportUnreachable { region_id: 3, to_peer_id: 4 },
        }
    ));
}

#[test]
fn a_router_counts_nothing_unless_it_says_so() {
    let sent = PlainRouter.report_unreachable(3, 4, 5);
    assert_eq!(sent.len(), 1);
    assert!(matches!(
        &sent[0],
        RouterEffect::TrySend {
            channel: ChannelId(2),
            msg: StoreMsg::ReportUnreachable { region_id: 3, to_peer_id: 4 },
        }
    ));
    assert_eq!(PlainRouter.send_command(1, 2).len(), 1);
    assert_eq!(PlainRouter.send_raft_msg(new_raft_msg(1)).len(), 1);
}

/// Refuses what is not for its store.
#[derive(Clone)]
struct CheckingRouter {
    store_id: u64,
}

impl RaftStoreRouter for CheckingRouter {
    type Body = &'static str;
    type Request = u32;
    type Callback = u8;
    type Other = char;

    fn send(&self, msg: Told) -> Vec<RouterEffect<Told>> {
        vec![RouterEffect::Send { channel: ChannelId(3), msg }]
    }

    fn try_send(
        &self,
        msg: Told,
    ) -> Vec<RouterEffect<Told>> {
        vec![RouterEffect::TrySend { channel: ChannelId(3), msg }]
    }

    fn send_raft_msg(
        &self,
        msg: RaftMessage<&'static str>,
    ) -> Vec<RouterEffect<Told>> {
        if msg.to_peer.store_id == self.store_id {
            self.try_send(StoreMsg::RaftMessage(msg))
        } else {
            vec![]
        }
    }
}

#[test]
fn a_router_may_have_its_own_way_with_raft_messages() {
    let router = CheckingRouter { store_id: 1 };
    assert_eq!(router.send_raft_msg(new_raft_msg(1)).len(), 1);
    assert_eq!(router.send_raft_msg(new_raft_msg(2)).len(), 0);
}

#[test]
fn the_mock_router_can_be_named_and_cloned() {
    let router = MockRaftStoreRouter::<&'static str, u32, u8, char>::new();
    let other = router.clone();
    assert_eq!(format!("{:?}", router), format!("{:?}", other));
}

#[test]
fn a_channel_answer_becomes_the_result() {
    assert!(channel_result(Ok(())).is_ok());
    match channel_result(Err("full".to_string())) {
        Err(RaftStoreError::Transport(reason)) => assert_eq!(reason, "full"),
        Ok(()) => panic!("the channel refused"),
    }
}

#[test]
fn the_first_refusal_ends_the_steps() {
    let rest: Vec<RouterEffect<Told>> = new_router().report_unreachable(3, 4, 5);
    let left = after_answer(rest, Ok(())).unwrap();
    assert_eq!(left.len(), 2);
    match after_answer(left, Err("closed".to_string())) {
        Err(RaftStoreError::Transport(reason)) => assert_eq!(reason, "closed"),
        Ok(_) => panic!("the channel refused"),
    }
}

#[test]
fn the_default_report_ignores_the_store() {
    let one = PlainRouter.report_unreachable(3, 4, 5);
    let other = PlainRouter.report_unreachable(3, 4, 6);
    assert_eq!(format!("{:?}", one), format!("{:?}", other));
}

#[test]
fn store_labels_are_decimal() {
    for id in [0, 5, 9, 10, 19, 100, 1234567890, u64::MAX] {
        assert_eq!(store_label(id), id.to_string());
    }
    assert_eq!(store_label(u64::MAX), "18446744073709551615");
}

#[test]
fn store_labels_differ() {
    assert_ne!(store_label(1), store_label(10));
    assert_ne!(store_label(0), store_label(100));
}

#[test]
fn counters_have_their_labels() {
    let resolve = |label| Counter::ResolveStore(label).label_values();
    assert_eq!(resolve(ResolveLabel::Resolving), vec!["resolving"]);
    assert_eq!(resolve(ResolveLabel::Snap), vec!["snap"]);
    assert_eq!(resolve(ResolveLabel::Store), vec!["store"]);
    assert_eq!(resolve(ResolveLabel::Failed), vec!["failed"]);
    assert_eq!(resolve(ResolveLabel::Success), vec!["success"]);
    let failure = |kind| Counter::ReportFailure { kind, store_id: 12 }.label_values();
    assert_eq!(failure(FailureKind::Unreachable), vec!["unreachable", "12"]);
    assert_eq!(failure(FailureKind::Snapshot), vec!["snapshot", "12"]);
}

#[test]
fn server_messages_carry_their_contents() {
    let msgs = vec![
        Msg::Quit,
        Msg::SendStore { store_id: 1, msg: new_raft_msg(1) },
        Msg::ResolveResult {
            store_id: 2,
            sock_addr: Ok(SocketAddr::V4(SocketAddrV4 { ip: 0x7f00_0001, port: 20160 })),
            msg: new_raft_msg(2),
        },
        Msg::ResolveResult {
            store_id: 3,
            sock_addr: Err(ServerError { reason: "unknown store".to_string() }),
            msg: new_raft_msg(3),
        },
        Msg::CloseConn { token: mio::Token(4) },
    ];
    assert!(matches!(&msgs[0], Msg::Quit));
    assert!(matches!(&msgs[1], Msg::SendStore { store_id: 1, msg } if msg.to_peer.store_id == 1));
    assert!(matches!(&msgs[2], Msg::ResolveResult { store_id: 2, sock_addr: Ok(_), .. }));
    assert!(matches!(&msgs[3], Msg::ResolveResult { sock_addr: Err(e), .. } if e.reason == "unknown store"));
    assert!(matches!(&msgs[4], Msg::CloseConn { token } if *token == mio::Token(4)));
    assert_eq!(format!("{:?}", msgs[0]), "Quit");
}
