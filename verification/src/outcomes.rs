//! What comes of each operation, said of the operations themselves: whatever a call may
//! answer, the answer stands in these relations to what the call was given and to what
//! other calls answer.

use vstd::prelude::*;

use crate::message::{
    RaftMessage, ServerError, SnapshotStatus, SnapshotStatusMsg, SocketAddr, StoreMsg,
};
use crate::metrics::{store_label, Counter, FailureKind, ResolveLabel};
use crate::router::{
    after_answer, channel_result, ChannelId, MockRaftStoreRouter, RaftStoreError, RaftStoreResult,
    RaftStoreRouter, RouterEffect, SendCh, ServerRaftStoreRouter, StoreMsgOf,
};
use crate::snapshot::{ReportEffect, SnapshotReporter, Stopped};
use crate::transport::{Effect, EffectOf, RaftClient, ServerTransport};

verus! {

/// A message for a store whose address is known is handed over at once, whole and once: over
/// the connection if it holds no snapshot, to the snapshot worker if it does, and there with
/// a reporter for the region, the peer and the store that the message names. The transport
/// stays as it is.
pub proof fn law_known_address_delivers<T: RaftStoreRouter>(
    t: &mut ServerTransport<T>,
    store_id: u64,
    addr: SocketAddr,
    msg: RaftMessage<T::Body>,
    effects: Vec<EffectOf<T>>,
)
    requires
        old(t).raft_client.addrs@.contains_pair(store_id, addr),
        call_ensures(ServerTransport::<T>::send_store, (t, store_id, msg), effects),
    ensures
        effects@.len() == 1,
        !msg.has_snapshot ==> effects@[0] == (Effect::<T::Body, StoreMsgOf<T>>::SendRaft {
            store_id,
            addr,
            msg,
        }),
        msg.has_snapshot ==> (effects@[0] matches Effect::ScheduleSnapshot {
            addr: to,
            msg: sent,
            reporter,
        } && to == addr && sent == msg && reporter.region_id == msg.region_id
            && reporter.to_peer_id == msg.to_peer.id && reporter.to_store_id
            == msg.to_peer.store_id),
        final(t).raft_client.addrs@ == old(t).raft_client.addrs@,
        final(t).resolving@ == old(t).resolving@,
        final(t).raft_router == old(t).raft_router,
{
}

/// A message for a store whose address is being asked for is dropped: the drop is counted,
/// the router is asked to report the region, the peer and the store that the message names,
/// whatever else it holds, and nothing more is done. The transport stays as it is.
pub proof fn law_running_resolution_drops<T: RaftStoreRouter>(
    t: &mut ServerTransport<T>,
    store_id: u64,
    msg: RaftMessage<T::Body>,
    effects: Vec<EffectOf<T>>,
)
    requires
        !old(t).raft_client.addrs@.contains_key(store_id),
        old(t).resolving@.contains(store_id),
        call_ensures(ServerTransport::<T>::send_store, (t, store_id, msg), effects),
    ensures
        effects@.len() == 2,
        effects@[0] == Effect::<T::Body, StoreMsgOf<T>>::Count(
            Counter::ResolveStore(ResolveLabel::Resolving),
        ),
        effects@[1] matches Effect::Router(steps) && call_ensures(
            T::report_unreachable,
            (&old(t).raft_router, msg.region_id, msg.to_peer.id, msg.to_peer.store_id),
            steps,
        ),
        final(t).raft_client.addrs@ == old(t).raft_client.addrs@,
        final(t).resolving@ == old(t).resolving@,
        final(t).raft_router == old(t).raft_router,
{
}

/// A message for a store that nothing is known of has the store's address asked for, once,
/// and waits for the answer. Nothing changes but that this store is now being resolved.
pub proof fn law_unknown_address_is_asked_for<T: RaftStoreRouter>(
    t: &mut ServerTransport<T>,
    store_id: u64,
    msg: RaftMessage<T::Body>,
    effects: Vec<EffectOf<T>>,
)
    requires
        !old(t).raft_client.addrs@.contains_key(store_id),
        !old(t).resolving@.contains(store_id),
        call_ensures(ServerTransport::<T>::send_store, (t, store_id, msg), effects),
    ensures
        effects@.len() == 2,
        msg.has_snapshot ==> effects@[0] == Effect::<T::Body, StoreMsgOf<T>>::Count(
            Counter::ResolveStore(ResolveLabel::Snap),
        ),
        !msg.has_snapshot ==> effects@[0] == Effect::<T::Body, StoreMsgOf<T>>::Count(
            Counter::ResolveStore(ResolveLabel::Store),
        ),
        effects@[1] == (Effect::<T::Body, StoreMsgOf<T>>::Resolve { store_id, msg }),
        final(t).raft_client.addrs@ == old(t).raft_client.addrs@,
        final(t).resolving@ == old(t).resolving@.insert(store_id),
        final(t).raft_router == old(t).raft_router,
{
}

/// To send a message is to send it to the store that its receiver lives on, and it cannot
/// fail: it is handed over at once, or dropped and reported, or has that store's address
/// asked for, by what is known of that store.
pub proof fn law_send_goes_to_the_receivers_store<T: RaftStoreRouter>(
    t: &mut ServerTransport<T>,
    msg: RaftMessage<T::Body>,
    result: RaftStoreResult<Vec<EffectOf<T>>>,
)
    requires
        call_ensures(ServerTransport::<T>::send, (t, msg), result),
    ensures
        result is Ok,
        final(t).raft_client.addrs@ == old(t).raft_client.addrs@,
        final(t).raft_router == old(t).raft_router,
        old(t).raft_client.addrs@.contains_key(msg.to_peer.store_id) ==> {
            &&& final(t).resolving@ == old(t).resolving@
            &&& result->Ok_0@.len() == 1
            &&& !msg.has_snapshot ==> result->Ok_0@[0] == (Effect::<
                T::Body,
                StoreMsgOf<T>,
            >::SendRaft {
                store_id: msg.to_peer.store_id,
                addr: old(t).raft_client.addrs@[msg.to_peer.store_id],
                msg,
            })
            &&& msg.has_snapshot ==> (result->Ok_0@[0] matches Effect::ScheduleSnapshot {
                addr,
                msg: sent,
                reporter,
            } && addr == old(t).raft_client.addrs@[msg.to_peer.store_id] && sent == msg
                && reporter.region_id == msg.region_id && reporter.to_peer_id == msg.to_peer.id
                && reporter.to_store_id == msg.to_peer.store_id)
        },
        !old(t).raft_client.addrs@.contains_key(msg.to_peer.store_id)
            && old(t).resolving@.contains(msg.to_peer.store_id) ==> {
            &&& final(t).resolving@ == old(t).resolving@
            &&& result->Ok_0@.len() == 2
            &&& result->Ok_0@[0] == Effect::<T::Body, StoreMsgOf<T>>::Count(
                Counter::ResolveStore(ResolveLabel::Resolving),
            )
            &&& result->Ok_0@[1] matches Effect::Router(steps)
            &&& call_ensures(
                T::report_unreachable,
                (&old(t).raft_router, msg.region_id, msg.to_peer.id, msg.to_peer.store_id),
                steps,
            )
        },
        !old(t).raft_client.addrs@.contains_key(msg.to_peer.store_id)
            && !old(t).resolving@.contains(msg.to_peer.store_id) ==> {
            &&& final(t).resolving@ == old(t).resolving@.insert(msg.to_peer.store_id)
            &&& result->Ok_0@.len() == 2
            &&& result->Ok_0@[0] == Effect::<T::Body, StoreMsgOf<T>>::Count(
                Counter::ResolveStore(
                    if msg.has_snapshot {
                        ResolveLabel::Snap
                    } else {
                        ResolveLabel::Store
                    },
                ),
            )
            &&& result->Ok_0@[1] == (Effect::<T::Body, StoreMsgOf<T>>::Resolve {
                store_id: msg.to_peer.store_id,
                msg,
            })
        },
{
}

/// An answer with an address is counted, and the message that waited for it is handed over
/// to that address, whole and once. From then on that address, and no other, is known of the
/// store, the store is no longer being resolved, and the other stores are as they were.
pub proof fn law_found_address_delivers_what_waited<T: RaftStoreRouter>(
    t: &mut ServerTransport<T>,
    store_id: u64,
    msg: RaftMessage<T::Body>,
    addr: SocketAddr,
    effects: Vec<EffectOf<T>>,
)
    requires
        call_ensures(
            ServerTransport::<T>::resolved,
            (t, store_id, msg, Ok::<SocketAddr, ServerError>(addr)),
            effects,
        ),
    ensures
        effects@.len() == 2,
        effects@[0] == Effect::<T::Body, StoreMsgOf<T>>::Count(
            Counter::ResolveStore(ResolveLabel::Success),
        ),
        !msg.has_snapshot ==> effects@[1] == (Effect::<T::Body, StoreMsgOf<T>>::SendRaft {
            store_id,
            addr,
            msg,
        }),
        msg.has_snapshot ==> (effects@[1] matches Effect::ScheduleSnapshot {
            addr: to,
            msg: sent,
            reporter,
        } && to == addr && sent == msg && reporter.region_id == msg.region_id
            && reporter.to_peer_id == msg.to_peer.id && reporter.to_store_id
            == msg.to_peer.store_id),
        final(t).raft_client.addrs@ == old(t).raft_client.addrs@.insert(store_id, addr),
        final(t).resolving@ == old(t).resolving@.remove(store_id),
        final(t).raft_router == old(t).raft_router,
{
}

/// An answer without an address is counted, and the message that waited for it is dropped,
/// the router being asked to report the region, the peer and the store that the message
/// names. The store is no longer being resolved; the addresses are as they were.
pub proof fn law_missing_address_drops_what_waited<T: RaftStoreRouter>(
    t: &mut ServerTransport<T>,
    store_id: u64,
    msg: RaftMessage<T::Body>,
    error: ServerError,
    effects: Vec<EffectOf<T>>,
)
    requires
        call_ensures(
            ServerTransport::<T>::resolved,
            (t, store_id, msg, Err::<SocketAddr, ServerError>(error)),
            effects,
        ),
    ensures
        effects@.len() == 2,
        effects@[0] == Effect::<T::Body, StoreMsgOf<T>>::Count(
            Counter::ResolveStore(ResolveLabel::Failed),
        ),
        effects@[1] matches Effect::Router(steps) && call_ensures(
            T::report_unreachable,
            (&old(t).raft_router, msg.region_id, msg.to_peer.id, msg.to_peer.store_id),
            steps,
        ),
        final(t).raft_client.addrs@ == old(t).raft_client.addrs@,
        final(t).resolving@ == old(t).resolving@.remove(store_id),
        final(t).raft_router == old(t).raft_router,
{
}

/// A message to a store that nothing is known of, an answer with its address, and another
/// message: the first is handed over on the answer and the second at once, both to that
/// address, and nobody is reported unreachable.
pub proof fn law_resolution_round_trip<T: RaftStoreRouter>(
    before: &mut ServerTransport<T>,
    asked: &mut ServerTransport<T>,
    found: &mut ServerTransport<T>,
    store_id: u64,
    addr: SocketAddr,
    first: RaftMessage<T::Body>,
    next: RaftMessage<T::Body>,
    effects: (Vec<EffectOf<T>>, Vec<EffectOf<T>>, Vec<EffectOf<T>>),
)
    requires
        !old(before).raft_client.addrs@.contains_key(store_id),
        !old(before).resolving@.contains(store_id),
        !first.has_snapshot,
        !next.has_snapshot,
        call_ensures(ServerTransport::<T>::send_store, (before, store_id, first), effects.0),
        *old(asked) == *final(before),
        call_ensures(
            ServerTransport::<T>::resolved,
            (asked, store_id, first, Ok::<SocketAddr, ServerError>(addr)),
            effects.1,
        ),
        *old(found) == *final(asked),
        call_ensures(ServerTransport::<T>::send_store, (found, store_id, next), effects.2),
    ensures
        effects.0@.last() == (Effect::<T::Body, StoreMsgOf<T>>::Resolve {
            store_id,
            msg: first,
        }),
        effects.1@.last() == (Effect::<T::Body, StoreMsgOf<T>>::SendRaft {
            store_id,
            addr,
            msg: first,
        }),
        effects.2@ == seq![
            Effect::<T::Body, StoreMsgOf<T>>::SendRaft { store_id, addr, msg: next },
        ],
        final(found).raft_client.addrs@ == old(before).raft_client.addrs@.insert(store_id, addr),
        final(found).resolving@ == old(before).resolving@,
{
    assert(old(before).resolving@.insert(store_id).remove(store_id) =~= old(before).resolving@);
}

/// A message to a store that nothing is known of, and an answer without an address: what is
/// known is then what was known before, and the next message asks again.
pub proof fn law_failed_round_trip<T: RaftStoreRouter>(
    before: &mut ServerTransport<T>,
    asked: &mut ServerTransport<T>,
    lost: &mut ServerTransport<T>,
    store_id: u64,
    error: ServerError,
    first: RaftMessage<T::Body>,
    next: RaftMessage<T::Body>,
    effects: (Vec<EffectOf<T>>, Vec<EffectOf<T>>, Vec<EffectOf<T>>),
)
    requires
        !old(before).raft_client.addrs@.contains_key(store_id),
        !old(before).resolving@.contains(store_id),
        call_ensures(ServerTransport::<T>::send_store, (before, store_id, first), effects.0),
        *old(asked) == *final(before),
        call_ensures(
            ServerTransport::<T>::resolved,
            (asked, store_id, first, Err::<SocketAddr, ServerError>(error)),
            effects.1,
        ),
        *old(lost) == *final(asked),
        call_ensures(ServerTransport::<T>::send_store, (lost, store_id, next), effects.2),
    ensures
        old(lost).raft_client.addrs@ == old(before).raft_client.addrs@,
        old(lost).resolving@ == old(before).resolving@,
        effects.1@.last() is Router,
        effects.2@.last() == (Effect::<T::Body, StoreMsgOf<T>>::Resolve {
            store_id,
            msg: next,
        }),
{
    assert(old(before).resolving@.insert(store_id).remove(store_id) =~= old(before).resolving@);
}

/// A new transport knows the addresses it was given, asks for none, and routes by the router
/// it was given.
pub proof fn law_new_transport<T: RaftStoreRouter>(
    raft_client: RaftClient,
    raft_router: T,
    transport: ServerTransport<T>,
)
    requires
        call_ensures(ServerTransport::<T>::new, (raft_client, raft_router), transport),
    ensures
        transport.raft_client.addrs@ == raft_client.addrs@,
        forall|store_id: u64| !transport.resolving@.contains(store_id),
        transport.raft_router == raft_router,
{
}

/// Delivery at a known address is one step that carries the message: over the connection to
/// the store, or, with a snapshot, to the snapshot worker, where the store plays no part.
pub proof fn law_write_data_is_one_delivery<T: RaftStoreRouter>(
    t: ServerTransport<T>,
    store_id: u64,
    addr: SocketAddr,
    msg: RaftMessage<T::Body>,
    effects: Vec<EffectOf<T>>,
)
    requires
        call_ensures(ServerTransport::<T>::write_data, (&t, store_id, addr, msg), effects),
    ensures
        effects@.len() == 1,
        !msg.has_snapshot ==> effects@[0] == (Effect::<T::Body, StoreMsgOf<T>>::SendRaft {
            store_id,
            addr,
            msg,
        }),
        msg.has_snapshot ==> (effects@[0] matches Effect::ScheduleSnapshot {
            addr: to,
            msg: sent,
            reporter,
        } && to == addr && sent == msg && reporter.region_id == msg.region_id
            && reporter.to_peer_id == msg.to_peer.id && reporter.to_store_id
            == msg.to_peer.store_id),
{
}

/// The reporter that goes with a message is for the region, the peer and the store that the
/// message names.
pub proof fn law_reporter_is_for_the_receiver<T: RaftStoreRouter>(
    t: ServerTransport<T>,
    msg: RaftMessage<T::Body>,
    reporter: SnapshotReporter,
)
    requires
        call_ensures(ServerTransport::<T>::new_snapshot_reporter, (&t, &msg), reporter),
    ensures
        reporter.region_id == msg.region_id,
        reporter.to_peer_id == msg.to_peer.id,
        reporter.to_store_id == msg.to_peer.store_id,
{
}

/// Whatever a message holds, a report that its receiver cannot be reached is what the router
/// answers when asked about the region, the peer and the store that the message names.
pub proof fn law_report_is_about_the_receiver<T: RaftStoreRouter>(
    t: ServerTransport<T>,
    msg: RaftMessage<T::Body>,
    effect: EffectOf<T>,
)
    requires
        call_ensures(ServerTransport::<T>::report_unreachable, (&t, msg), effect),
    ensures
        effect matches Effect::Router(steps) && call_ensures(
            T::report_unreachable,
            (&t.raft_router, msg.region_id, msg.to_peer.id, msg.to_peer.store_id),
            steps,
        ),
{
}

/// On a server, a report that the receiver of a message cannot be reached is a count under
/// the receiver's store and one try to tell the local store, on the router's channel, of the
/// message's region and the receiver's peer.
pub proof fn law_server_report_is_about_the_receiver<B: Send, Q: Send, C: Send, O: Send>(
    t: ServerTransport<ServerRaftStoreRouter<B, Q, C, O>>,
    msg: RaftMessage<B>,
    effect: Effect<B, StoreMsg<B, Q, C, O>>,
)
    requires
        call_ensures(
            ServerTransport::<ServerRaftStoreRouter<B, Q, C, O>>::report_unreachable,
            (&t, msg),
            effect,
        ),
    ensures
        effect matches Effect::Router(steps) && steps@ == seq![
            RouterEffect::<StoreMsg<B, Q, C, O>>::Count(
                Counter::ReportFailure {
                    kind: FailureKind::Unreachable,
                    store_id: msg.to_peer.store_id,
                },
            ),
            RouterEffect::TrySend {
                channel: t.raft_router.ch.ch,
                msg: StoreMsg::ReportUnreachable {
                    region_id: msg.region_id,
                    to_peer_id: msg.to_peer.id,
                },
            },
        ],
{
    law_report_is_about_the_receiver(t, msg, effect);
}

/// On a server, a message that meets a running resolution ends in that same report.
pub proof fn law_server_reports_what_send_drops<B: Send, Q: Send, C: Send, O: Send>(
    t: &mut ServerTransport<ServerRaftStoreRouter<B, Q, C, O>>,
    msg: RaftMessage<B>,
    result: RaftStoreResult<Vec<Effect<B, StoreMsg<B, Q, C, O>>>>,
)
    requires
        !old(t).raft_client.addrs@.contains_key(msg.to_peer.store_id),
        old(t).resolving@.contains(msg.to_peer.store_id),
        call_ensures(
            ServerTransport::<ServerRaftStoreRouter<B, Q, C, O>>::send,
            (t, msg),
            result,
        ),
    ensures
        result is Ok,
        result->Ok_0@.len() == 2,
        result->Ok_0@[1] matches Effect::Router(steps) && steps@ == seq![
            RouterEffect::<StoreMsg<B, Q, C, O>>::Count(
                Counter::ReportFailure {
                    kind: FailureKind::Unreachable,
                    store_id: msg.to_peer.store_id,
                },
            ),
            RouterEffect::TrySend {
                channel: old(t).raft_router.ch.ch,
                msg: StoreMsg::ReportUnreachable {
                    region_id: msg.region_id,
                    to_peer_id: msg.to_peer.id,
                },
            },
        ],
{
    law_send_goes_to_the_receivers_store(t, msg, result);
}

/// On a server, a message whose resolution found no address ends in that same report.
pub proof fn law_server_reports_what_an_answer_drops<B: Send, Q: Send, C: Send, O: Send>(
    t: &mut ServerTransport<ServerRaftStoreRouter<B, Q, C, O>>,
    store_id: u64,
    msg: RaftMessage<B>,
    error: ServerError,
    effects: Vec<Effect<B, StoreMsg<B, Q, C, O>>>,
)
    requires
        call_ensures(
            ServerTransport::<ServerRaftStoreRouter<B, Q, C, O>>::resolved,
            (t, store_id, msg, Err::<SocketAddr, ServerError>(error)),
            effects,
        ),
    ensures
        effects@.len() == 2,
        effects@[1] matches Effect::Router(steps) && steps@ == seq![
            RouterEffect::<StoreMsg<B, Q, C, O>>::Count(
                Counter::ReportFailure {
                    kind: FailureKind::Unreachable,
                    store_id: msg.to_peer.store_id,
                },
            ),
            RouterEffect::TrySend {
                channel: old(t).raft_router.ch.ch,
                msg: StoreMsg::ReportUnreachable {
                    region_id: msg.region_id,
                    to_peer_id: msg.to_peer.id,
                },
            },
        ],
{
    law_missing_address_drops_what_waited(t, store_id, msg, error, effects);
}

/// A message can be sent to a store whose address is known, or that nothing is known of, and
/// an address can be taken, whatever the router. Where the router is needed, that it can be
/// used is all that is asked.
pub proof fn law_nothing_else_is_asked<T: RaftStoreRouter>(
    t: &mut ServerTransport<T>,
    store_id: u64,
    msg: RaftMessage<T::Body>,
    answer: Result<SocketAddr, ServerError>,
)
    ensures
        (old(t).raft_router.usable() || old(t).raft_client.addrs@.contains_key(
            msg.to_peer.store_id,
        ) || !old(t).resolving@.contains(msg.to_peer.store_id)) ==> call_requires(
            ServerTransport::<T>::send,
            (t, msg),
        ),
        (old(t).raft_router.usable() || old(t).raft_client.addrs@.contains_key(store_id)
            || !old(t).resolving@.contains(store_id)) ==> call_requires(
            ServerTransport::<T>::send_store,
            (t, store_id, msg),
        ),
        (old(t).raft_router.usable() || answer is Ok) ==> call_requires(
            ServerTransport::<T>::resolved,
            (t, store_id, msg, answer),
        ),
        old(t).raft_router.usable() ==> call_requires(
            ServerTransport::<T>::report_unreachable,
            (&*old(t), msg),
        ),
{
}

/// A server can send any message, take any answer and report any receiver, in every state.
pub proof fn law_server_refuses_nothing<B: Send, Q: Send, C: Send, O: Send>(
    t: &mut ServerTransport<ServerRaftStoreRouter<B, Q, C, O>>,
    store_id: u64,
    msg: RaftMessage<B>,
    answer: Result<SocketAddr, ServerError>,
)
    ensures
        call_requires(ServerTransport::<ServerRaftStoreRouter<B, Q, C, O>>::send, (t, msg)),
        call_requires(
            ServerTransport::<ServerRaftStoreRouter<B, Q, C, O>>::send_store,
            (t, store_id, msg),
        ),
        call_requires(
            ServerTransport::<ServerRaftStoreRouter<B, Q, C, O>>::resolved,
            (t, store_id, msg, answer),
        ),
        call_requires(
            ServerTransport::<ServerRaftStoreRouter<B, Q, C, O>>::report_unreachable,
            (&*old(t), msg),
        ),
{
    law_nothing_else_is_asked(t, store_id, msg, answer);
}

/// The last step of a report tells the local store of the reporter's region and peer, with
/// the status that was reported. A failure is counted before that, under the reporter's
/// store; nothing else is done.
pub proof fn law_report_tells_the_status_it_was_given(
    reporter: SnapshotReporter,
    status: SnapshotStatus,
    effects: Vec<ReportEffect>,
)
    requires
        call_ensures(SnapshotReporter::report, (&reporter, status), effects),
    ensures
        effects@.len() >= 1,
        effects@.last() matches ReportEffect::SendStatus(told) && told.region_id
            == reporter.region_id && told.to_peer_id == reporter.to_peer_id && told.status
            == status,
        status == SnapshotStatus::Finish ==> effects@.len() == 1,
        status == SnapshotStatus::Failure ==> effects@.len() == 2 && effects@[0]
            == ReportEffect::Count(
            Counter::ReportFailure {
                kind: FailureKind::Snapshot,
                store_id: reporter.to_store_id,
            },
        ),
{
}

/// A snapshot that was sent is told as finished, in one step; one that was not is counted and
/// told as failed. Either is told of the reporter's region and peer.
pub proof fn law_finished_tells_how_it_ended(
    reporter: SnapshotReporter,
    result: Result<(), ServerError>,
    effects: Vec<ReportEffect>,
)
    requires
        call_ensures(SnapshotReporter::finished, (&reporter, result), effects),
    ensures
        effects@.len() >= 1,
        effects@.last() matches ReportEffect::SendStatus(told) && told.region_id
            == reporter.region_id && told.to_peer_id == reporter.to_peer_id,
        result is Ok ==> effects@.len() == 1 && effects@.last()->SendStatus_0.status
            == SnapshotStatus::Finish,
        result is Err ==> effects@.len() == 2 && effects@.last()->SendStatus_0.status
            == SnapshotStatus::Failure && effects@[0] == ReportEffect::Count(
            Counter::ReportFailure {
                kind: FailureKind::Snapshot,
                store_id: reporter.to_store_id,
            },
        ),
{
}

/// A snapshot that the worker took is not told of yet; one that it did not take is counted
/// and told as failed, of the reporter's region and peer.
pub proof fn law_untaken_snapshot_is_told_as_failed(
    reporter: SnapshotReporter,
    answer: Result<(), Stopped>,
    effects: Vec<ReportEffect>,
)
    requires
        call_ensures(SnapshotReporter::scheduled, (&reporter, answer), effects),
    ensures
        answer is Ok ==> effects@.len() == 0,
        answer is Err ==> effects@ == seq![
            ReportEffect::Count(
                Counter::ReportFailure {
                    kind: FailureKind::Snapshot,
                    store_id: reporter.to_store_id,
                },
            ),
            ReportEffect::SendStatus(
                SnapshotStatusMsg {
                    region_id: reporter.region_id,
                    to_peer_id: reporter.to_peer_id,
                    status: SnapshotStatus::Failure,
                },
            ),
        ],
{
}

/// From a snapshot message to a store with a known address to the outcome of its sending:
/// what the local store is told names the region and the peer of that message, and says that
/// it finished just where it was sent.
pub proof fn law_outcome_names_the_snapshots_receiver<T: RaftStoreRouter>(
    t: &mut ServerTransport<T>,
    msg: RaftMessage<T::Body>,
    sent: RaftStoreResult<Vec<EffectOf<T>>>,
    result: Result<(), ServerError>,
    told: Vec<ReportEffect>,
)
    requires
        msg.has_snapshot,
        old(t).raft_client.addrs@.contains_key(msg.to_peer.store_id),
        call_ensures(ServerTransport::<T>::send, (t, msg), sent),
        call_ensures(
            SnapshotReporter::finished,
            (&sent->Ok_0@[0]->ScheduleSnapshot_reporter, result),
            told,
        ),
    ensures
        told@.len() >= 1,
        told@.last() matches ReportEffect::SendStatus(status_msg) && status_msg.region_id
            == msg.region_id && status_msg.to_peer_id == msg.to_peer.id && (status_msg.status
            == SnapshotStatus::Finish <==> result is Ok),
        result is Err ==> told@[0] == ReportEffect::Count(
            Counter::ReportFailure {
                kind: FailureKind::Snapshot,
                store_id: msg.to_peer.store_id,
            },
        ),
{
}

/// The server's router puts each message, whole and once, on its own channel. Only `send`
/// tries again; the others try once.
pub proof fn law_server_router_uses_its_channel<B: Send, Q: Send, C: Send, O: Send>(
    router: ServerRaftStoreRouter<B, Q, C, O>,
    msg: StoreMsg<B, Q, C, O>,
    raft_msg: RaftMessage<B>,
    req: Q,
    cb: C,
    sent: Vec<RouterEffect<StoreMsg<B, Q, C, O>>>,
    tried: Vec<RouterEffect<StoreMsg<B, Q, C, O>>>,
    raft_sent: Vec<RouterEffect<StoreMsg<B, Q, C, O>>>,
    cmd_sent: Vec<RouterEffect<StoreMsg<B, Q, C, O>>>,
)
    requires
        call_ensures(
            <ServerRaftStoreRouter<B, Q, C, O> as RaftStoreRouter>::send,
            (&router, msg),
            sent,
        ),
        call_ensures(
            <ServerRaftStoreRouter<B, Q, C, O> as RaftStoreRouter>::try_send,
            (&router, msg),
            tried,
        ),
        call_ensures(
            <ServerRaftStoreRouter<B, Q, C, O> as RaftStoreRouter>::send_raft_msg,
            (&router, raft_msg),
            raft_sent,
        ),
        call_ensures(
            <ServerRaftStoreRouter<B, Q, C, O> as RaftStoreRouter>::send_command,
            (&router, req, cb),
            cmd_sent,
        ),
    ensures
        sent@.len() == 1,
        sent@[0] matches RouterEffect::Send { channel, msg: on_it } && channel == router.ch.ch
            && on_it == msg,
        tried@.len() == 1,
        tried@[0] matches RouterEffect::TrySend { channel, msg: on_it } && channel
            == router.ch.ch && on_it == msg,
        raft_sent@.len() == 1,
        raft_sent@[0] matches RouterEffect::TrySend { channel, msg: on_it } && channel
            == router.ch.ch && on_it == StoreMsg::<B, Q, C, O>::RaftMessage(raft_msg),
        cmd_sent@.len() == 1,
        cmd_sent@[0] matches RouterEffect::TrySend { channel, msg: on_it } && channel
            == router.ch.ch && (on_it matches StoreMsg::RaftCmd { request, callback } && request
            == req && callback == cb),
{
}

/// The server's router counts an unreachable peer under the store named and tries once to
/// tell the local store of the region and the peer named.
pub proof fn law_server_router_counts_and_tells<B: Send, Q: Send, C: Send, O: Send>(
    router: ServerRaftStoreRouter<B, Q, C, O>,
    region_id: u64,
    to_peer_id: u64,
    to_store_id: u64,
    steps: Vec<RouterEffect<StoreMsg<B, Q, C, O>>>,
)
    requires
        call_ensures(
            <ServerRaftStoreRouter<B, Q, C, O> as RaftStoreRouter>::report_unreachable,
            (&router, region_id, to_peer_id, to_store_id),
            steps,
        ),
    ensures
        steps@.len() == 2,
        steps@[0] matches RouterEffect::Count(counter) && counter == (Counter::ReportFailure {
            kind: FailureKind::Unreachable,
            store_id: to_store_id,
        }),
        steps@[1] matches RouterEffect::TrySend { channel, msg } && channel == router.ch.ch && (
        msg matches StoreMsg::ReportUnreachable { region_id: region, to_peer_id: peer } && region
            == region_id && peer == to_peer_id),
{
}

/// A server's router is for the channel that its sending end was made for, and so is a clone
/// of either.
pub proof fn law_server_router_keeps_its_channel<B: Send, Q: Send, C: Send, O: Send>(
    id: ChannelId,
    name: &'static str,
    ch: SendCh<StoreMsg<B, Q, C, O>>,
    cloned_ch: SendCh<StoreMsg<B, Q, C, O>>,
    router: ServerRaftStoreRouter<B, Q, C, O>,
    cloned: ServerRaftStoreRouter<B, Q, C, O>,
)
    requires
        call_ensures(SendCh::<StoreMsg<B, Q, C, O>>::new, (id, name), ch),
        call_ensures(<SendCh<StoreMsg<B, Q, C, O>> as Clone>::clone, (&ch,), cloned_ch),
        call_ensures(ServerRaftStoreRouter::<B, Q, C, O>::new, (cloned_ch,), router),
        call_ensures(
            <ServerRaftStoreRouter<B, Q, C, O> as Clone>::clone,
            (&router,),
            cloned,
        ),
    ensures
        ch.ch == id,
        ch.name == name,
        cloned_ch.ch == id,
        cloned_ch.name == name,
        router.ch.ch == id,
        router.ch.name == name,
        cloned.ch.ch == id,
        cloned.ch.name == name,
{
}

/// A command for the store holds the request and the callback it was made of.
pub proof fn law_command_holds_what_it_is_made_of<B, Q, C, O>(
    request: Q,
    callback: C,
    cmd: StoreMsg<B, Q, C, O>,
)
    requires
        call_ensures(StoreMsg::<B, Q, C, O>::new_raft_cmd, (request, callback), cmd),
    ensures
        cmd matches StoreMsg::RaftCmd { request: held, callback: called } && held == request
            && called == callback,
{
}

/// A router that says nothing of its own sends Raft messages, commands and reports as its
/// `try_send` does: the message itself, the command with its callback, and the region and
/// the peer named. Said of the one such router here; it holds of each alike.
pub proof fn law_kept_defaults_try_once<B: Send, Q: Send, C: Send, O: Send>(
    router: MockRaftStoreRouter<B, Q, C, O>,
    raft_msg: RaftMessage<B>,
    req: Q,
    cb: C,
    region_id: u64,
    to_peer_id: u64,
    to_store_id: u64,
    raft_sent: Vec<RouterEffect<StoreMsg<B, Q, C, O>>>,
    cmd_sent: Vec<RouterEffect<StoreMsg<B, Q, C, O>>>,
    reported: Vec<RouterEffect<StoreMsg<B, Q, C, O>>>,
)
    requires
        call_ensures(
            <MockRaftStoreRouter<B, Q, C, O> as RaftStoreRouter>::send_raft_msg,
            (&router, raft_msg),
            raft_sent,
        ),
        call_ensures(
            <MockRaftStoreRouter<B, Q, C, O> as RaftStoreRouter>::send_command,
            (&router, req, cb),
            cmd_sent,
        ),
        call_ensures(
            <MockRaftStoreRouter<B, Q, C, O> as RaftStoreRouter>::report_unreachable,
            (&router, region_id, to_peer_id, to_store_id),
            reported,
        ),
    ensures
        call_ensures(
            <MockRaftStoreRouter<B, Q, C, O> as RaftStoreRouter>::try_send,
            (&router, StoreMsg::<B, Q, C, O>::RaftMessage(raft_msg)),
            raft_sent,
        ),
        call_ensures(
            <MockRaftStoreRouter<B, Q, C, O> as RaftStoreRouter>::try_send,
            (&router, StoreMsg::<B, Q, C, O>::RaftCmd { request: req, callback: cb }),
            cmd_sent,
        ),
        call_ensures(
            <MockRaftStoreRouter<B, Q, C, O> as RaftStoreRouter>::try_send,
            (&router, StoreMsg::<B, Q, C, O>::ReportUnreachable { region_id, to_peer_id }),
            reported,
        ),
{
}

/// The channel's answer is the result: success as success, and a refusal with its reason. A
/// router's steps go on, all that are left, after the one and end with the other.
pub proof fn law_refusal_ends_the_steps<M>(
    rest: Vec<RouterEffect<M>>,
    answer: Result<(), String>,
    result: RaftStoreResult<()>,
    next: RaftStoreResult<Vec<RouterEffect<M>>>,
)
    requires
        call_ensures(channel_result, (answer,), result),
        call_ensures(after_answer::<M>, (rest, answer), next),
    ensures
        answer is Ok ==> result is Ok && next is Ok && next->Ok_0 == rest,
        answer is Err ==> (result matches Err(RaftStoreError::Transport(reason)) && reason
            == answer->Err_0),
        answer is Err ==> (next matches Err(RaftStoreError::Transport(reason)) && reason
            == answer->Err_0),
{
}

/// The label of a store is its id in decimal: a digit for an id below ten, and for any other
/// the label of its tenth part followed by the label of what is left.
pub proof fn law_store_label_is_decimal(
    store_id: u64,
    label: String,
    tenth_label: String,
    digit_label: String,
)
    requires
        call_ensures(store_label, (store_id,), label),
        call_ensures(store_label, ((store_id / 10) as u64,), tenth_label),
        call_ensures(store_label, ((store_id % 10) as u64,), digit_label),
    ensures
        store_id == 0 ==> label@ == seq!['0'],
        store_id == 1 ==> label@ == seq!['1'],
        store_id == 2 ==> label@ == seq!['2'],
        store_id == 3 ==> label@ == seq!['3'],
        store_id == 4 ==> label@ == seq!['4'],
        store_id == 5 ==> label@ == seq!['5'],
        store_id == 6 ==> label@ == seq!['6'],
        store_id == 7 ==> label@ == seq!['7'],
        store_id == 8 ==> label@ == seq!['8'],
        store_id == 9 ==> label@ == seq!['9'],
        store_id >= 10 ==> label@ == tenth_label@ + digit_label@,
{
}

/// A counter's label values are the words for what is counted, and for a failure report the
/// label of the store it is about.
pub proof fn law_counters_have_their_labels(
    counter: Counter,
    store_id: u64,
    values: Vec<String>,
    label: String,
)
    requires
        call_ensures(Counter::label_values, (counter,), values),
        call_ensures(store_label, (store_id,), label),
    ensures
        counter is ResolveStore ==> values@.len() == 1,
        counter == Counter::ResolveStore(ResolveLabel::Resolving) ==> values@[0]@ == "resolving"@,
        counter == Counter::ResolveStore(ResolveLabel::Snap) ==> values@[0]@ == "snap"@,
        counter == Counter::ResolveStore(ResolveLabel::Store) ==> values@[0]@ == "store"@,
        counter == Counter::ResolveStore(ResolveLabel::Failed) ==> values@[0]@ == "failed"@,
        counter == Counter::ResolveStore(ResolveLabel::Success) ==> values@[0]@ == "success"@,
        counter == (Counter::ReportFailure { kind: FailureKind::Unreachable, store_id })
            ==> values@.len() == 2 && values@[0]@ == "unreachable"@ && values@[1]@ == label@,
        counter == (Counter::ReportFailure { kind: FailureKind::Snapshot, store_id })
            ==> values@.len() == 2 && values@[0]@ == "snapshot"@ && values@[1]@ == label@,
{
    let texts = values@.map_values(|value: String| value@);
    assert(texts.len() == values@.len());
    if values@.len() > 0 {
        assert(texts[0] == values@[0]@);
    }
    if values@.len() > 1 {
        assert(texts[1] == values@[1]@);
    }
}

/// Each reason for counting has a word of its own, and these are the words.
pub proof fn law_labels_have_their_words(
    label: ResolveLabel,
    kind: FailureKind,
    label_text: &'static str,
    kind_text: &'static str,
)
    requires
        call_ensures(ResolveLabel::text, (label,), label_text),
        call_ensures(FailureKind::text, (kind,), kind_text),
    ensures
        label == ResolveLabel::Resolving ==> label_text@ == "resolving"@,
        label == ResolveLabel::Snap ==> label_text@ == "snap"@,
        label == ResolveLabel::Store ==> label_text@ == "store"@,
        label == ResolveLabel::Failed ==> label_text@ == "failed"@,
        label == ResolveLabel::Success ==> label_text@ == "success"@,
        kind == FailureKind::Unreachable ==> kind_text@ == "unreachable"@,
        kind == FailureKind::Snapshot ==> kind_text@ == "snapshot"@,
{
}

} // verus!
