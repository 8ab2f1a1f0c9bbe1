//! Carrying Raft messages to other stores.

use std::collections::{HashMap, HashSet};

use vstd::prelude::*;

use crate::message::{RaftMessage, ServerError, SocketAddr};
use crate::metrics::{Counter, ResolveLabel};
use crate::router::{RaftStoreResult, RaftStoreRouter, RouterEffect, StoreMsgOf};
use crate::snapshot::SnapshotReporter;

verus! {

broadcast use vstd::std_specs::hash::group_hash_axioms;

/// One step of what a transport's caller is to do. `B` is what a Raft message holds besides
/// its header, `M` what the local store is told.
#[derive(Debug)]
pub enum Effect<B, M> {
    /// Bump a counter.
    Count(Counter),
    /// Take the router's steps. Whether they work makes no difference to the transport.
    Router(Vec<RouterEffect<M>>),
    /// Ask for the store's address, and hand the answer to [`ServerTransport::resolved`]
    /// together with the store and the message. If the request is refused there is no
    /// answer, and nothing to hand back.
    Resolve { store_id: u64, msg: RaftMessage<B> },
    /// Send the message over the connection to the store at `addr`. Whether that works makes
    /// no difference to the transport.
    SendRaft { store_id: u64, addr: SocketAddr, msg: RaftMessage<B> },
    /// Have the snapshot worker send the message to `addr`, and hand its answers to the
    /// reporter.
    ScheduleSnapshot { addr: SocketAddr, msg: RaftMessage<B>, reporter: SnapshotReporter },
}

/// A step of a transport whose router is `T`.
pub type EffectOf<T> = Effect<<T as RaftStoreRouter>::Body, StoreMsgOf<T>>;

/// The addresses of the stores that connections can be made to.
#[derive(Debug)]
pub struct RaftClient {
    pub addrs: HashMap<u64, SocketAddr>,
}

/// What a transport knows: the addresses of stores, and the stores whose address it has
/// asked for and not been told.
#[verifier::ext_equal]
pub struct TransportView {
    pub addrs: Map<u64, SocketAddr>,
    pub resolving: Set<u64>,
}

/// Sends messages to other stores, finding out their addresses first where it has to.
///
/// Those who share a transport share it behind a lock: each handler is one step.
#[derive(Debug)]
pub struct ServerTransport<T: RaftStoreRouter> {
    /// Shared with whoever makes the connections, who may change the addresses.
    pub raft_client: RaftClient,
    pub raft_router: T,
    pub resolving: HashSet<u64>,
}

impl<T: RaftStoreRouter> View for ServerTransport<T> {
    type V = TransportView;

    open spec fn view(&self) -> TransportView {
        TransportView { addrs: self.raft_client.addrs@, resolving: self.resolving@ }
    }
}

/// The steps that deliver `msg` to a store whose address is known: a snapshot goes to the
/// snapshot worker, anything else over the connection.
pub open spec fn write_data_effects<B, M>(
    store_id: u64,
    addr: SocketAddr,
    msg: RaftMessage<B>,
) -> Seq<Effect<B, M>> {
    if msg.has_snapshot {
        seq![Effect::ScheduleSnapshot { addr, msg, reporter: SnapshotReporter::of(msg) }]
    } else {
        seq![Effect::SendRaft { store_id, addr, msg }]
    }
}

/// The router may answer `steps` when asked to tell the local store that the receiver of
/// `msg` cannot be reached: the region and the peer of `msg` are what it is asked about, and
/// what it answers is its own affair.
pub open spec fn reports_unreachable<T: RaftStoreRouter>(
    router: T,
    msg: RaftMessage<T::Body>,
    steps: Vec<RouterEffect<StoreMsgOf<T>>>,
) -> bool {
    call_ensures(
        T::report_unreachable,
        (&router, msg.region_id, msg.to_peer.id, msg.to_peer.store_id),
        steps,
    )
}

/// The counter label under which a resolution starts for `msg`.
pub open spec fn start_label<B>(msg: RaftMessage<B>) -> ResolveLabel {
    if msg.has_snapshot {
        ResolveLabel::Snap
    } else {
        ResolveLabel::Store
    }
}

impl TransportView {
    /// A message for the store is delivered at once.
    pub open spec fn knows(self, store_id: u64) -> bool {
        self.addrs.contains_key(store_id)
    }

    /// A message for the store is dropped, as its address is still being asked for.
    pub open spec fn awaits(self, store_id: u64) -> bool {
        !self.knows(store_id) && self.resolving.contains(store_id)
    }

    /// What is known after a message for the store has been handed in: if its address is
    /// neither known nor being asked for, it is being asked for now.
    pub open spec fn after_send(self, store_id: u64) -> TransportView {
        if self.knows(store_id) {
            self
        } else {
            TransportView { resolving: self.resolving.insert(store_id), ..self }
        }
    }

    /// What is done about `msg` to a store. If it is dropped, `steps` are the router's to
    /// report its receiver unreachable; otherwise they play no part.
    pub open spec fn send_effects<B, M>(
        self,
        store_id: u64,
        msg: RaftMessage<B>,
        steps: Vec<RouterEffect<M>>,
    ) -> Seq<Effect<B, M>> {
        if self.knows(store_id) {
            write_data_effects(store_id, self.addrs[store_id], msg)
        } else if self.awaits(store_id) {
            seq![
                Effect::Count(Counter::ResolveStore(ResolveLabel::Resolving)),
                Effect::Router(steps),
            ]
        } else {
            seq![
                Effect::Count(Counter::ResolveStore(start_label(msg))),
                Effect::Resolve { store_id, msg },
            ]
        }
    }

    /// `effects` are what is done about `msg` to a store, the router being asked for a report
    /// if the message is dropped.
    pub open spec fn sends<T: RaftStoreRouter>(
        self,
        router: T,
        store_id: u64,
        msg: RaftMessage<T::Body>,
        effects: Seq<EffectOf<T>>,
    ) -> bool {
        exists|steps: Vec<RouterEffect<StoreMsgOf<T>>>|
            {
                &&& self.awaits(store_id) ==> reports_unreachable(router, msg, steps)
                &&& effects == #[trigger] self.send_effects(store_id, msg, steps)
            }
    }

    /// What is known after the resolution of the store's address has been answered.
    pub open spec fn after_resolved(
        self,
        store_id: u64,
        answer: Result<SocketAddr, ServerError>,
    ) -> TransportView {
        TransportView {
            addrs: match answer {
                Ok(addr) => self.addrs.insert(store_id, addr),
                Err(_) => self.addrs,
            },
            resolving: self.resolving.remove(store_id),
        }
    }
}

/// What is done about the message that a resolution was started for, once it is answered. If
/// the message is dropped, `steps` are the router's to report its receiver unreachable;
/// otherwise they play no part.
pub open spec fn resolved_effects<B, M>(
    store_id: u64,
    msg: RaftMessage<B>,
    answer: Result<SocketAddr, ServerError>,
    steps: Vec<RouterEffect<M>>,
) -> Seq<Effect<B, M>> {
    match answer {
        Ok(addr) => seq![Effect::Count(Counter::ResolveStore(ResolveLabel::Success))]
            + write_data_effects(store_id, addr, msg),
        Err(_) => seq![
            Effect::Count(Counter::ResolveStore(ResolveLabel::Failed)),
            Effect::Router(steps),
        ],
    }
}

/// `effects` are what is done about the message that a resolution was started for, the router
/// being asked for a report if no address was found.
pub open spec fn resolves<T: RaftStoreRouter>(
    router: T,
    store_id: u64,
    msg: RaftMessage<T::Body>,
    answer: Result<SocketAddr, ServerError>,
    effects: Seq<EffectOf<T>>,
) -> bool {
    exists|steps: Vec<RouterEffect<StoreMsgOf<T>>>|
        {
            &&& answer is Err ==> reports_unreachable(router, msg, steps)
            &&& effects == #[trigger] resolved_effects(store_id, msg, answer, steps)
        }
}

impl<T: RaftStoreRouter> ServerTransport<T> {
    pub fn new(raft_client: RaftClient, raft_router: T) -> (transport: Self)
        ensures
            transport@ == (TransportView {
                addrs: raft_client.addrs@,
                resolving: Set::<u64>::empty(),
            }),
            transport.raft_router == raft_router,
    {
        ServerTransport { raft_client, raft_router, resolving: HashSet::new() }
    }

    /// Sends a message to the store that its receiver lives on.
    pub fn send(&mut self, msg: RaftMessage<T::Body>) -> (result: RaftStoreResult<
        Vec<EffectOf<T>>,
    >)
        requires
            old(self)@.awaits(msg.to_peer.store_id) ==> old(self).raft_router.usable(),
        ensures
            final(self)@ == old(self)@.after_send(msg.to_peer.store_id),
            final(self).raft_router == old(self).raft_router,
            result is Ok,
            old(self)@.sends(
                old(self).raft_router,
                msg.to_peer.store_id,
                msg,
                result->Ok_0@,
            ),
            old(self).raft_client.addrs@.contains_key(msg.to_peer.store_id)
                && !msg.has_snapshot ==> result->Ok_0@ == seq![
                Effect::<T::Body, StoreMsgOf<T>>::SendRaft {
                    store_id: msg.to_peer.store_id,
                    addr: old(self).raft_client.addrs@[msg.to_peer.store_id],
                    msg,
                },
            ],
            old(self).raft_client.addrs@.contains_key(msg.to_peer.store_id)
                && msg.has_snapshot ==> result->Ok_0@ == seq![
                Effect::<T::Body, StoreMsgOf<T>>::ScheduleSnapshot {
                    addr: old(self).raft_client.addrs@[msg.to_peer.store_id],
                    msg,
                    reporter: SnapshotReporter {
                        region_id: msg.region_id,
                        to_peer_id: msg.to_peer.id,
                        to_store_id: msg.to_peer.store_id,
                    },
                },
            ],
    {
        let to_store_id: u64 = msg.to_peer.store_id;
        Ok(self.send_store(to_store_id, msg))
    }

    /// Sends a message to a store.
    pub fn send_store(&mut self, store_id: u64, msg: RaftMessage<T::Body>) -> (effects: Vec<
        EffectOf<T>,
    >)
        requires
            old(self)@.awaits(store_id) ==> old(self).raft_router.usable(),
        ensures
            final(self)@ == old(self)@.after_send(store_id),
            final(self).raft_router == old(self).raft_router,
            old(self)@.sends(old(self).raft_router, store_id, msg, effects@),
            old(self).raft_client.addrs@.contains_key(store_id)
                && !msg.has_snapshot ==> effects@ == seq![
                Effect::<T::Body, StoreMsgOf<T>>::SendRaft {
                    store_id,
                    addr: old(self).raft_client.addrs@[store_id],
                    msg,
                },
            ],
            old(self).raft_client.addrs@.contains_key(store_id)
                && msg.has_snapshot ==> effects@ == seq![
                Effect::<T::Body, StoreMsgOf<T>>::ScheduleSnapshot {
                    addr: old(self).raft_client.addrs@[store_id],
                    msg,
                    reporter: SnapshotReporter {
                        region_id: msg.region_id,
                        to_peer_id: msg.to_peer.id,
                        to_store_id: msg.to_peer.store_id,
                    },
                },
            ],
    {
        let ghost sent = msg;
        let ghost no_steps: Vec<RouterEffect<StoreMsgOf<T>>> = arbitrary();
        if let Some(addr) = self.raft_client.addrs.get(&store_id) {
            let addr = *addr;
            let effects = self.write_data(store_id, addr, msg);
            assert(effects@ == old(self)@.send_effects(store_id, sent, no_steps));
            return effects;
        }
        let mut effects: Vec<EffectOf<T>> = Vec::new();
        if self.resolving.contains(&store_id) {
            // The address is on its way; until it is here the message is dropped.
            effects.push(Effect::Count(Counter::ResolveStore(ResolveLabel::Resolving)));
            let reported = self.report_unreachable(msg);
            effects.push(reported);
            assert(self@ =~= old(self)@.after_send(store_id));
            assert(effects@ =~= old(self)@.send_effects(store_id, sent, reported->Router_0));
            return effects;
        }
        let label = if msg.has_snapshot {
            ResolveLabel::Snap
        } else {
            ResolveLabel::Store
        };
        effects.push(Effect::Count(Counter::ResolveStore(label)));
        self.resolving.insert(store_id);
        effects.push(self.resolve(store_id, msg));
        assert(effects@ =~= old(self)@.send_effects(store_id, sent, no_steps));
        effects
    }

    /// Asks for a store's address on behalf of a message.
    fn resolve(&self, store_id: u64, msg: RaftMessage<T::Body>) -> (effect: EffectOf<T>)
        ensures
            effect == (Effect::<T::Body, StoreMsgOf<T>>::Resolve { store_id, msg }),
    {
        Effect::Resolve { store_id, msg }
    }

    /// The resolution of a store's address, which was asked for on behalf of `msg`, has
    /// been answered.
    pub fn resolved(
        &mut self,
        store_id: u64,
        msg: RaftMessage<T::Body>,
        answer: Result<SocketAddr, ServerError>,
    ) -> (effects: Vec<EffectOf<T>>)
        requires
            answer is Err ==> old(self).raft_router.usable(),
        ensures
            final(self)@ == old(self)@.after_resolved(store_id, answer),
            final(self).raft_router == old(self).raft_router,
            resolves(old(self).raft_router, store_id, msg, answer, effects@),
            answer is Ok && !msg.has_snapshot ==> effects@ == seq![
                Effect::Count(Counter::ResolveStore(ResolveLabel::Success)),
                Effect::<T::Body, StoreMsgOf<T>>::SendRaft {
                    store_id,
                    addr: answer->Ok_0,
                    msg,
                },
            ],
            answer is Ok && msg.has_snapshot ==> effects@ == seq![
                Effect::Count(Counter::ResolveStore(ResolveLabel::Success)),
                Effect::<T::Body, StoreMsgOf<T>>::ScheduleSnapshot {
                    addr: answer->Ok_0,
                    msg,
                    reporter: SnapshotReporter {
                        region_id: msg.region_id,
                        to_peer_id: msg.to_peer.id,
                        to_store_id: msg.to_peer.store_id,
                    },
                },
            ],
    {
        let ghost sent = msg;
        let ghost mut steps: Vec<RouterEffect<StoreMsgOf<T>>> = arbitrary();
        self.resolving.remove(&store_id);
        let mut effects: Vec<EffectOf<T>> = Vec::new();
        match answer {
            Err(_) => {
                effects.push(Effect::Count(Counter::ResolveStore(ResolveLabel::Failed)));
                let reported = self.report_unreachable(msg);
                proof {
                    steps = reported->Router_0;
                }
                effects.push(reported);
            },
            Ok(addr) => {
                effects.push(Effect::Count(Counter::ResolveStore(ResolveLabel::Success)));
                self.raft_client.addrs.insert(store_id, addr);
                let mut written = self.write_data(store_id, addr, msg);
                effects.append(&mut written);
            },
        }
        assert(effects@ =~= resolved_effects(store_id, sent, answer, steps));
        effects
    }

    /// Delivers a message to a store at a known address.
    pub fn write_data(
        &self,
        store_id: u64,
        addr: SocketAddr,
        msg: RaftMessage<T::Body>,
    ) -> (effects: Vec<EffectOf<T>>)
        ensures
            effects@ == write_data_effects::<T::Body, StoreMsgOf<T>>(
                store_id,
                addr,
                msg,
            ),
            !msg.has_snapshot ==> effects@ == seq![
                Effect::<T::Body, StoreMsgOf<T>>::SendRaft {
                    store_id,
                    addr,
                    msg,
                },
            ],
            msg.has_snapshot ==> effects@ == seq![
                Effect::<T::Body, StoreMsgOf<T>>::ScheduleSnapshot {
                    addr,
                    msg,
                    reporter: SnapshotReporter {
                        region_id: msg.region_id,
                        to_peer_id: msg.to_peer.id,
                        to_store_id: msg.to_peer.store_id,
                    },
                },
            ],
    {
        let mut effects: Vec<EffectOf<T>> = Vec::new();
        if msg.has_snapshot {
            effects.push(self.send_snapshot_sock(addr, msg));
        } else {
            effects.push(Effect::SendRaft { store_id, addr, msg });
        }
        effects
    }

    /// Has a message with a snapshot sent over a connection of its own.
    fn send_snapshot_sock(&self, sock_addr: SocketAddr, msg: RaftMessage<T::Body>) -> (effect: EffectOf<
        T,
    >)
        ensures
            effect == (Effect::<T::Body, StoreMsgOf<T>>::ScheduleSnapshot {
                addr: sock_addr,
                msg,
                reporter: SnapshotReporter {
                    region_id: msg.region_id,
                    to_peer_id: msg.to_peer.id,
                    to_store_id: msg.to_peer.store_id,
                },
            }),
    {
        let reporter = self.new_snapshot_reporter(&msg);
        Effect::ScheduleSnapshot { addr: sock_addr, msg, reporter }
    }

    /// The reporter of a message's snapshot.
    pub fn new_snapshot_reporter(&self, msg: &RaftMessage<T::Body>) -> (reporter:
        SnapshotReporter)
        ensures
            reporter == SnapshotReporter::of(*msg),
            reporter.region_id == msg.region_id,
            reporter.to_peer_id == msg.to_peer.id,
            reporter.to_store_id == msg.to_peer.store_id,
    {
        SnapshotReporter {
            region_id: msg.region_id,
            to_peer_id: msg.to_peer.id,
            to_store_id: msg.to_peer.store_id,
        }
    }

    /// Tells the local store that the receiver of `msg` cannot be reached.
    pub fn report_unreachable(&self, msg: RaftMessage<T::Body>) -> (effect: EffectOf<T>)
        requires
            self.raft_router.usable(),
        ensures
            effect is Router,
            reports_unreachable(self.raft_router, msg, effect->Router_0),
            call_ensures(
                T::report_unreachable,
                (&self.raft_router, msg.region_id, msg.to_peer.id, msg.to_peer.store_id),
                effect->Router_0,
            ),
    {
        let region_id: u64 = msg.region_id;
        let to_peer_id: u64 = msg.to_peer.id;
        let to_store_id: u64 = msg.to_peer.store_id;
        Effect::Router(self.raft_router.report_unreachable(region_id, to_peer_id, to_store_id))
    }
}

} // verus!
