//! Routing to the store that runs in this process.

use std::marker::PhantomData;

use vstd::prelude::*;

use crate::message::{RaftMessage, StoreMsg};
use crate::metrics::{Counter, FailureKind};

verus! {

/// Why the local store could not be told something.
#[derive(Debug)]
pub enum RaftStoreError {
    /// The channel to the store did not take the message, for the reason given.
    Transport(String),
}

pub type RaftStoreResult<T> = Result<T, RaftStoreError>;

/// The handle under which a server finds the channel of an event loop. Whoever makes the
/// channels gives each one of its own.
#[derive(Clone, Copy, Debug, PartialEq, Eq, Hash, Structural)]
pub struct ChannelId(pub u64);

/// One step of what a router's caller is to do. `M` is what the store is told.
#[derive(Debug)]
pub enum RouterEffect<M> {
    /// Bump a counter.
    Count(Counter),
    /// Put the message on the channel, trying again if that fails.
    Send { channel: ChannelId, msg: M },
    /// Put the message on the channel, trying once.
    TrySend { channel: ChannelId, msg: M },
}

/// What the store is told through a router `T`.
pub type StoreMsgOf<T> = StoreMsg<
    <T as RaftStoreRouter>::Body,
    <T as RaftStoreRouter>::Request,
    <T as RaftStoreRouter>::Callback,
    <T as RaftStoreRouter>::Other,
>;

/// A way to the local store.
///
/// Each method returns the steps that deliver its argument. They are taken in order; the
/// first send that the channel refuses ends them, and what the channel answered decides the
/// result of the whole: see [`after_answer`].
pub trait RaftStoreRouter: Send + Clone {
    /// What a Raft message holds besides its header.
    type Body;

    /// A command for the store.
    type Request;

    /// What is called with the command's response.
    type Callback;

    /// What else the store can be told.
    type Other;

    /// Whether this router can be asked to route anything.
    open spec fn usable(&self) -> bool {
        true
    }

    /// Sends `msg`, and again if that fails. How often may vary from router to router.
    fn send(
        &self,
        msg: StoreMsgOf<Self>,
    ) -> (effects: Vec<RouterEffect<StoreMsgOf<Self>>>)
        requires
            self.usable(),
    ;

    /// Sends `msg`.
    fn try_send(
        &self,
        msg: StoreMsgOf<Self>,
    ) -> (effects: Vec<RouterEffect<StoreMsgOf<Self>>>)
        requires
            self.usable(),
    ;

    /// Sends a Raft message to the local store: unless a router says otherwise, as
    /// `try_send` does.
    fn send_raft_msg(
        &self,
        msg: RaftMessage<Self::Body>,
    ) -> (effects: Vec<RouterEffect<StoreMsgOf<Self>>>)
        requires
            self.usable(),
        default_ensures
            call_ensures(Self::try_send, (self, StoreMsg::RaftMessage(msg)), effects),
    {
        self.try_send(StoreMsg::RaftMessage(msg))
    }

    /// Sends a command to the local store: unless a router says otherwise, as `try_send`
    /// does.
    fn send_command(
        &self,
        req: Self::Request,
        cb: Self::Callback,
    ) -> (effects: Vec<RouterEffect<StoreMsgOf<Self>>>)
        requires
            self.usable(),
        default_ensures
            call_ensures(
                Self::try_send,
                (self, StoreMsg::RaftCmd { request: req, callback: cb }),
                effects,
            ),
    {
        self.try_send(StoreMsg::new_raft_cmd(req, cb))
    }

    /// Tells the local store that a peer of one of its regions cannot be reached: unless a
    /// router says otherwise, as `try_send` does.
    fn report_unreachable(
        &self,
        region_id: u64,
        to_peer_id: u64,
        to_store_id: u64,
    ) -> (effects: Vec<RouterEffect<StoreMsgOf<Self>>>)
        requires
            self.usable(),
        default_ensures
            call_ensures(
                Self::try_send,
                (self, StoreMsg::ReportUnreachable { region_id, to_peer_id }),
                effects,
            ),
    {
        self.try_send(StoreMsg::ReportUnreachable { region_id, to_peer_id })
    }
}

/// What a router's caller gets to know once the channel has answered.
pub fn channel_result(answer: Result<(), String>) -> (result: RaftStoreResult<()>)
    ensures
        answer is Ok <==> result is Ok,
        answer matches Err(reason) ==> result == Err::<(), RaftStoreError>(
            RaftStoreError::Transport(reason),
        ),
{
    match answer {
        Ok(()) => Ok(()),
        Err(reason) => Err(RaftStoreError::Transport(reason)),
    }
}

/// What is left to do of a router's steps once the channel has answered one of them: `rest`,
/// if it took the message; nothing, if it did not, and that is the result of the whole.
pub fn after_answer<M>(rest: Vec<RouterEffect<M>>, answer: Result<(), String>) -> (next:
    RaftStoreResult<Vec<RouterEffect<M>>>)
    ensures
        next == (match answer {
            Ok(()) => Ok::<Vec<RouterEffect<M>>, RaftStoreError>(rest),
            Err(reason) => Err(RaftStoreError::Transport(reason)),
        }),
{
    match channel_result(answer) {
        Ok(()) => Ok(rest),
        Err(error) => Err(error),
    }
}

/// The sending end of an event loop's channel, with a name for the log; `M` travels on it.
#[derive(Debug)]
pub struct SendCh<M> {
    pub ch: ChannelId,
    pub name: &'static str,
    pub carries: PhantomData<M>,
}

impl<M> SendCh<M> {
    pub fn new(ch: ChannelId, name: &'static str) -> (send_ch: Self)
        ensures
            send_ch.ch == ch,
            send_ch.name == name,
    {
        SendCh { ch, name, carries: PhantomData }
    }
}

impl<M> Clone for SendCh<M> {
    fn clone(&self) -> (send_ch: Self)
        ensures
            send_ch == *self,
    {
        SendCh { ch: self.ch, name: self.name, carries: PhantomData }
    }
}

/// The router of a server: straight onto the channel of the store's event loop.
#[derive(Debug)]
pub struct ServerRaftStoreRouter<B, Q, C, O> {
    pub ch: SendCh<StoreMsg<B, Q, C, O>>,
}

impl<B, Q, C, O> ServerRaftStoreRouter<B, Q, C, O> {
    pub fn new(ch: SendCh<StoreMsg<B, Q, C, O>>) -> (router: Self)
        ensures
            router.ch == ch,
    {
        ServerRaftStoreRouter { ch }
    }
}

impl<B, Q, C, O> Clone for ServerRaftStoreRouter<B, Q, C, O> {
    fn clone(&self) -> (router: Self)
        ensures
            router == *self,
    {
        ServerRaftStoreRouter { ch: self.ch.clone() }
    }
}

impl<B: Send, Q: Send, C: Send, O: Send> RaftStoreRouter for ServerRaftStoreRouter<B, Q, C, O> {
    type Body = B;

    type Request = Q;

    type Callback = C;

    type Other = O;

    open spec fn usable(&self) -> bool {
        true
    }

    fn send(&self, msg: StoreMsg<B, Q, C, O>) -> (effects: Vec<
        RouterEffect<StoreMsg<B, Q, C, O>>,
    >)
        ensures
            effects@ == seq![RouterEffect::Send { channel: self.ch.ch, msg }],
    {
        let mut effects: Vec<RouterEffect<StoreMsg<B, Q, C, O>>> = Vec::new();
        effects.push(RouterEffect::Send { channel: self.ch.ch, msg });
        effects
    }

    fn try_send(&self, msg: StoreMsg<B, Q, C, O>) -> (effects: Vec<
        RouterEffect<StoreMsg<B, Q, C, O>>,
    >)
        ensures
            effects@ == seq![RouterEffect::TrySend { channel: self.ch.ch, msg }],
    {
        let mut effects: Vec<RouterEffect<StoreMsg<B, Q, C, O>>> = Vec::new();
        effects.push(RouterEffect::TrySend { channel: self.ch.ch, msg });
        effects
    }

    fn send_raft_msg(&self, msg: RaftMessage<B>) -> (effects: Vec<
        RouterEffect<StoreMsg<B, Q, C, O>>,
    >)
        ensures
            effects@ == seq![
                RouterEffect::TrySend {
                    channel: self.ch.ch,
                    msg: StoreMsg::<B, Q, C, O>::RaftMessage(msg),
                },
            ],
    {
        self.try_send(StoreMsg::RaftMessage(msg))
    }

    fn send_command(&self, req: Q, cb: C) -> (effects: Vec<RouterEffect<StoreMsg<B, Q, C, O>>>)
        ensures
            effects@ == seq![
                RouterEffect::TrySend {
                    channel: self.ch.ch,
                    msg: StoreMsg::<B, Q, C, O>::RaftCmd { request: req, callback: cb },
                },
            ],
    {
        self.try_send(StoreMsg::new_raft_cmd(req, cb))
    }

    /// The report is counted under the store it is about.
    fn report_unreachable(&self, region_id: u64, to_peer_id: u64, to_store_id: u64) -> (effects:
        Vec<RouterEffect<StoreMsg<B, Q, C, O>>>)
        ensures
            effects@ == seq![
                RouterEffect::<StoreMsg<B, Q, C, O>>::Count(
                    Counter::ReportFailure {
                        kind: FailureKind::Unreachable,
                        store_id: to_store_id,
                    },
                ),
                RouterEffect::TrySend {
                    channel: self.ch.ch,
                    msg: StoreMsg::ReportUnreachable { region_id, to_peer_id },
                },
            ],
    {
        let mut effects: Vec<RouterEffect<StoreMsg<B, Q, C, O>>> = Vec::new();
        effects.push(
            RouterEffect::Count(
                Counter::ReportFailure { kind: FailureKind::Unreachable, store_id: to_store_id },
            ),
        );
        let mut sent = self.try_send(StoreMsg::ReportUnreachable { region_id, to_peer_id });
        effects.append(&mut sent);
        effects
    }
}

/// A router that stands in where a type is called for and nothing is ever routed.
#[derive(Debug)]
pub struct MockRaftStoreRouter<B, Q, C, O> {
    pub would_route: PhantomData<StoreMsg<B, Q, C, O>>,
}

impl<B, Q, C, O> MockRaftStoreRouter<B, Q, C, O> {
    pub fn new() -> (router: Self)
        ensures
            router == (MockRaftStoreRouter::<B, Q, C, O> { would_route: PhantomData }),
    {
        MockRaftStoreRouter { would_route: PhantomData }
    }
}

impl<B, Q, C, O> Clone for MockRaftStoreRouter<B, Q, C, O> {
    fn clone(&self) -> (router: Self)
        ensures
            router == *self,
    {
        MockRaftStoreRouter { would_route: PhantomData }
    }
}

impl<B: Send, Q: Send, C: Send, O: Send> RaftStoreRouter for MockRaftStoreRouter<B, Q, C, O> {
    type Body = B;

    type Request = Q;

    type Callback = C;

    type Other = O;

    open spec fn usable(&self) -> bool {
        false
    }

    fn send(&self, msg: StoreMsg<B, Q, C, O>) -> (effects: Vec<
        RouterEffect<StoreMsg<B, Q, C, O>>,
    >) {
        vstd::pervasive::unreached()
    }

    fn try_send(&self, msg: StoreMsg<B, Q, C, O>) -> (effects: Vec<
        RouterEffect<StoreMsg<B, Q, C, O>>,
    >) {
        vstd::pervasive::unreached()
    }
}

} // verus!
