//! What travels: Raft messages, the messages of a store's event loop, snapshot outcomes,
//! and the addresses they are sent to.

use vstd::prelude::*;

verus! {

/// A replica of a region, and the store it lives on.
#[derive(Clone, Copy, Debug, PartialEq, Eq, Structural)]
pub struct Peer {
    pub id: u64,
    pub store_id: u64,
}

/// A Raft message on its way to another store.
///
/// The fields before `body` are what the transport decides by; `body` is the message as it
/// goes over the wire, which the transport hands on untouched.
#[derive(Debug)]
pub struct RaftMessage<B> {
    pub region_id: u64,
    pub to_peer: Peer,
    pub has_snapshot: bool,
    pub body: B,
}

/// An IPv4 address, as a number in network order, and a port.
#[derive(Clone, Copy, Debug, PartialEq, Eq, Structural)]
pub struct SocketAddrV4 {
    pub ip: u32,
    pub port: u16,
}

/// An IPv6 address, as a number in network order, and what goes with it.
#[derive(Clone, Copy, Debug, PartialEq, Eq, Structural)]
pub struct SocketAddrV6 {
    pub ip: u128,
    pub port: u16,
    pub flowinfo: u32,
    pub scope_id: u32,
}

/// The socket address of a store.
#[derive(Clone, Copy, Debug, PartialEq, Eq, Structural)]
pub enum SocketAddr {
    V4(SocketAddrV4),
    V6(SocketAddrV6),
}

/// What a store's event loop is told. `Q` is a command request, `C` its callback, and `O`
/// whatever else the event loop can be told, which a router only hands on.
#[derive(Debug)]
pub enum StoreMsg<B, Q, C, O> {
    RaftMessage(RaftMessage<B>),
    RaftCmd { request: Q, callback: C },
    ReportUnreachable { region_id: u64, to_peer_id: u64 },
    Other(O),
}

impl<B, Q, C, O> StoreMsg<B, Q, C, O> {
    pub fn new_raft_cmd(request: Q, callback: C) -> (msg: Self)
        ensures
            msg == (StoreMsg::<B, Q, C, O>::RaftCmd { request, callback }),
    {
        StoreMsg::RaftCmd { request, callback }
    }
}

/// How sending a snapshot ended.
#[derive(Clone, Copy, Debug, PartialEq, Eq, Structural)]
pub enum SnapshotStatus {
    Finish,
    Failure,
}

/// Tells the sender's region how a snapshot to one of its peers ended.
#[derive(Clone, Copy, Debug, PartialEq, Eq, Structural)]
pub struct SnapshotStatusMsg {
    pub region_id: u64,
    pub to_peer_id: u64,
    pub status: SnapshotStatus,
}

/// `mio::Token`, by which an event loop knows a connection. Nothing is said of what is in
/// it: it is only carried.
#[verifier::external_type_specification]
#[verifier::external_body]
pub struct ExToken(mio::Token);

/// Why the server could not do what it was asked.
#[derive(Debug)]
pub struct ServerError {
    pub reason: String,
}

/// What the server's own event loop is told.
#[derive(Debug)]
pub enum Msg<B> {
    /// Quit the event loop.
    Quit,
    /// Send data to a remote store.
    SendStore { store_id: u64, msg: RaftMessage<B> },
    /// The answer to a store's address resolution.
    ResolveResult {
        store_id: u64,
        sock_addr: Result<SocketAddr, ServerError>,
        msg: RaftMessage<B>,
    },
    /// Close a connection.
    CloseConn { token: mio::Token },
}

} // verus!
