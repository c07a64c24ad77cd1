//! The connection to one relay: its status, its count of failed attempts
//! and the requests that wait for a response.
//!
//! A `Client` does no I/O. Its owner dials, reads and writes, and tells the
//! client what happened; the client says what follows from it. `Tx` is the
//! handle on which packets are sent while a session runs, `H` the handle
//! that completes one waiting request.

use crate::chatmsg::ChatMessage;
use crate::errors::{SendPacketError, SendPacketErrorKind};
use crate::{Packet, PacketView};
use std::collections::HashMap;
use std::time::Instant;
use vstd::prelude::*;

verus! {

broadcast use vstd::std_specs::hash::group_hash_axioms;

/// Trusted: `std::time::Instant`, a point in time, is carried as an
/// opaque value.
#[verifier::external_type_specification]
#[verifier::external_body]
pub struct ExInstant(Instant);

/// How long a request waits for its response, in milliseconds.
pub const RESPONSE_TIMEOUT_MS: u64 = 5000;

/// The sequence number of the first request of a connection.
pub const FIRST_SEQ: u64 = 1;

/// Status of the connection to a relay.
#[derive(Debug, Clone)]
pub enum ClientStatus<Tx> {
    /// Not connected. This is the initial status, and the one a connection
    /// falls back to when its session ends.
    Disconnected,
    /// A dial is under way.
    Connecting,
    /// A session runs. The handle is the only way to send on it; dropping
    /// the handle ends the session.
    Connected(Tx),
    /// Not connected on purpose: left alone until told otherwise.
    Sleeping,
}

/// The sequence number after `seq`.
pub open spec fn next_seq(seq: u64) -> u64 {
    if seq == u64::MAX {
        0
    } else {
        (seq + 1) as u64
    }
}

/// The count of failed attempts after one more failure.
pub open spec fn one_more_attempt(attempts: u32) -> u32 {
    if attempts == u32::MAX {
        attempts
    } else {
        (attempts + 1) as u32
    }
}

/// A connection as a mathematical value.
pub struct ClientView<Tx, H> {
    pub addr: Seq<char>,
    pub client_id: Seq<char>,
    pub status: ClientStatus<Tx>,
    pub connected_time: Option<Instant>,
    pub connection_attempts: u32,
    pub pending: Map<u64, H>,
    pub seq: u64,
}

impl<Tx, H> ClientView<Tx, H> {
    /// A connection as it is created: disconnected, with no failed attempt,
    /// no waiting request and the first sequence number to give out.
    pub open spec fn fresh(addr: Seq<char>, client_id: Seq<char>) -> Self {
        ClientView {
            addr,
            client_id,
            status: ClientStatus::Disconnected,
            connected_time: None,
            connection_attempts: 0,
            pending: Map::empty(),
            seq: FIRST_SEQ,
        }
    }

    /// Whether a dial may start: not while one is under way or a session
    /// runs.
    pub open spec fn may_dial(self) -> bool {
        self.status is Disconnected || self.status is Sleeping
    }

    /// The connection after a request to dial.
    pub open spec fn dialing(self) -> Self {
        if self.may_dial() {
            ClientView { status: ClientStatus::Connecting, ..self }
        } else {
            self
        }
    }

    /// The connection after the socket was established at time `now`, with
    /// `tx` as the handle of the new session.
    pub open spec fn established(self, tx: Tx, now: Instant) -> Self {
        if self.status is Connecting {
            ClientView {
                status: ClientStatus::Connected(tx),
                connection_attempts: 0,
                connected_time: Some(now),
                ..self
            }
        } else {
            self
        }
    }

    /// The connection after its dial or its session ended, `failed` telling
    /// whether it ended in an error.
    pub open spec fn ended(self, failed: bool) -> Self {
        ClientView {
            status: if self.status is Sleeping {
                ClientStatus::Sleeping
            } else {
                ClientStatus::Disconnected
            },
            connection_attempts: if failed {
                one_more_attempt(self.connection_attempts)
            } else {
                self.connection_attempts
            },
            connected_time: None,
            ..self
        }
    }

    /// The connection after the request with handle `done` was registered
    /// under the next sequence number.
    pub open spec fn requested(self, done: H) -> Self {
        ClientView { pending: self.pending.insert(self.seq, done), seq: next_seq(self.seq), ..self }
    }

    /// Whether a request waits for `packet`.
    pub open spec fn awaits(self, packet: PacketView) -> bool {
        self.pending.contains_key(packet.correlation_id())
    }

    /// The connection after `packet` came in: the request that waited for
    /// it, if any, waits no longer.
    pub open spec fn received(self, packet: PacketView) -> Self {
        ClientView { pending: self.pending.remove(packet.correlation_id()), ..self }
    }
}

/// Where a packet that came in goes.
#[derive(Debug)]
pub enum Routed<H> {
    /// To the request that waited for it, through the handle of that
    /// request.
    Response { done: H, packet: Packet },
    /// To the inbox, for the application to handle.
    Inbox(Packet),
}

/// How the wait for a response ended.
#[derive(Debug)]
pub enum Awaited {
    /// The response came in.
    Delivered(Packet),
    /// The handle of the request was dropped with no response.
    Dropped,
    /// No response came within [`RESPONSE_TIMEOUT_MS`].
    TimedOut,
}

/// Client connection to a relay.
#[derive(Debug)]
pub struct Client<Tx, H> {
    addr: String,
    client_id: String,
    status: ClientStatus<Tx>,
    connected_time: Option<Instant>,
    connection_attempts: u32,
    pending: HashMap<u64, H>,
    seq: u64,
}

impl<Tx, H> View for Client<Tx, H> {
    type V = ClientView<Tx, H>;

    closed spec fn view(&self) -> ClientView<Tx, H> {
        ClientView {
            addr: self.addr@,
            client_id: self.client_id@,
            status: self.status,
            connected_time: self.connected_time,
            connection_attempts: self.connection_attempts,
            pending: self.pending@,
            seq: self.seq,
        }
    }
}

impl<Tx, H> Client<Tx, H> {
    /// Create a new `Client` for the relay at `addr`, known as `client_id`.
    pub fn new(addr: String, client_id: String) -> (client: Self)
        ensures
            client@ == ClientView::<Tx, H>::fresh(addr@, client_id@),
    {
        Client {
            addr,
            client_id,
            status: ClientStatus::Disconnected,
            connected_time: None,
            connection_attempts: 0,
            pending: HashMap::new(),
            seq: FIRST_SEQ,
        }
    }

    /// The address of the relay.
    pub fn addr(&self) -> (addr: &String)
        ensures
            addr@ == self@.addr,
    {
        &self.addr
    }

    /// The identifier of the relay.
    pub fn client_id(&self) -> (id: &String)
        ensures
            id@ == self@.client_id,
    {
        &self.client_id
    }

    /// Handle a packet received from the relay.
    ///
    /// If a request waits for the id that the packet carries, the packet
    /// goes to that request, which is taken off the table; it does not go
    /// to the inbox as well. Every other packet goes to the inbox.
    pub fn handle_packet(&mut self, packet: Packet) -> (r: Routed<H>)
        ensures
            old(self)@.awaits(packet@) ==> final(self)@ == old(self)@.received(packet@) && r == (
            Routed::Response { done: old(self)@.pending[packet@.correlation_id()], packet }),
            !old(self)@.awaits(packet@) ==> final(self)@ == old(self)@ && r == Routed::<H>::Inbox(
                packet,
            ),
    {
        let id = packet.correlation_id();
        match self.pending.remove(&id) {
            Some(done) => Routed::Response { done, packet },
            None => {
                assert(self.pending@ =~= old(self).pending@);
                Routed::Inbox(packet)
            },
        }
    }

    /// The handle of the running session, if there is one.
    pub fn sender(&self) -> (r: Option<&Tx>)
        ensures
            match self@.status {
                ClientStatus::Connected(tx) => r matches Some(t) && *t == tx,
                _ => r is None,
            },
    {
        match &self.status {
            ClientStatus::Connected(tx) => Some(tx),
            _ => None,
        }
    }

    /// Send a packet without waiting for an answer: hands back the handle
    /// of the running session and the packet to send on it.
    ///
    /// Fails with `WrongStatus` unless the connection is connected.
    pub fn send_packet(&self, packet: Packet) -> (r: Result<(&Tx, Packet), SendPacketError>)
        ensures
            match self@.status {
                ClientStatus::Connected(tx) => r matches Ok((t, p)) && *t == tx && p == packet,
                _ => r matches Err(e) && e.spec_kind() == SendPacketErrorKind::WrongStatus,
            },
    {
        match &self.status {
            ClientStatus::Connected(tx) => Ok((tx, packet)),
            _ => Err(SendPacketError::from(SendPacketErrorKind::WrongStatus)),
        }
    }

    /// Prepare a request that waits for its response.
    ///
    /// On a connected connection a chat message gets the next sequence
    /// number as its id and `done` is registered under that number; the
    /// message comes back ready to be sent with [`Client::send_packet`].
    /// Anything else fails with `WrongStatus` and changes nothing.
    pub fn send_for_response(&mut self, packet: Packet, done: H) -> (r: Result<
        Packet,
        SendPacketError,
    >)
        ensures
            old(self)@.status is Connected && packet is ChatMessage ==> {
                &&& final(self)@ == old(self)@.requested(done)
                &&& r matches Ok(request)
                &&& request@ == PacketView::ChatMessage(
                    crate::chatmsg::ChatMessageView { msg_id: old(self)@.seq, ..packet->ChatMessage_0@ },
                )
            },
            !(old(self)@.status is Connected && packet is ChatMessage) ==> {
                &&& final(self)@ == old(self)@
                &&& r matches Err(e)
                &&& e.spec_kind() == SendPacketErrorKind::WrongStatus
            },
    {
        let connected = matches!(self.status, ClientStatus::Connected(_));
        if connected {
            if let Packet::ChatMessage(mut request) = packet {
                let send_id = self.seq;
                self.seq = if send_id == u64::MAX {
                    0
                } else {
                    send_id + 1
                };
                request.msg_id = send_id;
                self.pending.insert(send_id, done);
                return Ok(Packet::ChatMessage(request));
            }
        }
        Err(SendPacketError::from(SendPacketErrorKind::WrongStatus))
    }

    /// Give up the request registered under `id`, as after a timeout: its
    /// handle, if it still waits, is taken off the table and handed back.
    pub fn forget_request(&mut self, id: u64) -> (done: Option<H>)
        ensures
            final(self)@ == (ClientView { pending: old(self)@.pending.remove(id), ..old(self)@ }),
            done == if old(self)@.pending.contains_key(id) {
                Some(old(self)@.pending[id])
            } else {
                None::<H>
            },
    {
        let done = self.pending.remove(&id);
        done
    }

    /// What the caller of a request gets once its wait is over.
    ///
    /// A chat message that was delivered is the response. A timeout fails
    /// with `TimeOut`; every other end fails with `WrongStatus`.
    pub fn response(outcome: Awaited) -> (r: Result<ChatMessage, SendPacketError>)
        ensures
            match outcome {
                Awaited::Delivered(Packet::ChatMessage(m)) => r == Ok::<ChatMessage, SendPacketError>(m),
                Awaited::TimedOut => r matches Err(e) && e.spec_kind()
                    == SendPacketErrorKind::TimeOut,
                _ => r matches Err(e) && e.spec_kind() == SendPacketErrorKind::WrongStatus,
            },
    {
        match outcome {
            Awaited::Delivered(Packet::ChatMessage(m)) => Ok(m),
            Awaited::TimedOut => Err(SendPacketError::from(SendPacketErrorKind::TimeOut)),
            _ => Err(SendPacketError::from(SendPacketErrorKind::WrongStatus)),
        }
    }

    /// Ask for a connection to the relay. A disconnected or sleeping
    /// connection becomes connecting and the caller is to dial; otherwise
    /// nothing changes and there is nothing to do.
    pub fn spawn(&mut self) -> (dial: bool)
        ensures
            dial == old(self)@.may_dial(),
            final(self)@ == old(self)@.dialing(),
    {
        match self.status {
            ClientStatus::Disconnected | ClientStatus::Sleeping => {
                self.status = ClientStatus::Connecting;
                true
            },
            _ => false,
        }
    }

    /// The dial succeeded at time `now`. A connecting connection becomes
    /// connected, holds `tx`, and forgets its failed attempts. If the
    /// status was changed while the dial ran, nothing changes, `tx` is
    /// dropped and no session is to run.
    pub fn connected(&mut self, tx: Tx, now: Instant) -> (run: bool)
        ensures
            run == (old(self)@.status is Connecting),
            final(self)@ == old(self)@.established(tx, now),
    {
        match self.status {
            ClientStatus::Connecting => {
                self.status = ClientStatus::Connected(tx);
                self.connection_attempts = 0;
                self.connected_time = Some(now);
                true
            },
            _ => false,
        }
    }

    /// The dial or the session is over. The connection is disconnected
    /// again, unless it was put to sleep meanwhile; a failure adds to the
    /// count of failed attempts, which stops at its largest value.
    pub fn finished(&mut self, failed: bool)
        ensures
            final(self)@ == old(self)@.ended(failed),
    {
        match self.status {
            ClientStatus::Sleeping => {},
            _ => {
                self.status = ClientStatus::Disconnected;
            },
        }
        if failed && self.connection_attempts < u32::MAX {
            self.connection_attempts = self.connection_attempts + 1;
        }
        self.connected_time = None;
    }

    /// Drop the connection to the relay: the status becomes disconnected
    /// and the handle of a running session is dropped.
    pub fn disconnect(&mut self)
        ensures
            final(self)@ == (ClientView { status: ClientStatus::Disconnected, ..old(self)@ }),
    {
        self.status = ClientStatus::Disconnected;
    }

    /// Drop the connection to the relay and leave it alone: the status
    /// becomes sleeping and the handle of a running session is dropped.
    pub fn sleep(&mut self)
        ensures
            final(self)@ == (ClientView { status: ClientStatus::Sleeping, ..old(self)@ }),
    {
        self.status = ClientStatus::Sleeping;
    }

    /// Check if the connection to the relay is established.
    pub fn is_connected(&self) -> (b: bool)
        ensures
            b == (self@.status is Connected),
    {
        matches!(self.status, ClientStatus::Connected(_))
    }

    /// Check if the connection to the relay is not established.
    pub fn is_disconnected(&self) -> (b: bool)
        ensures
            b == (self@.status is Disconnected),
    {
        matches!(self.status, ClientStatus::Disconnected)
    }

    /// Check if the connection to the relay is sleeping.
    pub fn is_sleeping(&self) -> (b: bool)
        ensures
            b == (self@.status is Sleeping),
    {
        matches!(self.status, ClientStatus::Sleeping)
    }

    /// Number of failed attempts to connect since the last session. It is
    /// 0 for a connected relay.
    pub fn connection_attempts(&self) -> (n: u32)
        ensures
            n == self@.connection_attempts,
    {
        self.connection_attempts
    }

    /// Time when the running session was established. Only connected
    /// relays have this value.
    pub fn connected_time(&self) -> (t: Option<Instant>)
        ensures
            t == self@.connected_time,
    {
        self.connected_time
    }
}

/// Correlation: once a request is registered, the packet that carries its
/// sequence number is awaited, goes to the handle of that request and to
/// no other, and is awaited no longer once it has come in. The requests
/// that waited before still wait.
pub proof fn lemma_response_reaches_its_request<Tx, H>(
    c: ClientView<Tx, H>,
    done: H,
    reply: PacketView,
)
    requires
        reply.correlation_id() == c.seq,
    ensures
        c.requested(done).awaits(reply),
        c.requested(done).pending[reply.correlation_id()] == done,
        !c.requested(done).received(reply).awaits(reply),
        forall|id: u64|
            id != c.seq ==> (#[trigger] c.requested(done).received(reply).pending.contains_key(id)
                <==> c.pending.contains_key(id)),
{
}

/// A packet whose id no request waits for leaves the table of waiting
/// requests as it is.
pub proof fn lemma_unmatched_packet_changes_nothing<Tx, H>(c: ClientView<Tx, H>, packet: PacketView)
    requires
        !c.awaits(packet),
    ensures
        c.received(packet) == c,
{
    assert(c.pending.remove(packet.correlation_id()) =~= c.pending);
}

} // verus!
