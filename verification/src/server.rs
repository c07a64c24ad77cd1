//! The server side: the sessions it has accepted, the limit on their
//! number, and what it answers to each packet.

use crate::chatmsg::{ChatMessage, ChatMessageView};
use crate::connections::{in_alphabet, random_token};
use crate::wire::put_slice;
use crate::{Packet, PacketView};
use vstd::prelude::*;
use vstd::slice::slice_to_vec;
use vstd::utf8::encode_utf8;

verus! {

/// Seconds between two messages that the server sends to all sessions.
pub const TCP_PING_INTERVAL_SECS: u64 = 5;

/// Number of packets that may wait to be written to one session.
pub const SERVER_CHANNEL_SIZE: usize = 2;

/// The id of the messages that the server sends to all sessions.
pub const BROADCAST_MSG_ID: u64 = 66778899;

/// Length of the random part of a message that the server writes.
pub const TOKEN_LEN: usize = 16;

/// The text in front of the random part of an answer.
pub open spec fn reply_prefix() -> Seq<char> {
    "来自服务端消息"@
}

/// The content of an answer with the random part `token`.
pub open spec fn reply_content(token: Seq<char>) -> Seq<u8> {
    encode_utf8(reply_prefix()) + encode_utf8(token)
}

/// Whether `token` can be the random part of a message of the server.
pub open spec fn is_token(token: Seq<char>) -> bool {
    token.len() == TOKEN_LEN && forall|i: int| 0 <= i < token.len() ==> in_alphabet(#[trigger] token[i])
}

/// The message that the server sends to all sessions, with the random
/// part `token`.
pub open spec fn broadcast_view(token: Seq<char>) -> ChatMessageView {
    ChatMessageView {
        msg_id: BROADCAST_MSG_ID,
        to_user: "123"@,
        from_user: "789"@,
        content: encode_utf8(token),
    }
}

/// Why the server refused a packet.
#[derive(Clone, Copy, Debug, PartialEq, Eq, Structural)]
pub enum HandleError {
    /// A ping request with the id 0.
    ZeroPingId,
    /// A pong response with the id 0.
    ZeroPongId,
}

impl HandleError {
    /// The text shown for this error.
    pub open spec fn text(self) -> Seq<char> {
        match self {
            HandleError::ZeroPingId => "PingRequest.ping_id == 0"@,
            HandleError::ZeroPongId => "PongResponse.ping_id == 0"@,
        }
    }

    /// The text shown for this error, as a string.
    pub fn message(&self) -> (s: String)
        ensures
            s@ == self.text(),
    {
        match self {
            HandleError::ZeroPingId => "PingRequest.ping_id == 0".to_owned(),
            HandleError::ZeroPongId => "PongResponse.ping_id == 0".to_owned(),
        }
    }
}

/// What the server does about a packet, apart from what it answers.
pub open spec fn verdict(packet: PacketView) -> Result<(), HandleError> {
    match packet {
        PacketView::PingRequest(p) => if p.ping_id == 0 {
            Err(HandleError::ZeroPingId)
        } else {
            Ok(())
        },
        PacketView::PongResponse(p) => if p.ping_id == 0 {
            Err(HandleError::ZeroPongId)
        } else {
            Ok(())
        },
        PacketView::ChatMessage(_) => Ok(()),
    }
}

/// The answer to the chat message `msg` with the random part `token`: the
/// same message with new content.
pub fn reply_to(msg: ChatMessage, token: &String) -> (reply: ChatMessage)
    ensures
        reply@ == (ChatMessageView { content: reply_content(token@), ..msg@ }),
{
    let mut content = slice_to_vec("来自服务端消息".as_bytes());
    put_slice(&mut content, token.as_str().as_bytes());
    let mut reply = msg;
    reply.content = content;
    reply
}

/// The message that the server sends to all sessions, with the random part
/// `token`.
pub fn broadcast_message(token: &String) -> (msg: ChatMessage)
    ensures
        msg@ == broadcast_view(token@),
{
    ChatMessage {
        msg_id: BROADCAST_MSG_ID,
        to_user: "123".to_owned(),
        from_user: "789".to_owned(),
        content: slice_to_vec(token.as_str().as_bytes()),
    }
}

/// One accepted session as a mathematical value: the handle on which
/// packets are sent to it, under the address of its remote side.
pub struct SessionView<Tx> {
    pub addr: Seq<char>,
    pub tx: Tx,
}

/// One accepted session.
pub struct Session<Tx> {
    addr: String,
    tx: Tx,
}

/// Some session of `s` has the address `addr`.
pub open spec fn has_addr<Tx>(s: Seq<SessionView<Tx>>, addr: Seq<char>) -> bool {
    exists|i: int| 0 <= i < s.len() && #[trigger] s[i].addr == addr
}

/// No two sessions of `s` have the same address.
pub open spec fn unique_addrs<Tx>(s: Seq<SessionView<Tx>>) -> bool {
    forall|i: int, j: int| 0 <= i < j < s.len() ==> #[trigger] s[i].addr != #[trigger] s[j].addr
}

/// The test of the sessions with another address than `addr`.
pub open spec fn other_than<Tx>(addr: Seq<char>) -> spec_fn(SessionView<Tx>) -> bool {
    |s: SessionView<Tx>| s.addr != addr
}

/// The server: the sessions it has accepted, each under the address of its
/// remote side, in the order in which they were accepted.
pub struct Server<Tx> {
    clients: Vec<Session<Tx>>,
}

impl<Tx> View for Server<Tx> {
    type V = Seq<SessionView<Tx>>;

    closed spec fn view(&self) -> Seq<SessionView<Tx>> {
        Seq::new(
            self.clients@.len(),
            |i: int| SessionView { addr: self.clients@[i].addr@, tx: self.clients@[i].tx },
        )
    }
}

impl<Tx> Server<Tx> {
    /// Create a new `Server` with no session.
    pub fn new() -> (server: Self)
        ensures
            server@ == Seq::<SessionView<Tx>>::empty(),
    {
        let server = Server { clients: Vec::new() };
        server
    }

    /// The number of sessions.
    pub fn len(&self) -> (n: usize)
        ensures
            n == self@.len(),
    {
        self.clients.len()
    }

    /// Whether a session is registered under `addr`.
    pub fn contains(&self, addr: &String) -> (b: bool)
        ensures
            b == has_addr(self@, addr@),
    {
        let mut i: usize = 0;
        while i < self.clients.len()
            invariant
                i <= self.clients.len(),
                forall|j: int| 0 <= j < i ==> self@[j].addr != addr@,
            decreases self.clients.len() - i,
        {
            if self.clients[i].addr == *addr {
                assert(self@[i as int].addr == addr@);
                return true;
            }
            i = i + 1;
        }
        false
    }

    /// Register the session with the remote address `addr` and the handle
    /// `tx`, unless a session is registered under that address already:
    /// then nothing changes and `tx` is dropped.
    pub fn register(&mut self, addr: String, tx: Tx) -> (added: bool)
        ensures
            added == !has_addr(old(self)@, addr@),
            added ==> final(self)@ == old(self)@.push(SessionView { addr: addr@, tx }),
            !added ==> final(self)@ == old(self)@,
            unique_addrs(old(self)@) ==> unique_addrs(final(self)@),
    {
        if self.contains(&addr) {
            return false;
        }
        self.clients.push(Session { addr, tx });
        assert(self@ =~= old(self)@.push(SessionView { addr: addr@, tx }));
        assert(unique_addrs(old(self)@) ==> unique_addrs(self@)) by {
            if unique_addrs(old(self)@) {
                assert forall|i: int, j: int| 0 <= i < j < self@.len() implies #[trigger] self@[i].addr
                    != #[trigger] self@[j].addr by {
                }
            }
        }
        true
    }

    /// Forget the sessions registered under `addr`, as when one has ended.
    /// The other sessions stay, in their order.
    pub fn unregister(&mut self, addr: &String)
        ensures
            final(self)@ == old(self)@.filter(other_than(addr@)),
    {
        let ghost before = self@;
        let ghost mut k: int = 0;
        let mut i: usize = 0;
        proof {
            reveal(Seq::filter);
        }
        while i < self.clients.len()
            invariant
                0 <= k <= before.len(),
                i == before.take(k).filter(other_than(addr@)).len(),
                self@ == before.take(k).filter(other_than(addr@)) + before.skip(k),
            decreases before.len() - k,
        {
            let ghost here = self@;
            proof {
                assert(before.take(k + 1) =~= before.take(k).push(before[k]));
                Seq::lemma_filter_push(before.take(k), before[k], other_than(addr@));
            }
            if self.clients[i].addr == *addr {
                self.clients.remove(i);
                proof {
                    assert(here[i as int].addr == addr@);
                    assert(self@ =~= here.remove(i as int));
                }
            } else {
                proof {
                    assert(here[i as int].addr != addr@);
                }
                i = i + 1;
            }
            proof {
                k = k + 1;
            }
        }
        proof {
            assert(self@ =~= before.filter(other_than(addr@)));
        }
    }

    /// The handles of all sessions, in the order of their registration: a
    /// message for all sessions is sent on each of them.
    pub fn senders(&self) -> (out: Vec<&Tx>)
        ensures
            out@.len() == self@.len(),
            forall|j: int| 0 <= j < out@.len() ==> *#[trigger] out@[j] == self@[j].tx,
    {
        let mut out: Vec<&Tx> = Vec::new();
        let mut i: usize = 0;
        while i < self.clients.len()
            invariant
                i <= self.clients.len(),
                out@.len() == i,
                forall|j: int| 0 <= j < i ==> *#[trigger] out@[j] == self@[j].tx,
            decreases self.clients.len() - i,
        {
            out.push(&self.clients[i].tx);
            i = i + 1;
        }
        out
    }

    /// Handle a ping request: one with the id 0 is refused.
    pub fn handle_ping_request(&self, packet: &crate::ping_request::PingRequest) -> (r: Result<
        (),
        HandleError,
    >)
        ensures
            r == verdict(PacketView::PingRequest(*packet)),
    {
        if packet.ping_id == 0 {
            return Err(HandleError::ZeroPingId);
        }
        Ok(())
    }

    /// Handle a pong response: one with the id 0 is refused.
    pub fn handle_pong_response(&self, packet: &crate::pong_response::PongResponse) -> (r: Result<
        (),
        HandleError,
    >)
        ensures
            r == verdict(PacketView::PongResponse(*packet)),
    {
        if packet.ping_id == 0 {
            return Err(HandleError::ZeroPongId);
        }
        Ok(())
    }

    /// Handle a packet that a session received, and say what to send back
    /// on the same session.
    ///
    /// A ping request or a pong response with the id 0 is an error; any
    /// other is accepted and gets no answer. A chat message is answered by
    /// the same message with fresh content: the fixed text, then a random
    /// part drawn with the operating system's generator.
    pub fn handle_packet(&self, packet: Packet) -> (r: Result<Option<Packet>, HandleError>)
        ensures
            match verdict(packet@) {
                Err(e) => r == Err::<Option<Packet>, HandleError>(e),
                Ok(_) => match packet {
                    Packet::ChatMessage(msg) => r matches Ok(Some(Packet::ChatMessage(reply)))
                        && exists|token: Seq<char>|
                        is_token(token) && #[trigger] reply_content(token) == reply@.content && reply@
                            == (ChatMessageView { content: reply@.content, ..msg@ }),
                    _ => r matches Ok(None),
                },
            },
    {
        match packet {
            Packet::PingRequest(p) => match self.handle_ping_request(&p) {
                Ok(_) => Ok(None),
                Err(e) => Err(e),
            },
            Packet::PongResponse(p) => match self.handle_pong_response(&p) {
                Ok(_) => Ok(None),
                Err(e) => Err(e),
            },
            Packet::ChatMessage(msg) => {
                let token = random_token(TOKEN_LEN);
                let reply = reply_to(msg, &token);
                Ok(Some(Packet::ChatMessage(reply)))
            },
        }
    }

    /// The message to send to all sessions now, with a random part drawn
    /// with the operating system's generator.
    pub fn periodic_message(&self) -> (msg: ChatMessage)
        ensures
            exists|token: Seq<char>| is_token(token) && msg@ == #[trigger] broadcast_view(token),
    {
        let token = random_token(TOKEN_LEN);
        broadcast_message(&token)
    }
}

/// The count of open sessions as a mathematical value.
pub struct AdmissionView {
    pub open: nat,
    pub limit: nat,
}

impl AdmissionView {
    /// Whether a new session is admitted: the limit is not reached.
    pub open spec fn admits(self) -> bool {
        self.open < self.limit
    }

    /// The count after a connection asked to be let in.
    pub open spec fn asked(self) -> AdmissionView {
        if self.admits() {
            AdmissionView { open: self.open + 1, ..self }
        } else {
            self
        }
    }

    /// The count after a session ended.
    pub open spec fn released(self) -> AdmissionView {
        if self.open > 0 {
            AdmissionView { open: (self.open - 1) as nat, ..self }
        } else {
            self
        }
    }

    /// The count after `n` connections asked to be let in, one after the
    /// other, with no session ending meanwhile.
    pub open spec fn asked_times(self, n: nat) -> AdmissionView
        decreases n,
    {
        if n == 0 {
            self
        } else {
            self.asked_times((n - 1) as nat).asked()
        }
    }
}

/// The limit on the number of sessions that are open at the same time.
#[derive(Debug)]
pub struct Admission {
    open: usize,
    limit: usize,
}

impl View for Admission {
    type V = AdmissionView;

    closed spec fn view(&self) -> AdmissionView {
        AdmissionView { open: self.open as nat, limit: self.limit as nat }
    }
}

impl Admission {
    #[verifier::type_invariant]
    spec fn within_limit(&self) -> bool {
        self.open <= self.limit
    }

    /// No session is open, and at most `connections_limit` may be.
    pub fn new(connections_limit: usize) -> (a: Admission)
        ensures
            a@ == (AdmissionView { open: 0, limit: connections_limit as nat }),
    {
        Admission { open: 0, limit: connections_limit }
    }

    /// A connection asks to be let in. Below the limit it is, and counts
    /// as open; at the limit it is not, and is to be dropped without a
    /// word.
    pub fn try_admit(&mut self) -> (admitted: bool)
        ensures
            admitted == old(self)@.admits(),
            final(self)@ == old(self)@.asked(),
            final(self)@.open <= final(self)@.limit,
    {
        proof {
            use_type_invariant(&*self);
        }
        if self.open < self.limit {
            self.open = self.open + 1;
            true
        } else {
            false
        }
    }

    /// A session ended and counts as open no longer.
    pub fn release(&mut self)
        ensures
            final(self)@ == old(self)@.released(),
    {
        proof {
            use_type_invariant(&*self);
        }
        if self.open > 0 {
            self.open = self.open - 1;
        }
    }

    /// The number of sessions that are open.
    pub fn open(&self) -> (n: usize)
        ensures
            n == self@.open,
            self@.open <= self@.limit,
    {
        proof {
            use_type_invariant(self);
        }
        self.open
    }

    /// The largest number of sessions that may be open.
    pub fn limit(&self) -> (n: usize)
        ensures
            n == self@.limit,
    {
        self.limit
    }
}

/// Admission control: of the connections that ask one after the other
/// while none is open at first and no session ends, the first `limit` are
/// let in and every later one is turned away.
pub proof fn lemma_admits_up_to_limit(limit: nat, n: nat)
    ensures
        (AdmissionView { open: 0, limit }).asked_times(n).limit == limit,
        n <= limit ==> (AdmissionView { open: 0, limit }).asked_times(n).open == n,
        n >= limit ==> (AdmissionView { open: 0, limit }).asked_times(n).open == limit,
        (AdmissionView { open: 0, limit }).asked_times(n).admits() <==> n < limit,
    decreases n,
{
    if n > 0 {
        lemma_admits_up_to_limit(limit, (n - 1) as nat);
    }
}

} // verus!
