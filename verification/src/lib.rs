//! Relay messaging over TCP: the wire format of the packets, the codec that
//! frames them, the state machine of a connection to one relay, the pool of
//! such connections with its maintenance cycle, and the server's packet
//! handling and admission control.
//!
//! Everything here is synchronous and works on plain values. Sockets, timers
//! and tasks belong to the caller, which feeds events to these types and
//! carries out what they return.

pub mod chatmsg;
pub mod client;
pub mod codec;
pub mod connections;
pub mod errors;
pub mod ping_request;
pub mod plugins;
pub mod pong_response;
pub mod server;
pub mod stats;
pub mod wire;

use chatmsg::{lemma_chat_message_round_trip, ChatMessage, ChatMessageView};
use errors::PacketError;
use ping_request::PingRequest;
use pong_response::PongResponse;
use vstd::prelude::*;
use wire::{lemma_be_value_of_bytes, be_bytes, ParseOutcome};

verus! {

/// Deserialization of a value from the head of a byte buffer.
pub trait FromBytes: Sized + View {
    /// What the head of `i` holds.
    spec fn parsed(i: Seq<u8>) -> ParseOutcome<Self::V>;

    /// Reads one value from the head of `i`.
    fn from_bytes(i: &[u8]) -> (r: ParseOutcome<Self>)
        ensures
            r@ == Self::parsed(i@),
    ;
}

/// Serialization of a value into bytes.
pub trait ToBytes: Sized {
    /// The bytes that stand for this value on the wire.
    spec fn wire(&self) -> Seq<u8>;

    /// Serializes the value. No value of the present packet types is
    /// refused; the error is there for types to come.
    fn to_bytes(&self) -> (r: Result<Vec<u8>, PacketError>)
        ensures
            r matches Ok(bytes) && bytes@ == self.wire(),
    ;
}

/// One message of the protocol.
#[derive(Debug, PartialEq, Clone)]
pub enum Packet {
    PingRequest(PingRequest),
    PongResponse(PongResponse),
    ChatMessage(ChatMessage),
}

/// A packet as a mathematical value.
pub enum PacketView {
    PingRequest(PingRequest),
    PongResponse(PongResponse),
    ChatMessage(ChatMessageView),
}

impl View for Packet {
    type V = PacketView;

    open spec fn view(&self) -> PacketView {
        match *self {
            Packet::PingRequest(p) => PacketView::PingRequest(p),
            Packet::PongResponse(p) => PacketView::PongResponse(p),
            Packet::ChatMessage(p) => PacketView::ChatMessage(p@),
        }
    }
}

impl PacketView {
    /// The bytes that stand for this packet on the wire.
    pub open spec fn wire(self) -> Seq<u8> {
        match self {
            PacketView::PingRequest(p) => p.wire(),
            PacketView::PongResponse(p) => p.wire(),
            PacketView::ChatMessage(p) => p.wire(),
        }
    }

    /// The id by which a response is matched with its request: the ping id
    /// of a ping or a pong, the message id of a chat message.
    pub open spec fn correlation_id(self) -> u64 {
        match self {
            PacketView::PingRequest(p) => p.ping_id,
            PacketView::PongResponse(p) => p.ping_id,
            PacketView::ChatMessage(p) => p.msg_id,
        }
    }
}

impl Packet {
    /// The id by which a response is matched with its request.
    pub fn correlation_id(&self) -> (id: u64)
        ensures
            id == self@.correlation_id(),
    {
        match self {
            Packet::PingRequest(p) => p.ping_id,
            Packet::PongResponse(p) => p.ping_id,
            Packet::ChatMessage(p) => p.msg_id,
        }
    }
}

impl FromBytes for Packet {
    /// The first kind of packet that the bytes parse as, in the order chat
    /// message, pong response, ping request. Where none does, the buffer is
    /// incomplete if one of them ran out of bytes, and in error otherwise.
    open spec fn parsed(i: Seq<u8>) -> ParseOutcome<PacketView> {
        let chat = ChatMessage::parsed(i);
        let pong = PongResponse::parsed(i);
        let ping = PingRequest::parsed(i);
        if let ParseOutcome::Done { value, consumed } = chat {
            ParseOutcome::Done { value: PacketView::ChatMessage(value), consumed }
        } else if let ParseOutcome::Done { value, consumed } = pong {
            ParseOutcome::Done { value: PacketView::PongResponse(value), consumed }
        } else if let ParseOutcome::Done { value, consumed } = ping {
            ParseOutcome::Done { value: PacketView::PingRequest(value), consumed }
        } else if chat is Incomplete || pong is Incomplete || ping is Incomplete {
            ParseOutcome::Incomplete
        } else {
            ParseOutcome::Error
        }
    }

    fn from_bytes(i: &[u8]) -> (r: ParseOutcome<Packet>) {
        let chat = ChatMessage::from_bytes(i);
        if let ParseOutcome::Done { value, consumed } = chat {
            return ParseOutcome::Done { value: Packet::ChatMessage(value), consumed };
        }
        let pong = PongResponse::from_bytes(i);
        if let ParseOutcome::Done { value, consumed } = pong {
            return ParseOutcome::Done { value: Packet::PongResponse(value), consumed };
        }
        let ping = PingRequest::from_bytes(i);
        if let ParseOutcome::Done { value, consumed } = ping {
            return ParseOutcome::Done { value: Packet::PingRequest(value), consumed };
        }
        let short = matches!(chat, ParseOutcome::Incomplete) || matches!(pong, ParseOutcome::Incomplete)
            || matches!(ping, ParseOutcome::Incomplete);
        if short {
            ParseOutcome::Incomplete
        } else {
            ParseOutcome::Error
        }
    }
}

impl ToBytes for Packet {
    open spec fn wire(&self) -> Seq<u8> {
        self@.wire()
    }

    fn to_bytes(&self) -> (r: Result<Vec<u8>, PacketError>) {
        match self {
            Packet::PingRequest(p) => p.to_bytes(),
            Packet::PongResponse(p) => p.to_bytes(),
            Packet::ChatMessage(p) => p.to_bytes(),
        }
    }
}

/// Whether the bytes of `p` make a buffer: their number fits in `usize`.
/// It does for every packet that a program holds in memory next to its
/// serialized form.
pub open spec fn fits_buffer(p: PacketView) -> bool {
    p.wire().len() <= usize::MAX
}

/// Round trip: the bytes of a packet parse as that packet, and as nothing
/// shorter. This holds for all three kinds, for a chat message also with
/// empty names and empty content.
pub proof fn lemma_packet_round_trip(p: PacketView)
    requires
        fits_buffer(p),
    ensures
        Packet::parsed(p.wire()) == (ParseOutcome::Done { value: p, consumed: p.wire().len() as usize }),
{
    match p {
        PacketView::PingRequest(q) => {
            lemma_be_value_of_bytes(q.ping_id);
        },
        PacketView::PongResponse(q) => {
            lemma_be_value_of_bytes(q.ping_id);
        },
        PacketView::ChatMessage(m) => {
            lemma_chat_message_round_trip(m);
        },
    }
}

/// A buffer that starts with the tag of a packet and is shorter than the
/// shortest packet is incomplete: it is neither a packet nor an error.
pub proof fn lemma_short_buffer_incomplete(i: Seq<u8>)
    requires
        0 < i.len() < 9,
        i[0] == ping_request::PING_REQUEST_TAG || i[0] == pong_response::PONG_RESPONSE_TAG,
    ensures
        Packet::parsed(i) is Incomplete,
{
}

/// A buffer that starts with no tag of any packet is in error.
pub proof fn lemma_unknown_tag_is_error(i: Seq<u8>)
    requires
        0 < i.len(),
        i[0] != ping_request::PING_REQUEST_TAG,
        i[0] != pong_response::PONG_RESPONSE_TAG,
    ensures
        Packet::parsed(i) is Error,
{
}

/// A buffer of nine bytes or more that starts with the tag of a ping is a
/// packet: the chat message that it parses as or, where it parses as none,
/// the ping request of its first nine bytes.
pub proof fn lemma_ping_tag_is_packet(i: Seq<u8>)
    requires
        9 <= i.len(),
        i[0] == ping_request::PING_REQUEST_TAG,
    ensures
        ChatMessage::parsed(i) is Done ==> Packet::parsed(i) matches ParseOutcome::Done {
            value: PacketView::ChatMessage(_),
            ..
        },
        !(ChatMessage::parsed(i) is Done) ==> Packet::parsed(i) == (ParseOutcome::Done {
            value: PacketView::PingRequest(PingRequest { ping_id: wire::be_value(i.subrange(1, 9)) }),
            consumed: 9usize,
        }),
{
}

} // verus!
