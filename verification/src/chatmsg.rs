//! ChatMessage packet.

use crate::errors::PacketError;
use crate::wire::{
    be_bytes, be_value, lemma_be_value_of_bytes, lemma_parsed_text_of_bytes, parsed_text, put_slice,
    put_text, put_u64, put_u8, read_text, read_u64, text_bytes, ParseOutcome,
};
use crate::{FromBytes, ToBytes};
use vstd::prelude::*;
use vstd::slice::{slice_subrange, slice_to_vec};
use vstd::utf8::encode_utf8;

verus! {

/// The first byte of a serialized [`ChatMessage`]. It is also the first
/// byte of a ping request: a reader tells the two apart by trying the chat
/// message first.
pub const CHAT_MESSAGE_TAG: u8 = 0x04;

/// Application message, sent by both sides of a connection.
///
/// `msg_id` also serves to match a response with the request that caused
/// it.
///
/// Serialized form:
///
/// Length     | Content
/// ---------- | ------
/// `1`        | `0x04`
/// `8`        | msg_id in big-endian order
/// `8`        | length of to_user in big-endian order
/// variable   | to_user in UTF-8
/// `8`        | length of from_user in big-endian order
/// variable   | from_user in UTF-8
/// the rest   | content
#[derive(Debug, PartialEq, Clone)]
pub struct ChatMessage {
    pub msg_id: u64,
    pub to_user: String,
    pub from_user: String,
    pub content: Vec<u8>,
}

/// A chat message as a mathematical value.
pub struct ChatMessageView {
    pub msg_id: u64,
    pub to_user: Seq<char>,
    pub from_user: Seq<char>,
    pub content: Seq<u8>,
}

impl View for ChatMessage {
    type V = ChatMessageView;

    open spec fn view(&self) -> ChatMessageView {
        ChatMessageView {
            msg_id: self.msg_id,
            to_user: self.to_user@,
            from_user: self.from_user@,
            content: self.content@,
        }
    }
}

impl ChatMessageView {
    /// The bytes that stand for this message on the wire.
    pub open spec fn wire(self) -> Seq<u8> {
        seq![CHAT_MESSAGE_TAG] + be_bytes(self.msg_id) + text_bytes(self.to_user) + text_bytes(
            self.from_user,
        ) + self.content
    }

    /// The number of bytes in front of the content.
    pub open spec fn header_len(self) -> nat {
        25 + encode_utf8(self.to_user).len() + encode_utf8(self.from_user).len()
    }
}

impl FromBytes for ChatMessage {
    open spec fn parsed(i: Seq<u8>) -> ParseOutcome<ChatMessageView> {
        if i.len() == 0 {
            ParseOutcome::Incomplete
        } else if i[0] != CHAT_MESSAGE_TAG {
            ParseOutcome::Error
        } else if i.len() < 9 {
            ParseOutcome::Incomplete
        } else {
            match parsed_text(i, 9) {
                ParseOutcome::Done { value: to_user, consumed: n1 } => match parsed_text(i, 9 + n1) {
                    ParseOutcome::Done { value: from_user, consumed: n2 } => ParseOutcome::Done {
                        value: ChatMessageView {
                            msg_id: be_value(i.subrange(1, 9)),
                            to_user,
                            from_user,
                            content: i.subrange(9 + n1 + n2, i.len() as int),
                        },
                        consumed: i.len() as usize,
                    },
                    ParseOutcome::Incomplete => ParseOutcome::Incomplete,
                    ParseOutcome::Error => ParseOutcome::Error,
                },
                ParseOutcome::Incomplete => ParseOutcome::Incomplete,
                ParseOutcome::Error => ParseOutcome::Error,
            }
        }
    }

    fn from_bytes(i: &[u8]) -> (r: ParseOutcome<ChatMessage>) {
        if i.len() == 0 {
            return ParseOutcome::Incomplete;
        }
        if i[0] != CHAT_MESSAGE_TAG {
            return ParseOutcome::Error;
        }
        if i.len() < 9 {
            return ParseOutcome::Incomplete;
        }
        let msg_id = read_u64(i, 1);
        let (to_user, n1) = match read_text(i, 9) {
            ParseOutcome::Done { value, consumed } => (value, consumed),
            ParseOutcome::Incomplete => return ParseOutcome::Incomplete,
            ParseOutcome::Error => return ParseOutcome::Error,
        };
        let (from_user, n2) = match read_text(i, 9 + n1) {
            ParseOutcome::Done { value, consumed } => (value, consumed),
            ParseOutcome::Incomplete => return ParseOutcome::Incomplete,
            ParseOutcome::Error => return ParseOutcome::Error,
        };
        let content = slice_to_vec(slice_subrange(i, 9 + n1 + n2, i.len()));
        ParseOutcome::Done {
            value: ChatMessage { msg_id, to_user, from_user, content },
            consumed: i.len(),
        }
    }
}

impl ToBytes for ChatMessage {
    open spec fn wire(&self) -> Seq<u8> {
        self@.wire()
    }

    fn to_bytes(&self) -> (r: Result<Vec<u8>, PacketError>) {
        let mut buf = Vec::<u8>::new();
        put_u8(&mut buf, CHAT_MESSAGE_TAG);
        put_u64(&mut buf, self.msg_id);
        put_text(&mut buf, &self.to_user);
        put_text(&mut buf, &self.from_user);
        put_slice(&mut buf, self.content.as_slice());
        Ok(buf)
    }
}

/// A chat message that was written is read back as it was, empty names and
/// empty content included. The one condition is that of every buffer: its
/// length fits in `usize`.
pub proof fn lemma_chat_message_round_trip(m: ChatMessageView)
    requires
        m.header_len() + m.content.len() <= usize::MAX,
    ensures
        ChatMessage::parsed(m.wire()) == (ParseOutcome::Done {
            value: m,
            consumed: m.wire().len() as usize,
        }),
{
    let i = m.wire();
    let head = seq![CHAT_MESSAGE_TAG] + be_bytes(m.msg_id);
    let n1 = 8 + encode_utf8(m.to_user).len() as int;
    let n2 = 8 + encode_utf8(m.from_user).len() as int;
    lemma_be_value_of_bytes(m.msg_id);
    assert(i =~= head + text_bytes(m.to_user) + (text_bytes(m.from_user) + m.content));
    lemma_parsed_text_of_bytes(head, m.to_user, text_bytes(m.from_user) + m.content);
    lemma_parsed_text_of_bytes(head + text_bytes(m.to_user), m.from_user, m.content);
    assert(i.subrange(9 + n1 + n2, i.len() as int) =~= m.content);
}

} // verus!
