//! PingRequest packet.

use crate::errors::PacketError;
use crate::wire::{be_bytes, be_value, put_u64, put_u8, read_u64, ParseOutcome};
use crate::{FromBytes, ToBytes};
use vstd::prelude::*;

verus! {

/// The first byte of a serialized [`PingRequest`].
pub const PING_REQUEST_TAG: u8 = 0x04;

/// The serialized length of a [`PingRequest`]: the tag and the id.
pub const PING_REQUEST_LEN: usize = 9;

/// Liveness probe, sent by both sides of a connection.
///
/// The id can be anything except 0, which stands for "no ping sent".
///
/// Serialized form:
///
/// Length | Content
/// ------ | ------
/// `1`    | `0x04`
/// `8`    | ping_id in big-endian order
#[derive(Debug, PartialEq, Clone, Copy)]
pub struct PingRequest {
    /// The id of ping
    pub ping_id: u64,
}

impl View for PingRequest {
    type V = PingRequest;

    open spec fn view(&self) -> PingRequest {
        *self
    }
}

impl FromBytes for PingRequest {
    open spec fn parsed(i: Seq<u8>) -> ParseOutcome<PingRequest> {
        if i.len() == 0 {
            ParseOutcome::Incomplete
        } else if i[0] != PING_REQUEST_TAG {
            ParseOutcome::Error
        } else if i.len() < PING_REQUEST_LEN {
            ParseOutcome::Incomplete
        } else {
            ParseOutcome::Done {
                value: PingRequest { ping_id: be_value(i.subrange(1, 9)) },
                consumed: PING_REQUEST_LEN,
            }
        }
    }

    fn from_bytes(i: &[u8]) -> (r: ParseOutcome<PingRequest>) {
        if i.len() == 0 {
            return ParseOutcome::Incomplete;
        }
        if i[0] != PING_REQUEST_TAG {
            return ParseOutcome::Error;
        }
        if i.len() < PING_REQUEST_LEN {
            return ParseOutcome::Incomplete;
        }
        let ping_id = read_u64(i, 1);
        ParseOutcome::Done { value: PingRequest { ping_id }, consumed: PING_REQUEST_LEN }
    }
}

impl ToBytes for PingRequest {
    open spec fn wire(&self) -> Seq<u8> {
        seq![PING_REQUEST_TAG] + be_bytes(self.ping_id)
    }

    fn to_bytes(&self) -> (r: Result<Vec<u8>, PacketError>) {
        let mut buf = Vec::<u8>::new();
        put_u8(&mut buf, PING_REQUEST_TAG);
        put_u64(&mut buf, self.ping_id);
        Ok(buf)
    }
}

} // verus!
