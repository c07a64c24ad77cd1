//! PongResponse packet.

use crate::errors::PacketError;
use crate::wire::{be_bytes, be_value, put_u64, put_u8, read_u64, ParseOutcome};
use crate::{FromBytes, ToBytes};
use vstd::prelude::*;

verus! {

/// The first byte of a serialized [`PongResponse`].
pub const PONG_RESPONSE_TAG: u8 = 0xbf;

/// The serialized length of a [`PongResponse`]: the tag and the id.
pub const PONG_RESPONSE_LEN: usize = 9;

/// Liveness reply, sent in answer to a ping request.
///
/// It carries the id of the ping that it answers; a reply with another id
/// is to be ignored by the side that sent the ping.
///
/// Serialized form:
///
/// Length | Content
/// ------ | ------
/// `1`    | `0xbf`
/// `8`    | ping_id in big-endian order
#[derive(Debug, PartialEq, Clone, Copy)]
pub struct PongResponse {
    /// The id of ping to respond
    pub ping_id: u64,
}

impl View for PongResponse {
    type V = PongResponse;

    open spec fn view(&self) -> PongResponse {
        *self
    }
}

impl FromBytes for PongResponse {
    open spec fn parsed(i: Seq<u8>) -> ParseOutcome<PongResponse> {
        if i.len() == 0 {
            ParseOutcome::Incomplete
        } else if i[0] != PONG_RESPONSE_TAG {
            ParseOutcome::Error
        } else if i.len() < PONG_RESPONSE_LEN {
            ParseOutcome::Incomplete
        } else {
            ParseOutcome::Done {
                value: PongResponse { ping_id: be_value(i.subrange(1, 9)) },
                consumed: PONG_RESPONSE_LEN,
            }
        }
    }

    fn from_bytes(i: &[u8]) -> (r: ParseOutcome<PongResponse>) {
        if i.len() == 0 {
            return ParseOutcome::Incomplete;
        }
        if i[0] != PONG_RESPONSE_TAG {
            return ParseOutcome::Error;
        }
        if i.len() < PONG_RESPONSE_LEN {
            return ParseOutcome::Incomplete;
        }
        let ping_id = read_u64(i, 1);
        ParseOutcome::Done { value: PongResponse { ping_id }, consumed: PONG_RESPONSE_LEN }
    }
}

impl ToBytes for PongResponse {
    open spec fn wire(&self) -> Seq<u8> {
        seq![PONG_RESPONSE_TAG] + be_bytes(self.ping_id)
    }

    fn to_bytes(&self) -> (r: Result<Vec<u8>, PacketError>) {
        let mut buf = Vec::<u8>::new();
        put_u8(&mut buf, PONG_RESPONSE_TAG);
        put_u64(&mut buf, self.ping_id);
        Ok(buf)
    }
}

} // verus!
