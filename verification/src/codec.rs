//! Codec that turns the bytes of a stream into packets and back.

use crate::errors::PacketError;
use crate::stats::{counted_up, Stats};
use crate::wire::ParseOutcome;
use crate::{FromBytes, Packet, ToBytes};
use bytes::BytesMut;
use std::io::Error as IoError;
use vstd::prelude::*;
use vstd::std_specs::convert::FromSpecImpl;

verus! {

/// Trusted: `bytes::BytesMut`, a growable buffer of bytes, is an opaque
/// value of which only [`buffered`] is known.
#[verifier::external_type_specification]
#[verifier::external_body]
pub struct ExBytesMut(BytesMut);

/// Trusted: `std::io::Error` is carried as an opaque value.
#[verifier::external_type_specification]
#[verifier::external_body]
pub struct ExIoError(IoError);

/// The bytes that a `bytes::BytesMut` holds, first to last: what it
/// dereferences to as a slice.
pub uninterp spec fn buffered(buf: BytesMut) -> Seq<u8>;

/// Trusted: `BytesMut::is_empty` tells whether the buffer holds no byte.
#[verifier::external_body]
fn buffer_is_empty(buf: &BytesMut) -> (b: bool)
    ensures
        b == (buffered(*buf).len() == 0),
{
    buf.is_empty()
}

/// Trusted: a `BytesMut` dereferences to the slice of the bytes it holds.
#[verifier::external_body]
fn buffer_bytes(buf: &BytesMut) -> (s: &[u8])
    ensures
        s@ == buffered(*buf),
{
    &buf[..]
}

/// Trusted: `BytesMut::clear` removes every byte from the buffer.
#[verifier::external_body]
fn buffer_clear(buf: &mut BytesMut)
    ensures
        buffered(*final(buf)) == Seq::<u8>::empty(),
{
    buf.clear();
}

/// Trusted: `BytesMut::extend_from_slice` appends the given bytes after
/// those that the buffer holds, growing it as needed.
#[verifier::external_body]
fn buffer_extend(buf: &mut BytesMut, bytes: &[u8])
    ensures
        buffered(*final(buf)) == buffered(*old(buf)) + bytes@,
{
    buf.extend_from_slice(bytes);
}

/// Error that can happen when decoding a `Packet` from bytes.
#[derive(Debug)]
pub enum DecodeError {
    /// The received bytes cannot be parsed.
    DeserializeEncryptedError {
        /// The buffer as it was received.
        buf: Vec<u8>,
    },
    /// The received bytes cannot be decrypted.
    DecryptError,
    /// More data is needed to parse the packet. [`Codec::decode`] does not
    /// fail with it: it waits for the data.
    IncompleteDecryptedPacket {
        /// The bytes received so far.
        packet: Vec<u8>,
    },
    /// General IO error.
    IoError {
        /// IO error
        error: IoError,
    },
}

impl FromSpecImpl<IoError> for DecodeError {
    open spec fn obeys_from_spec() -> bool {
        true
    }

    open spec fn from_spec(error: IoError) -> DecodeError {
        DecodeError::IoError { error }
    }
}

impl From<IoError> for DecodeError {
    fn from(error: IoError) -> (e: DecodeError) {
        DecodeError::IoError { error }
    }
}

/// Error that can happen when encoding a `Packet` to bytes.
#[derive(Debug)]
pub enum EncodeError {
    /// The packet cannot be serialized.
    SerializeError {
        /// Serialization error
        error: PacketError,
    },
    /// General IO error.
    IoError {
        /// IO error
        error: IoError,
    },
}

impl FromSpecImpl<IoError> for EncodeError {
    open spec fn obeys_from_spec() -> bool {
        true
    }

    open spec fn from_spec(error: IoError) -> EncodeError {
        EncodeError::IoError { error }
    }
}

impl From<IoError> for EncodeError {
    fn from(error: IoError) -> (e: EncodeError) {
        EncodeError::IoError { error }
    }
}

/// The packet that one decoding step takes from a buffer that holds the
/// bytes `i`, if it takes one. There is none yet where the buffer is empty,
/// where its bytes end before a packet does, and where they are no packet.
pub open spec fn decoded(i: Seq<u8>) -> Option<crate::PacketView> {
    if i.len() == 0 {
        None
    } else {
        match Packet::parsed(i) {
            ParseOutcome::Done { value, .. } => Some(value),
            ParseOutcome::Incomplete => None,
            ParseOutcome::Error => None,
        }
    }
}

/// Decoder and encoder of packets that counts what passes through it.
pub struct Codec {
    stats: Stats,
}

impl Codec {
    /// The statistics kept so far, in specifications.
    pub closed spec fn spec_stats(&self) -> Stats {
        self.stats
    }

    /// Create a new codec that counts into the given statistics.
    pub fn new(stats: Stats) -> (codec: Codec)
        ensures
            codec.spec_stats() == stats,
    {
        Codec { stats }
    }

    /// The statistics kept so far.
    pub fn stats(&self) -> (stats: &Stats)
        ensures
            *stats == self.spec_stats(),
    {
        &self.stats
    }

    /// Tries to take one packet from the head of `buf`.
    ///
    /// A packet is counted as incoming and empties the buffer: bytes after
    /// it are dropped with it. In every other case there is no packet yet:
    /// the result is `Ok(None)`, and the buffer and the counters stay as
    /// they are, so that the caller can append what comes next and try
    /// again. This function returns no error.
    pub fn decode(&mut self, buf: &mut BytesMut) -> (r: Result<Option<Packet>, DecodeError>)
        ensures
            final(self).spec_stats().counters.spec_outgoing() == old(
                self,
            ).spec_stats().counters.spec_outgoing(),
            match decoded(buffered(*old(buf))) {
                Some(value) => {
                    &&& r matches Ok(Some(packet))
                    &&& packet@ == value
                    &&& buffered(*final(buf)) == Seq::<u8>::empty()
                    &&& final(self).spec_stats().counters.spec_incoming() == counted_up(
                        old(self).spec_stats().counters.spec_incoming(),
                    )
                },
                None => {
                    &&& r matches Ok(None)
                    &&& buffered(*final(buf)) == buffered(*old(buf))
                    &&& final(self).spec_stats() == old(self).spec_stats()
                },
            },
    {
        if buffer_is_empty(buf) {
            return Ok(None);
        }
        match Packet::from_bytes(buffer_bytes(buf)) {
            ParseOutcome::Incomplete | ParseOutcome::Error => Ok(None),
            ParseOutcome::Done { value, consumed: _ } => {
                self.stats.counters.increase_incoming();
                buffer_clear(buf);
                Ok(Some(value))
            },
        }
    }

    /// Appends the bytes of `packet` to `buf` and counts the packet as
    /// outgoing.
    pub fn encode(&mut self, packet: Packet, buf: &mut BytesMut) -> (r: Result<(), EncodeError>)
        ensures
            r is Ok,
            buffered(*final(buf)) == buffered(*old(buf)) + packet@.wire(),
            final(self).spec_stats().counters.spec_outgoing() == counted_up(
                old(self).spec_stats().counters.spec_outgoing(),
            ),
            final(self).spec_stats().counters.spec_incoming() == old(
                self,
            ).spec_stats().counters.spec_incoming(),
    {
        self.stats.counters.increase_outgoing();
        match packet.to_bytes() {
            Ok(bytes) => {
                buffer_extend(buf, bytes.as_slice());
                Ok(())
            },
            Err(error) => Err(EncodeError::SerializeError { error }),
        }
    }
}

/// Round trip: a buffer that holds the bytes of a packet, as `encode`
/// writes them into an empty buffer, decodes to that packet.
pub proof fn lemma_decode_of_encoded(p: crate::PacketView)
    requires
        crate::fits_buffer(p),
    ensures
        decoded(p.wire()) == Some(p),
{
    crate::lemma_packet_round_trip(p);
}

/// Incomplete buffer: the first `k` bytes of a packet, for `k` from 1 to 8,
/// are no packet yet and no error; the buffer is kept, and once the
/// remaining bytes have been appended it decodes to the packet.
pub proof fn lemma_decode_of_short_prefix(p: crate::PacketView, k: int)
    requires
        crate::fits_buffer(p),
        0 < k < 9,
    ensures
        p.wire().len() >= 9,
        decoded(p.wire().take(k)) == None::<crate::PacketView>,
        p.wire().take(k) + p.wire().skip(k) == p.wire(),
        decoded(p.wire().take(k) + p.wire().skip(k)) == Some(p),
{
    lemma_decode_of_encoded(p);
    let i = p.wire();
    assert(i.len() >= 9 && (i[0] == 0x04 || i[0] == 0xbf)) by {
        match p {
            crate::PacketView::PingRequest(q) => {},
            crate::PacketView::PongResponse(q) => {},
            crate::PacketView::ChatMessage(m) => {},
        }
    }
    crate::lemma_short_buffer_incomplete(i.take(k));
    assert(i.take(k) + i.skip(k) =~= i);
}

} // verus!
