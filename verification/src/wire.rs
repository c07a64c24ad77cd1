//! Building blocks of the wire format: big-endian integers, length-prefixed
//! UTF-8 strings and the result type shared by all packet parsers.

use bytes::BufMut;
use vstd::prelude::*;
use vstd::slice::{slice_subrange, slice_to_vec};
use vstd::utf8::{decode_utf8, encode_utf8, valid_utf8};

verus! {

/// What a parser made of the head of a buffer.
#[derive(Debug, PartialEq, Clone)]
pub enum ParseOutcome<T> {
    /// A value was read from the first `consumed` bytes.
    Done { value: T, consumed: usize },
    /// The buffer ends before the value does.
    Incomplete,
    /// The bytes cannot be the start of such a value.
    Error,
}

impl<T: View> View for ParseOutcome<T> {
    type V = ParseOutcome<T::V>;

    open spec fn view(&self) -> ParseOutcome<T::V> {
        match *self {
            ParseOutcome::Done { value, consumed } => ParseOutcome::Done { value: value@, consumed },
            ParseOutcome::Incomplete => ParseOutcome::Incomplete,
            ParseOutcome::Error => ParseOutcome::Error,
        }
    }
}

/// Trusted: `core::str::Utf8Error`, the error of `core::str::from_utf8`,
/// is carried as an opaque value.
#[verifier::external_type_specification]
#[verifier::external_body]
pub struct ExUtf8Error(core::str::Utf8Error);

/// Trusted: `core::str::from_utf8` accepts exactly the well-formed UTF-8
/// byte strings and returns the characters they encode.
pub assume_specification[ core::str::from_utf8 ](v: &[u8]) -> (r: Result<
    &str,
    core::str::Utf8Error,
>)
    ensures
        r is Ok <==> valid_utf8(v@),
        r matches Ok(s) ==> s@ == decode_utf8(v@),
;

/// The eight bytes of `v`, most significant first.
pub open spec fn be_bytes(v: u64) -> Seq<u8> {
    seq![
        (v >> 56) as u8,
        (v >> 48) as u8,
        (v >> 40) as u8,
        (v >> 32) as u8,
        (v >> 24) as u8,
        (v >> 16) as u8,
        (v >> 8) as u8,
        v as u8,
    ]
}

/// The value whose big-endian bytes are the first eight bytes of `s`.
pub open spec fn be_value(s: Seq<u8>) -> u64
    recommends
        s.len() >= 8,
{
    (s[0] as u64) << 56 | (s[1] as u64) << 48 | (s[2] as u64) << 40 | (s[3] as u64) << 32 | (
    s[4] as u64) << 24 | (s[5] as u64) << 16 | (s[6] as u64) << 8 | (s[7] as u64)
}

/// Reading back the bytes of a value gives the value.
pub proof fn lemma_be_value_of_bytes(v: u64)
    ensures
        be_bytes(v).len() == 8,
        be_value(be_bytes(v)) == v,
{
    assert((((v >> 56) as u8) as u64) << 56 | (((v >> 48) as u8) as u64) << 48 | (((v >> 40) as u8) as u64)
        << 40 | (((v >> 32) as u8) as u64) << 32 | (((v >> 24) as u8) as u64) << 24 | (((v >> 16) as u8) as u64)
        << 16 | (((v >> 8) as u8) as u64) << 8 | ((v as u8) as u64) == v) by (bit_vector);
}

/// Appends one byte to `buf`.
///
/// Trusted: `bytes::BufMut::put_u8` on a `Vec<u8>`, which writes the byte at
/// the end of the vector and leaves what was there untouched.
#[verifier::external_body]
pub(crate) fn put_u8(buf: &mut Vec<u8>, v: u8)
    ensures
        final(buf)@ == old(buf)@.push(v),
{
    buf.put_u8(v);
}

/// Appends `v` to `buf` as eight bytes in big-endian order.
///
/// Trusted: `bytes::BufMut::put_u64` on a `Vec<u8>`, which writes the
/// integer at the end of the vector, most significant byte first.
#[verifier::external_body]
pub(crate) fn put_u64(buf: &mut Vec<u8>, v: u64)
    ensures
        final(buf)@ == old(buf)@ + be_bytes(v),
{
    buf.put_u64(v);
}

/// Reads the big-endian integer that starts at `at`.
pub fn read_u64(bytes: &[u8], at: usize) -> (v: u64)
    requires
        at + 8 <= bytes@.len(),
    ensures
        v == be_value(bytes@.subrange(at as int, at + 8)),
{
    let b0: u64 = bytes[at] as u64;
    let b1: u64 = bytes[at + 1] as u64;
    let b2: u64 = bytes[at + 2] as u64;
    let b3: u64 = bytes[at + 3] as u64;
    let b4: u64 = bytes[at + 4] as u64;
    let b5: u64 = bytes[at + 5] as u64;
    let b6: u64 = bytes[at + 6] as u64;
    let b7: u64 = bytes[at + 7] as u64;
    b0 << 56 | b1 << 48 | b2 << 40 | b3 << 32 | b4 << 24 | b5 << 16 | b6 << 8 | b7
}

/// Appends a copy of `bytes` to `buf`.
pub fn put_slice(buf: &mut Vec<u8>, bytes: &[u8])
    ensures
        final(buf)@ == old(buf)@ + bytes@,
{
    let mut tail = slice_to_vec(bytes);
    buf.append(&mut tail);
}

/// The bytes of a length-prefixed text: the length of its UTF-8 encoding as
/// a big-endian integer, then the encoding.
pub open spec fn text_bytes(text: Seq<char>) -> Seq<u8> {
    be_bytes(encode_utf8(text).len() as u64) + encode_utf8(text)
}

/// What a reader of a length-prefixed text finds at offset `at` of `i`.
///
/// The length is read first and the bytes after it are counted before they
/// are looked at, so a buffer that ends early is incomplete whatever it
/// holds.
pub open spec fn parsed_text(i: Seq<u8>, at: int) -> ParseOutcome<Seq<char>>
    recommends
        0 <= at <= i.len(),
{
    if i.len() - at < 8 {
        ParseOutcome::Incomplete
    } else {
        let len = be_value(i.subrange(at, at + 8));
        if i.len() - (at + 8) < len {
            ParseOutcome::Incomplete
        } else {
            let field = i.subrange(at + 8, at + 8 + len);
            if valid_utf8(field) {
                ParseOutcome::Done { value: decode_utf8(field), consumed: (8 + len) as usize }
            } else {
                ParseOutcome::Error
            }
        }
    }
}

/// Writes `text` with its length in front.
pub fn put_text(buf: &mut Vec<u8>, text: &String)
    ensures
        final(buf)@ == old(buf)@ + text_bytes(text@),
{
    let bytes = text.as_str().as_bytes();
    put_u64(buf, bytes.len() as u64);
    put_slice(buf, bytes);
}

/// Reads the length-prefixed text that starts at `at`.
pub fn read_text(i: &[u8], at: usize) -> (r: ParseOutcome<String>)
    requires
        at <= i@.len(),
    ensures
        r@ == parsed_text(i@, at as int),
        r matches ParseOutcome::Done { consumed, .. } ==> at + consumed <= i@.len(),
{
    if i.len() - at < 8 {
        return ParseOutcome::Incomplete;
    }
    let len = read_u64(i, at);
    let start = at + 8;
    if ((i.len() - start) as u64) < len {
        return ParseOutcome::Incomplete;
    }
    let n = len as usize;
    let field = slice_subrange(i, start, start + n);
    match core::str::from_utf8(field) {
        Ok(text) => ParseOutcome::Done { value: text.to_owned(), consumed: 8 + n },
        Err(_) => ParseOutcome::Error,
    }
}

/// A text that was written is read back, whatever stands before and after
/// it, as long as its encoding is short enough for its length to be written.
pub proof fn lemma_parsed_text_of_bytes(before: Seq<u8>, text: Seq<char>, after: Seq<u8>)
    requires
        before.len() + 8 + encode_utf8(text).len() + after.len() <= usize::MAX,
    ensures
        parsed_text(before + text_bytes(text) + after, before.len() as int) == (
        ParseOutcome::Done { value: text, consumed: (8 + encode_utf8(text).len()) as usize }),
{
    broadcast use vstd::utf8::encode_utf8_valid_utf8, vstd::utf8::encode_utf8_decode_utf8;

    let enc = encode_utf8(text);
    let len = enc.len() as u64;
    let i = before + text_bytes(text) + after;
    let at = before.len() as int;
    lemma_be_value_of_bytes(len);
    assert(i.subrange(at + 8, at + 8 + len) =~= enc);
}

} // verus!
