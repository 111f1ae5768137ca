//! Length-prefixed frames: a four-byte big-endian length, then the payload.

use byteorder::{BigEndian, ByteOrder};
use ascii::AsAsciiStr;
use vstd::prelude::*;
use vstd::string::*;
use vstd::utf8::*;

verus! {

/// Why a frame could not be built or read.
#[derive(Debug, Clone, Copy, PartialEq, Eq, Structural)]
pub enum FrameError {
    /// The payload to encode holds a character outside 7-bit ASCII.
    NonAsciiPayload,
    /// A frame's payload, or a payload's field layout, is not well formed.
    MalformedFrame,
}

/// What `read_msg` found at the start of a buffer.
#[derive(Debug, PartialEq, Eq)]
pub enum DecodeResult {
    /// Not a whole frame yet; nothing was consumed.
    Incomplete { consumed: usize },
    /// One whole frame: its declared length, its payload, and the bytes after it.
    Complete { length: usize, payload: String, remainder: Vec<u8> },
}

/// The number held big-endian in the first four bytes of `b`.
pub open spec fn be_u32_value(b: Seq<u8>) -> nat
    recommends
        b.len() >= 4,
{
    b[0] as nat * 16777216 + b[1] as nat * 65536 + b[2] as nat * 256 + b[3] as nat
}

/// The four bytes that hold `n` big-endian.
pub open spec fn length_prefix(n: nat) -> Seq<u8> {
    seq![
        (n / 16777216 % 256) as u8,
        (n / 65536 % 256) as u8,
        (n / 256 % 256) as u8,
        (n % 256) as u8,
    ]
}

/// The frame that carries `payload`.
pub open spec fn frame_of(payload: Seq<u8>) -> Seq<u8> {
    length_prefix(payload.len()) + payload
}

/// `buf` starts with a whole frame: a length prefix and as many bytes as it declares.
pub open spec fn holds_frame(buf: Seq<u8>) -> bool {
    buf.len() >= 4 && buf.len() - 4 >= be_u32_value(buf)
}

/// The payload of the frame at the start of `buf`.
pub open spec fn frame_payload(buf: Seq<u8>) -> Seq<u8> {
    buf.subrange(4, 4 + be_u32_value(buf) as int)
}

/// What follows the frame at the start of `buf`.
pub open spec fn frame_rest(buf: Seq<u8>) -> Seq<u8> {
    buf.subrange(4 + be_u32_value(buf) as int, buf.len() as int)
}

/// What `read_msg` returns on `buf`, outcome by outcome.
pub open spec fn decodes_as(buf: Seq<u8>, r: Result<DecodeResult, FrameError>) -> bool {
    match r {
        Ok(DecodeResult::Incomplete { consumed }) => consumed == 0 && !holds_frame(buf),
        Ok(DecodeResult::Complete { length, payload, remainder }) => {
            &&& holds_frame(buf)
            &&& valid_utf8(frame_payload(buf))
            &&& length == be_u32_value(buf)
            &&& payload@ == decode_utf8(frame_payload(buf))
            &&& remainder@ == frame_rest(buf)
        },
        Err(e) => {
            &&& e == FrameError::MalformedFrame
            &&& holds_frame(buf)
            &&& !valid_utf8(frame_payload(buf))
        },
    }
}

/// Relies on byteorder's `BigEndian::read_u32`: the first four bytes, most significant first.
#[verifier::external_body]
fn read_be_u32(buf: &[u8]) -> (r: u32)
    requires
        buf@.len() >= 4,
    ensures
        r as nat == be_u32_value(buf@),
{
    BigEndian::read_u32(buf)
}

/// Relies on byteorder's `BigEndian::write_u32`: `n` as four bytes, most significant first.
#[verifier::external_body]
fn be_u32_bytes(n: u32) -> (r: Vec<u8>)
    ensures
        r@ == length_prefix(n as nat),
{
    let mut b = vec![0u8; 4];
    BigEndian::write_u32(&mut b, n);
    b
}

/// Relies on ascii's `as_ascii_str` on `str`: it succeeds exactly when every
/// character is 7-bit ASCII, and then views the same bytes.
#[verifier::external_body]
fn ascii_bytes(s: &str) -> (r: Option<Vec<u8>>)
    ensures
        r is Some <==> is_ascii_chars(s@),
        r is Some ==> r->0@ == s.spec_bytes(),
{
    match s.as_ascii_str() {
        Ok(a) => Some(a.as_bytes().to_vec()),
        Err(_) => None,
    }
}

/// Relies on `String::from_utf8`: it accepts exactly the valid UTF-8 byte
/// strings, and decodes them.
#[verifier::external_body]
pub(crate) fn utf8_text(b: &[u8]) -> (r: Option<String>)
    ensures
        r is Some <==> valid_utf8(b@),
        r is Some ==> r->0@ == decode_utf8(b@),
{
    match String::from_utf8(b.to_vec()) {
        Ok(s) => Some(s),
        Err(_) => None,
    }
}

/// Frames an ASCII payload: its length in four big-endian bytes, then its bytes.
pub fn make_message(msg: &str) -> (r: Result<Vec<u8>, FrameError>)
    requires
        msg.spec_bytes().len() <= u32::MAX,
    ensures
        r is Err <==> !is_ascii_chars(msg@),
        r is Err ==> r == Err::<Vec<u8>, FrameError>(FrameError::NonAsciiPayload),
        r is Ok ==> r->Ok_0@ == frame_of(msg.spec_bytes()),
{
    match ascii_bytes(msg) {
        None => Err(FrameError::NonAsciiPayload),
        Some(bytes) => {
            let mut frame = be_u32_bytes(bytes.len() as u32);
            frame.extend_from_slice(bytes.as_slice());
            Ok(frame)
        },
    }
}

/// Reads the frame at the start of `buf`, if it is all there.
pub fn read_msg(buf: &[u8]) -> (r: Result<DecodeResult, FrameError>)
    ensures
        decodes_as(buf@, r),
{
    if buf.len() < 4 {
        return Ok(DecodeResult::Incomplete { consumed: 0 });
    }
    let size = read_be_u32(buf) as usize;
    if buf.len() - 4 < size {
        return Ok(DecodeResult::Incomplete { consumed: 0 });
    }
    let payload = &buf[4..4 + size];
    match utf8_text(payload) {
        None => Err(FrameError::MalformedFrame),
        Some(text) => {
            let remainder = vstd::slice::slice_to_vec(&buf[4 + size..buf.len()]);
            Ok(DecodeResult::Complete { length: size, payload: text, remainder })
        },
    }
}

/// The four bytes of a length prefix read back as the length they were made from.
pub proof fn lemma_prefix_value(n: nat)
    requires
        n <= u32::MAX,
    ensures
        length_prefix(n).len() == 4,
        be_u32_value(length_prefix(n)) == n,
{
    assert(n / 65536 == (n / 16777216) * 256 + n / 65536 % 256);
    assert(n / 256 == (n / 65536) * 256 + n / 256 % 256);
    assert(n == (n / 256) * 256 + n % 256);
    assert(n / 16777216 < 256);
}

/// Any buffer that begins with the frame of `payload` holds that frame whole:
/// its payload is `payload`, and what follows is `rest`.
pub proof fn lemma_frame_then(payload: Seq<u8>, rest: Seq<u8>)
    requires
        payload.len() <= u32::MAX,
    ensures
        holds_frame(frame_of(payload) + rest),
        frame_payload(frame_of(payload) + rest) == payload,
        frame_rest(frame_of(payload) + rest) == rest,
{
    let buf = frame_of(payload) + rest;
    lemma_prefix_value(payload.len());
    assert(buf.subrange(0, 4) =~= length_prefix(payload.len()));
    assert(be_u32_value(buf) == be_u32_value(length_prefix(payload.len())));
    assert(frame_payload(buf) =~= payload);
    assert(frame_rest(buf) =~= rest);
}

/// Reading the frame of an ASCII payload gives back that payload, and
/// leaves nothing over.
pub proof fn lemma_round_trip(p: Seq<char>, r: Result<DecodeResult, FrameError>)
    requires
        is_ascii_chars(p),
        p.len() <= u32::MAX,
        decodes_as(frame_of(encode_utf8(p)), r),
    ensures
        r matches Ok(DecodeResult::Complete { payload, remainder, .. }) && payload@ == p
            && remainder@.len() == 0,
{
    is_ascii_chars_encode_utf8(p);
    encode_utf8_valid_utf8(p);
    encode_utf8_decode_utf8(p);
    lemma_frame_then(encode_utf8(p), Seq::empty());
    assert(frame_of(encode_utf8(p)) + Seq::<u8>::empty() =~= frame_of(encode_utf8(p)));
}

/// A buffer too short for a length prefix, or shorter than the length it
/// declares, reads as incomplete and nothing of it is consumed.
pub proof fn lemma_incomplete(buf: Seq<u8>, r: Result<DecodeResult, FrameError>)
    requires
        buf.len() < 4 || buf.len() - 4 < be_u32_value(buf),
        decodes_as(buf, r),
    ensures
        r == Ok::<DecodeResult, FrameError>(DecodeResult::Incomplete { consumed: 0 }),
{
}

/// Two frames back to back: reading gives the first payload, and the second
/// frame whole as the remainder, which in turn reads as the second payload
/// with nothing left over.
pub proof fn lemma_pipelined(
    p1: Seq<char>,
    p2: Seq<char>,
    r: Result<DecodeResult, FrameError>,
)
    requires
        is_ascii_chars(p1),
        is_ascii_chars(p2),
        p1.len() <= u32::MAX,
        p2.len() <= u32::MAX,
        decodes_as(frame_of(encode_utf8(p1)) + frame_of(encode_utf8(p2)), r),
    ensures
        r matches Ok(DecodeResult::Complete { payload, remainder, .. }) && payload@ == p1
            && remainder@ == frame_of(encode_utf8(p2)),
        forall|r2: Result<DecodeResult, FrameError>|
            #[trigger] decodes_as(frame_of(encode_utf8(p2)), r2) ==> (r2 matches Ok(
                DecodeResult::Complete { payload, remainder, .. },
            ) && payload@ == p2 && remainder@.len() == 0),
{
    is_ascii_chars_encode_utf8(p1);
    encode_utf8_valid_utf8(p1);
    encode_utf8_decode_utf8(p1);
    lemma_frame_then(encode_utf8(p1), frame_of(encode_utf8(p2)));
    assert forall|r2: Result<DecodeResult, FrameError>|
        #[trigger] decodes_as(frame_of(encode_utf8(p2)), r2) implies (r2 matches Ok(
            DecodeResult::Complete { payload, remainder, .. },
        ) && payload@ == p2 && remainder@.len() == 0) by {
        lemma_round_trip(p2, r2);
    }
}

} // verus!
