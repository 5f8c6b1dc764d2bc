//! Fixed-size framing of wire messages.
//!
//! A frame is a buffer of exactly `MSG_SIZE` bytes: the UTF-8 bytes of one
//! message followed by zero padding.  Decoding trims at the first zero byte
//! and reads the prefix as UTF-8 text.

use vstd::prelude::*;
use vstd::utf8::{decode_utf8, encode_utf8, valid_utf8};

verus! {

/// Size in bytes of every frame on the wire.
pub const MSG_SIZE: usize = 32;

/// A per-message failure: the frame or message is dropped, the connection lives on.
#[derive(Clone, Copy, Debug, PartialEq, Eq, Structural)]
pub enum ProtocolError {
    /// The frame's bytes before the first zero are not valid UTF-8.
    InvalidEncoding,
    /// The message is not two square tokens separated by one space.
    MalformedMessage,
}

/// Length of the prefix of `s` that precedes the first zero byte.
pub open spec fn zero_prefix_len(s: Seq<u8>) -> int
    decreases s.len(),
{
    if s.len() == 0 {
        0
    } else if s[0] == 0 {
        0
    } else {
        1 + zero_prefix_len(s.drop_first())
    }
}

/// The payload a frame carries: its bytes up to the first zero.
pub open spec fn payload_of(frame: Seq<u8>) -> Seq<u8> {
    frame.take(zero_prefix_len(frame))
}

/// The frame that carries `payload`: the payload, zero-padded to `MSG_SIZE` bytes.
pub open spec fn frame_of(payload: Seq<u8>) -> Seq<u8> {
    payload + Seq::new((MSG_SIZE - payload.len()) as nat, |i: int| 0u8)
}

/// A payload the codec carries exactly: shorter than a frame, free of zero bytes.
pub open spec fn representable(payload: Seq<u8>) -> bool {
    &&& payload.len() < MSG_SIZE
    &&& forall|j: int| 0 <= j < payload.len() ==> payload[j] != 0
}

/// An index before which no byte is zero, and at which the sequence ends or
/// holds a zero, is exactly `zero_prefix_len`.
pub proof fn lemma_zero_prefix_len_at(s: Seq<u8>, i: int)
    requires
        0 <= i <= s.len(),
        forall|j: int| 0 <= j < i ==> s[j] != 0,
        i < s.len() ==> s[i] == 0,
    ensures
        zero_prefix_len(s) == i,
    decreases s.len(),
{
    if s.len() == 0 {
    } else if s[0] == 0 {
    } else {
        lemma_zero_prefix_len_at(s.drop_first(), i - 1);
    }
}

/// A frame's payload is, byte for byte, the representable payload that built it.
pub proof fn lemma_payload_round_trip(payload: Seq<u8>)
    requires
        representable(payload),
    ensures
        payload_of(frame_of(payload)) == payload,
{
    let f = frame_of(payload);
    lemma_zero_prefix_len_at(f, payload.len() as int);
    assert(payload_of(f) =~= payload);
}

/// Round trip at the text level: a message whose UTF-8 bytes fit a frame and
/// hold no zero byte is returned unchanged by decoding the frame that
/// encoded it.
pub proof fn lemma_message_round_trip(m: Seq<char>)
    requires
        representable(encode_utf8(m)),
    ensures
        valid_utf8(payload_of(frame_of(encode_utf8(m)))),
        decode_utf8(payload_of(frame_of(encode_utf8(m)))) == m,
{
    broadcast use vstd::utf8::encode_utf8_valid_utf8, vstd::utf8::encode_utf8_decode_utf8;

    lemma_payload_round_trip(encode_utf8(m));
}

/// Builds the frame for `payload`: its bytes followed by zero padding.
pub fn encode_frame(payload: &Vec<u8>) -> (frame: Vec<u8>)
    requires
        payload@.len() < MSG_SIZE,
    ensures
        frame@ == frame_of(payload@),
        frame@.len() == MSG_SIZE,
{
    let mut frame: Vec<u8> = Vec::new();
    let mut i: usize = 0;
    while i < payload.len()
        invariant
            i <= payload@.len(),
            frame@ == payload@.take(i as int),
        decreases payload@.len() - i,
    {
        frame.push(payload[i]);
        i = i + 1;
    }
    while frame.len() < MSG_SIZE
        invariant
            payload@.len() <= frame@.len() <= MSG_SIZE,
            frame@.take(payload@.len() as int) == payload@,
            forall|j: int| payload@.len() <= j < frame@.len() ==> frame@[j] == 0u8,
        decreases MSG_SIZE - frame@.len(),
    {
        frame.push(0u8);
    }
    proof {
        assert(frame@ =~= frame_of(payload@));
    }
    frame
}

/// Frames `payload` where it fits; rejects it — never truncates it — where
/// it is `MSG_SIZE` bytes or longer.
pub fn try_encode_frame(payload: &Vec<u8>) -> (r: Option<Vec<u8>>)
    ensures
        payload@.len() < MSG_SIZE ==> (r matches Some(frame) && frame@ == frame_of(payload@)),
        payload@.len() >= MSG_SIZE ==> r is None,
{
    if payload.len() < MSG_SIZE {
        Some(encode_frame(payload))
    } else {
        None
    }
}

/// Extracts a frame's payload: its bytes before the first zero.
pub fn frame_payload(frame: &Vec<u8>) -> (p: Vec<u8>)
    ensures
        p@ == payload_of(frame@),
{
    let mut p: Vec<u8> = Vec::new();
    let mut i: usize = 0;
    while i < frame.len() && frame[i] != 0
        invariant
            i <= frame@.len(),
            p@ == frame@.take(i as int),
            forall|j: int| 0 <= j < i ==> frame@[j] != 0,
        decreases frame@.len() - i,
    {
        p.push(frame[i]);
        i = i + 1;
    }
    proof {
        lemma_zero_prefix_len_at(frame@, i as int);
    }
    p
}

/// Relies on alloc's `String::from_utf8`: it returns `Ok` exactly when the
/// bytes are valid UTF-8, and the string then reads as their decoding.
#[verifier::external_body]
fn string_from_utf8(bytes: Vec<u8>) -> (r: Option<String>)
    ensures
        r is Some <==> valid_utf8(bytes@),
        r matches Some(s) ==> s@ == decode_utf8(bytes@),
{
    String::from_utf8(bytes).ok()
}

/// Decodes a frame: the bytes before the first zero byte, read as UTF-8 text.
/// A payload that is not valid UTF-8 fails with `InvalidEncoding`; the error
/// is fatal to this one frame only.
pub fn decode_frame(frame: &Vec<u8>) -> (r: Result<String, ProtocolError>)
    ensures
        r is Ok <==> valid_utf8(payload_of(frame@)),
        r matches Ok(s) ==> s@ == decode_utf8(payload_of(frame@)),
        r is Err ==> r == Err::<String, ProtocolError>(ProtocolError::InvalidEncoding),
{
    let p = frame_payload(frame);
    match string_from_utf8(p) {
        Some(s) => Ok(s),
        None => Err(ProtocolError::InvalidEncoding),
    }
}

} // verus!
