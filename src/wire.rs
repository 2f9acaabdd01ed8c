use vstd::prelude::*;
use crate::signal::{Signal, SignalModel, Socket};

verus! {

/// The four bytes of `n`, most significant first.
pub open spec fn be32(n: u32) -> Seq<u8> {
    seq![(n >> 24u32) as u8, (n >> 16u32) as u8, (n >> 8u32) as u8, n as u8]
}

/// The number whose big-endian bytes are `a b c d`.
pub open spec fn read_be32(a: u8, b: u8, c: u8, d: u8) -> u32 {
    (a as u32) << 24u32 | (b as u32) << 16u32 | (c as u32) << 8u32 | d as u32
}

/// A framed message: its type code, its payload's length as four big-endian
/// bytes, then the payload.
pub open spec fn frame_bytes(code: u8, payload: Seq<u8>) -> Seq<u8> {
    seq![code] + be32(payload.len() as u32) + payload
}

/// The type code and payload of a frame, when `b` is one: at least the five
/// header bytes, and exactly as many after them as the header says.
pub open spec fn parse_frame(b: Seq<u8>) -> Option<(u8, Seq<u8>)> {
    if b.len() >= 5 && read_be32(b[1], b[2], b[3], b[4]) as int == b.len() - 5 {
        Some((b[0], b.subrange(5, b.len() as int)))
    } else {
        None
    }
}

proof fn lemma_be32_round_trip(n: u32)
    ensures
        read_be32((n >> 24u32) as u8, (n >> 16u32) as u8, (n >> 8u32) as u8, n as u8) == n,
{
    assert(((((n >> 24u32) as u8) as u32) << 24u32 | (((n >> 16u32) as u8) as u32) << 16u32 | (((n
        >> 8u32) as u8) as u32) << 8u32 | ((n as u8) as u32)) == n) by (bit_vector);
}

/// Framing round-trips: parsing the frame of a payload gives back its type
/// code and the payload.
pub proof fn lemma_frame_round_trip(code: u8, payload: Seq<u8>)
    requires
        payload.len() <= u32::MAX,
    ensures
        parse_frame(frame_bytes(code, payload)) == Some((code, payload)),
{
    let b = frame_bytes(code, payload);
    let n = payload.len() as u32;
    lemma_be32_round_trip(n);
    assert(b[0] == code);
    assert(b[1] == (n >> 24u32) as u8 && b[2] == (n >> 16u32) as u8);
    assert(b[3] == (n >> 8u32) as u8 && b[4] == n as u8);
    assert(b.subrange(5, b.len() as int) =~= payload);
}

/// Why bytes are not a frame.
#[derive(Clone, Copy, PartialEq, Eq, Structural, Debug)]
pub enum FrameError {
    /// Fewer than the five header bytes.
    Truncated,
    /// The header's length differs from the number of bytes after it.
    LengthMismatch,
}

/// A message as it travels: a type code and a payload.
#[derive(Clone, Debug, PartialEq, Eq)]
pub struct Frame {
    pub code: u8,
    pub payload: Vec<u8>,
}

/// The frame of `payload` under type code `code`.
pub fn encode_frame(code: u8, payload: &Vec<u8>) -> (r: Vec<u8>)
    requires
        payload@.len() <= u32::MAX,
    ensures
        r@ == frame_bytes(code, payload@),
{
    let n = payload.len() as u32;
    let mut out: Vec<u8> = Vec::new();
    out.push(code);
    out.push((n >> 24u32) as u8);
    out.push((n >> 16u32) as u8);
    out.push((n >> 8u32) as u8);
    out.push(n as u8);
    let mut i: usize = 0;
    while i < payload.len()
        invariant
            i <= payload@.len(),
            out@ == seq![code] + be32(n) + payload@.subrange(0, i as int),
        decreases payload@.len() - i,
    {
        out.push(payload[i]);
        assert(payload@.subrange(0, i + 1) =~= payload@.subrange(0, i as int).push(payload@[i as int]));
        i = i + 1;
    }
    assert(payload@.subrange(0, payload@.len() as int) =~= payload@);
    out
}

/// Reads one frame that fills `b` exactly.
pub fn decode_frame(b: &Vec<u8>) -> (r: Result<Frame, FrameError>)
    ensures
        r == Err::<Frame, FrameError>(FrameError::Truncated) <==> b@.len() < 5,
        r == Err::<Frame, FrameError>(FrameError::LengthMismatch) <==> b@.len() >= 5 && parse_frame(
            b@,
        ).is_none(),
        r is Ok <==> parse_frame(b@).is_some(),
        r matches Ok(f) ==> parse_frame(b@) == Some((f.code, f.payload@)),
{
    if b.len() < 5 {
        return Err(FrameError::Truncated);
    }
    let n = (b[1] as u32) << 24u32 | (b[2] as u32) << 16u32 | (b[3] as u32) << 8u32 | b[4] as u32;
    if n as usize != b.len() - 5 {
        return Err(FrameError::LengthMismatch);
    }
    let mut payload: Vec<u8> = Vec::new();
    let mut i: usize = 5;
    while i < b.len()
        invariant
            5 <= i <= b@.len(),
            payload@ == b@.subrange(5, i as int),
        decreases b@.len() - i,
    {
        payload.push(b[i]);
        assert(b@.subrange(5, i + 1) =~= b@.subrange(5, i as int).push(b@[i as int]));
        i = i + 1;
    }
    Ok(Frame { code: b[0], payload })
}

/// Which ledger a received message updates.
#[derive(Clone, Copy, PartialEq, Eq, Structural, Debug)]
pub enum MessageKind {
    Presence,
    Quality,
    Knowledge,
}

pub open spec fn kind_of(code: u8) -> Option<MessageKind> {
    if code == 0 {
        Some(MessageKind::Presence)
    } else if code == 1 {
        Some(MessageKind::Quality)
    } else if code == 2 {
        Some(MessageKind::Knowledge)
    } else {
        None
    }
}

/// The kind of message that type code `code` announces; nothing for an
/// unknown code, which the receiver ignores.
pub fn message_kind(code: u8) -> (r: Option<MessageKind>)
    ensures
        r == kind_of(code),
{
    if code == 0 {
        Some(MessageKind::Presence)
    } else if code == 1 {
        Some(MessageKind::Quality)
    } else if code == 2 {
        Some(MessageKind::Knowledge)
    } else {
        None
    }
}

/// The type code that announces a message of kind `k`.
pub fn message_code(k: MessageKind) -> (r: u8)
    ensures
        kind_of(r) == Some(k),
{
    match k {
        MessageKind::Presence => 0,
        MessageKind::Quality => 1,
        MessageKind::Knowledge => 2,
    }
}

/// A signal belongs in a message of kind `k`: a presence in a presence
/// message, a quality score in a quality message, anything else in a
/// knowledge message.
pub open spec fn fits(k: MessageKind, s: SignalModel) -> bool {
    match k {
        MessageKind::Presence => s is Presence,
        MessageKind::Quality => s is Quality,
        MessageKind::Knowledge => !(s is Presence) && !(s is Quality),
    }
}

/// Whether `signal` belongs in a message of kind `k`.
pub fn signal_fits(k: MessageKind, signal: &Signal) -> (r: bool)
    ensures
        r == fits(k, signal@),
{
    match signal {
        Signal::Presence(..) => k == MessageKind::Presence,
        Signal::Quality(..) => k == MessageKind::Quality,
        _ => k == MessageKind::Knowledge,
    }
}

/// The kind of message that carries `signal`.
pub fn signal_kind(signal: &Signal) -> (r: MessageKind)
    ensures
        fits(r, signal@),
{
    match signal {
        Signal::Presence(..) => MessageKind::Presence,
        Signal::Quality(..) => MessageKind::Quality,
        _ => MessageKind::Knowledge,
    }
}

} // verus!
