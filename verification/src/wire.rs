//! Length-delimited framing: a four-byte big-endian length, then the payload.
//!
//! Both the divider's tagged frames and the control messages travel in this
//! framing.
use vstd::prelude::*;

verus! {

/// Length of a frame's header, in bytes.
pub const FRAME_HEADER_LENGTH: usize = 4;

/// Largest payload that a frame may carry, in bytes: 8 MiB.
pub const MAX_FRAME_LENGTH: usize = 8_388_608;

/// The four bytes that stand for `n`, most significant first.
pub open spec fn be32(n: nat) -> Seq<u8> {
    seq![
        (n / 16_777_216 % 256) as u8,
        (n / 65_536 % 256) as u8,
        (n / 256 % 256) as u8,
        (n % 256) as u8,
    ]
}

/// The number that four bytes stand for, most significant first.
pub open spec fn be32_value(bytes: Seq<u8>) -> nat
    recommends
        bytes.len() == 4,
{
    (bytes[0] as nat) * 16_777_216 + (bytes[1] as nat) * 65_536 + (bytes[2] as nat) * 256
        + bytes[3] as nat
}

/// Splitting `high * base + low` by `base` gives `high` and `low` back.
proof fn lemma_split_digits(high: int, low: int, base: int)
    requires
        0 <= low < base,
        0 <= high,
    ensures
        (high * base + low) / base == high,
        (high * base + low) % base == low,
{
    vstd::arithmetic::div_mod::lemma_fundamental_div_mod_converse(
        high * base + low,
        base,
        high,
        low,
    );
}

/// Reading back the four bytes of a number below 2^32 gives the number.
pub proof fn lemma_be32_value_of_be32(n: nat)
    requires
        n < 0x1_0000_0000,
    ensures
        be32(n).len() == 4,
        be32_value(be32(n)) == n,
{
    let b0 = n / 16_777_216;
    let b1 = n / 65_536 % 256;
    let b2 = n / 256 % 256;
    let b3 = n % 256;
    assert(n == (n / 256) * 256 + b3);
    assert(n / 256 == (n / 256 / 256) * 256 + b2);
    assert(n / 256 / 256 == n / 65_536);
    assert(n / 65_536 == (n / 65_536 / 256) * 256 + b1);
    assert(n / 65_536 / 256 == n / 16_777_216);
    assert(b0 < 256);
    assert(b0 % 256 == b0);
}

/// Four bytes are the bytes of the number they stand for.
pub proof fn lemma_be32_of_be32_value(bytes: Seq<u8>)
    requires
        bytes.len() == 4,
    ensures
        be32_value(bytes) < 0x1_0000_0000,
        be32(be32_value(bytes)) == bytes,
{
    let b0 = bytes[0] as int;
    let b1 = bytes[1] as int;
    let b2 = bytes[2] as int;
    let b3 = bytes[3] as int;
    let n = be32_value(bytes) as int;
    let top3 = b0 * 65_536 + b1 * 256 + b2;
    let top2 = b0 * 256 + b1;
    assert(n == top3 * 256 + b3);
    lemma_split_digits(top3, b3, 256);
    assert(top3 == top2 * 256 + b2);
    lemma_split_digits(top2, b2, 256);
    lemma_split_digits(b0, b1, 256);
    assert(n / 256 == top3);
    assert(n / 65_536 == n / 256 / 256);
    assert(n / 65_536 == top2);
    assert(n / 16_777_216 == n / 65_536 / 256);
    assert(n / 16_777_216 == b0);
    assert(b0 % 256 == b0);
    assert(be32(be32_value(bytes)) =~= bytes);
}

/// The frame that carries `payload`.
pub open spec fn frame(payload: Seq<u8>) -> Seq<u8> {
    be32(payload.len()) + payload
}

/// What the front of a receive buffer holds.
pub enum FrameView {
    /// Not yet a whole frame: more bytes are needed.
    Incomplete,
    /// A header that announces more than [`MAX_FRAME_LENGTH`] bytes.
    Oversized,
    /// A whole frame with this payload.
    Complete(Seq<u8>),
}

/// What the front of `buffer` holds.
pub open spec fn parse_frame(buffer: Seq<u8>) -> FrameView {
    if buffer.len() < FRAME_HEADER_LENGTH {
        FrameView::Incomplete
    } else {
        let announced = be32_value(buffer.subrange(0, FRAME_HEADER_LENGTH as int));
        if announced > MAX_FRAME_LENGTH {
            FrameView::Oversized
        } else if buffer.len() < FRAME_HEADER_LENGTH + announced {
            FrameView::Incomplete
        } else {
            FrameView::Complete(
                buffer.subrange(FRAME_HEADER_LENGTH as int, FRAME_HEADER_LENGTH + announced),
            )
        }
    }
}

/// What is left of `buffer` once its first frame was taken off.
pub open spec fn after_frame(buffer: Seq<u8>) -> Seq<u8> {
    match parse_frame(buffer) {
        FrameView::Complete(payload) => buffer.subrange(
            FRAME_HEADER_LENGTH + payload.len(),
            buffer.len() as int,
        ),
        _ => buffer,
    }
}

/// What the front of a receive buffer holds.
#[derive(Debug, Clone, PartialEq, Eq)]
pub enum Frame {
    /// Not yet a whole frame: more bytes are needed.
    Incomplete,
    /// A header that announces more than [`MAX_FRAME_LENGTH`] bytes.
    Oversized,
    /// A whole frame with this payload.
    Complete(Vec<u8>),
}

impl View for Frame {
    type V = FrameView;

    open spec fn view(&self) -> FrameView {
        match *self {
            Frame::Incomplete => FrameView::Incomplete,
            Frame::Oversized => FrameView::Oversized,
            Frame::Complete(payload) => FrameView::Complete(payload@),
        }
    }
}

/// Appends the four bytes of `n`, most significant first.
pub(crate) fn put_length(out: &mut Vec<u8>, n: u32)
    ensures
        final(out)@ == old(out)@ + be32(n as nat),
{
    out.push((n / 16_777_216) as u8);
    out.push((n / 65_536 % 256) as u8);
    out.push((n / 256 % 256) as u8);
    out.push((n % 256) as u8);
    assert(out@ =~= old(out)@ + be32(n as nat));
}

/// Reads the number that the four bytes from `at` on stand for.
pub(crate) fn read_length(bytes: &[u8], at: usize) -> (n: u32)
    requires
        at + 4 <= bytes@.len(),
    ensures
        n == be32_value(bytes@.subrange(at as int, at + 4)),
{
    let b0: u32 = bytes[at] as u32;
    let b1: u32 = bytes[at + 1] as u32;
    let b2: u32 = bytes[at + 2] as u32;
    let b3: u32 = bytes[at + 3] as u32;
    b0 * 16_777_216 + b1 * 65_536 + b2 * 256 + b3
}

/// Appends a copy of `bytes`.
pub(crate) fn put_bytes(out: &mut Vec<u8>, bytes: &[u8])
    ensures
        final(out)@ == old(out)@ + bytes@,
{
    let mut copy = vstd::slice::slice_to_vec(bytes);
    out.append(&mut copy);
}

/// Copies the bytes from `from` up to `to` into a vector of their own.
pub(crate) fn copy_range(bytes: &[u8], from: usize, to: usize) -> (copy: Vec<u8>)
    requires
        from <= to <= bytes@.len(),
    ensures
        copy@ == bytes@.subrange(from as int, to as int),
{
    vstd::slice::slice_to_vec(vstd::slice::slice_subrange(bytes, from, to))
}

/// Puts a payload into a frame.
///
/// Answers `None` exactly if the payload is longer than
/// [`MAX_FRAME_LENGTH`]; otherwise the frame is [`frame`] of the payload.
pub fn encode_frame(payload: &[u8]) -> (framed: Option<Vec<u8>>)
    ensures
        framed is Some <==> payload@.len() <= MAX_FRAME_LENGTH,
        framed is Some ==> framed->0@ == frame(payload@),
{
    if payload.len() > MAX_FRAME_LENGTH {
        return None;
    }
    let mut framed: Vec<u8> = Vec::new();
    put_length(&mut framed, payload.len() as u32);
    put_bytes(&mut framed, payload);
    assert(framed@ =~= frame(payload@));
    Some(framed)
}

/// Looks at the front of a receive buffer without changing it.
pub fn decode_frame(buffer: &[u8]) -> (front: Frame)
    ensures
        front@ == parse_frame(buffer@),
{
    if buffer.len() < FRAME_HEADER_LENGTH {
        return Frame::Incomplete;
    }
    let announced = read_length(buffer, 0) as usize;
    if announced > MAX_FRAME_LENGTH {
        return Frame::Oversized;
    }
    if buffer.len() - FRAME_HEADER_LENGTH < announced {
        return Frame::Incomplete;
    }
    Frame::Complete(copy_range(buffer, FRAME_HEADER_LENGTH, FRAME_HEADER_LENGTH + announced))
}

/// Takes the first frame off a receive buffer.
///
/// Where the buffer starts with a whole frame, the frame's payload is
/// returned and the buffer keeps what followed the frame. Otherwise the
/// buffer is left as it was.
pub fn take_frame(buffer: &mut Vec<u8>) -> (front: Frame)
    ensures
        front@ == parse_frame(old(buffer)@),
        final(buffer)@ == after_frame(old(buffer)@),
{
    let front = decode_frame(buffer.as_slice());
    match &front {
        Frame::Complete(payload) => {
            let mut rest = buffer.split_off(FRAME_HEADER_LENGTH + payload.len());
            buffer.clear();
            buffer.append(&mut rest);
            assert(buffer@ =~= after_frame(old(buffer)@));
        },
        _ => {},
    }
    front
}

/// A buffer that starts with the frame of a payload of allowed length holds
/// that payload at its front, and what follows the frame is left behind:
/// frames written back to back come out one by one, in order.
pub proof fn lemma_frame_round_trip(payload: Seq<u8>, rest: Seq<u8>)
    requires
        payload.len() <= MAX_FRAME_LENGTH,
    ensures
        parse_frame(frame(payload) + rest) == FrameView::Complete(payload),
        after_frame(frame(payload) + rest) == rest,
{
    let buffer = frame(payload) + rest;
    lemma_be32_value_of_be32(payload.len());
    assert(buffer.subrange(0, FRAME_HEADER_LENGTH as int) =~= be32(payload.len()));
    assert(buffer.subrange(FRAME_HEADER_LENGTH as int, FRAME_HEADER_LENGTH + payload.len())
        =~= payload);
    assert(buffer.subrange(FRAME_HEADER_LENGTH + payload.len(), buffer.len() as int) =~= rest);
}

/// A buffer whose front is a whole frame is that frame followed by the rest:
/// every payload has one framing only.
pub proof fn lemma_complete_frame_is_canonical(buffer: Seq<u8>)
    requires
        parse_frame(buffer) is Complete,
    ensures
        buffer == frame(parse_frame(buffer)->Complete_0) + after_frame(buffer),
        parse_frame(buffer)->Complete_0.len() <= MAX_FRAME_LENGTH,
{
    let header = buffer.subrange(0, FRAME_HEADER_LENGTH as int);
    lemma_be32_of_be32_value(header);
    assert(buffer =~= frame(parse_frame(buffer)->Complete_0) + after_frame(buffer));
}

/// A frame that has not arrived in full is reported as incomplete: no
/// payload is handed out before its last byte is there.
pub proof fn lemma_partial_frame_is_incomplete(payload: Seq<u8>, arrived: int)
    requires
        payload.len() <= MAX_FRAME_LENGTH,
        0 <= arrived < frame(payload).len(),
    ensures
        parse_frame(frame(payload).subrange(0, arrived)) == FrameView::Incomplete,
{
    let part = frame(payload).subrange(0, arrived);
    lemma_be32_value_of_be32(payload.len());
    if arrived >= FRAME_HEADER_LENGTH {
        assert(part.subrange(0, FRAME_HEADER_LENGTH as int) =~= be32(payload.len()));
    }
}

/// The bytes of frames written back to back, one for each payload, in order.
pub open spec fn frames(payloads: Seq<Seq<u8>>) -> Seq<u8>
    decreases payloads.len(),
{
    if payloads.len() == 0 {
        Seq::empty()
    } else {
        frame(payloads.first()) + frames(payloads.drop_first())
    }
}

/// What is left of `buffer` once its first `count` frames were taken off.
pub open spec fn after_frames(buffer: Seq<u8>, count: nat) -> Seq<u8>
    decreases count,
{
    if count == 0 {
        buffer
    } else {
        after_frames(after_frame(buffer), (count - 1) as nat)
    }
}

/// A stream of frames comes apart into its payloads, in order: after the
/// first `index` frames were taken off, the front of the stream holds the
/// payload at `index`, and after all of them what followed the stream is
/// left. This holds however the payloads are sized, up to the allowed
/// length.
pub proof fn lemma_frames_come_apart_in_order(payloads: Seq<Seq<u8>>, rest: Seq<u8>, index: int)
    requires
        forall|i: int| 0 <= i < payloads.len() ==> (#[trigger] payloads[i]).len() <= MAX_FRAME_LENGTH,
        0 <= index <= payloads.len(),
    ensures
        index < payloads.len() ==> parse_frame(after_frames(frames(payloads) + rest, index as nat))
            == FrameView::Complete(payloads[index]),
        index == payloads.len() ==> after_frames(frames(payloads) + rest, index as nat) == rest,
    decreases payloads.len(),
{
    let stream = frames(payloads) + rest;
    if payloads.len() == 0 {
        assert(stream =~= rest);
    } else {
        let later = payloads.drop_first();
        assert(stream =~= frame(payloads.first()) + (frames(later) + rest));
        lemma_frame_round_trip(payloads.first(), frames(later) + rest);
        if index > 0 {
            assert forall|i: int| 0 <= i < later.len() implies (#[trigger] later[i]).len()
                <= MAX_FRAME_LENGTH by {
                assert(later[i] == payloads[i + 1]);
            }
            lemma_frames_come_apart_in_order(later, rest, index - 1);
        }
    }
}

} // verus!
