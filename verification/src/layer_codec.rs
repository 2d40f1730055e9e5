//! How the divider's tagged frames look on the shared transport: one tag
//! byte that names the sub-channel, then the raw bytes of that sub-channel.
use vstd::prelude::*;
use crate::interleaved_channel::{Child, InboundEvent, InboundEventView, LayerMessage, LayerMessageView};
use crate::wire::{after_frame, encode_frame, frame, parse_frame, put_bytes, copy_range, take_frame, Frame, FrameView, MAX_FRAME_LENGTH};

verus! {

/// Tag of a frame of the first child, the data sub-channel.
pub const DATA_TAG: u8 = 0;

/// Tag of a frame of the second child, the control sub-channel.
pub const CONTROL_TAG: u8 = 1;

/// The tag that names a sub-channel.
pub open spec fn tag_of(child: Child) -> u8 {
    match child {
        Child::First => DATA_TAG,
        Child::Second => CONTROL_TAG,
    }
}

/// The payload that stands for a tagged frame.
pub open spec fn layer_payload(message: LayerMessageView) -> Seq<u8> {
    seq![tag_of(message.child())] + message.payload()
}

/// The tagged frame that a payload stands for, if it stands for one.
pub open spec fn parse_layer_payload(bytes: Seq<u8>) -> Option<LayerMessageView> {
    if bytes.len() == 0 {
        None
    } else if bytes[0] == DATA_TAG {
        Some(LayerMessageView::Channel1(bytes.subrange(1, bytes.len() as int)))
    } else if bytes[0] == CONTROL_TAG {
        Some(LayerMessageView::Channel2(bytes.subrange(1, bytes.len() as int)))
    } else {
        None
    }
}

/// Writes a tagged frame as a payload.
pub fn encode_layer_message(message: &LayerMessage) -> (bytes: Vec<u8>)
    ensures
        bytes@ == layer_payload(message@),
{
    let mut bytes: Vec<u8> = Vec::new();
    match message.child() {
        Child::First => bytes.push(DATA_TAG),
        Child::Second => bytes.push(CONTROL_TAG),
    }
    put_bytes(&mut bytes, message.payload().as_slice());
    assert(bytes@ =~= layer_payload(message@));
    bytes
}

/// Reads a payload as a tagged frame.
///
/// Answers `None` for what does not parse: an empty payload, or an unknown
/// tag.
pub fn decode_layer_message(bytes: &[u8]) -> (message: Option<LayerMessage>)
    ensures
        message is Some <==> parse_layer_payload(bytes@) is Some,
        message is Some ==> message->0@ == parse_layer_payload(bytes@)->0,
{
    if bytes.len() == 0 {
        return None;
    }
    let tag = bytes[0];
    if tag == DATA_TAG {
        Some(LayerMessage::Channel1(copy_range(bytes, 1, bytes.len())))
    } else if tag == CONTROL_TAG {
        Some(LayerMessage::Channel2(copy_range(bytes, 1, bytes.len())))
    } else {
        None
    }
}

/// Writes a tagged frame as it travels on the shared transport: its
/// payload in a length-delimited frame.
///
/// Answers `None` exactly if the payload would exceed [`MAX_FRAME_LENGTH`].
pub fn frame_layer_message(message: &LayerMessage) -> (framed: Option<Vec<u8>>)
    ensures
        framed is Some <==> message@.payload().len() < MAX_FRAME_LENGTH,
        framed is Some ==> framed->0@ == frame(layer_payload(message@)),
{
    let payload = encode_layer_message(message);
    encode_frame(payload.as_slice())
}

/// What the bytes received so far on the shared transport mean to the
/// inbound loop: nothing yet, a frame, or something that does not parse.
pub open spec fn inbound_event_of(buffer: Seq<u8>) -> Option<InboundEventView> {
    match parse_frame(buffer) {
        FrameView::Incomplete => None,
        FrameView::Oversized => Some(InboundEventView::Malformed),
        FrameView::Complete(payload) => match parse_layer_payload(payload) {
            Some(message) => Some(InboundEventView::Frame(message)),
            None => Some(InboundEventView::Malformed),
        },
    }
}

/// Takes the next event for the inbound loop off the bytes received so far.
///
/// A whole frame is removed from the buffer and reported as the tagged
/// frame it holds, or as malformed. While the frame at the front is
/// incomplete, nothing is reported and the buffer stays as it is.
pub fn next_inbound_event(buffer: &mut Vec<u8>) -> (event: Option<InboundEvent>)
    ensures
        event is Some <==> inbound_event_of(old(buffer)@) is Some,
        event is Some ==> event->0@ == inbound_event_of(old(buffer)@)->0,
        final(buffer)@ == after_frame(old(buffer)@),
{
    match take_frame(buffer) {
        Frame::Incomplete => None,
        Frame::Oversized => Some(InboundEvent::Malformed),
        Frame::Complete(payload) => match decode_layer_message(payload.as_slice()) {
            Some(message) => Some(InboundEvent::Frame(message)),
            None => Some(InboundEvent::Malformed),
        },
    }
}

/// Reading back the payload of a tagged frame gives the frame.
pub proof fn lemma_layer_payload_round_trip(message: LayerMessageView)
    ensures
        parse_layer_payload(layer_payload(message)) == Some(message),
{
    let bytes = layer_payload(message);
    assert(bytes.subrange(1, bytes.len() as int) =~= message.payload());
}

/// A payload that parses is the payload of the frame it parses to: every
/// tagged frame has one encoding only.
pub proof fn lemma_layer_payload_is_canonical(bytes: Seq<u8>)
    requires
        parse_layer_payload(bytes) is Some,
    ensures
        layer_payload(parse_layer_payload(bytes)->0) == bytes,
{
    assert(layer_payload(parse_layer_payload(bytes)->0) =~= bytes);
}

/// A tagged frame that was written to the shared transport, followed by
/// whatever was written after it, is what the receiving inbound loop sees
/// next, and the bytes after it are kept for the frames to come.
pub proof fn lemma_layer_message_crosses_the_wire(message: LayerMessageView, rest: Seq<u8>)
    requires
        message.payload().len() < MAX_FRAME_LENGTH,
    ensures
        inbound_event_of(frame(layer_payload(message)) + rest) == Some(
            InboundEventView::Frame(message),
        ),
        after_frame(frame(layer_payload(message)) + rest) == rest,
{
    crate::wire::lemma_frame_round_trip(layer_payload(message), rest);
    lemma_layer_payload_round_trip(message);
}

} // verus!
