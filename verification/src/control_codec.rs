//! How control messages look on the control sub-channel: one tag byte, then
//! one or two texts, each as a four-byte big-endian length and its UTF-8
//! bytes.
use vstd::prelude::*;
use vstd::utf8::{decode_utf8, encode_utf8, valid_utf8};
use crate::channel_message::{ChannelMessage, ChannelMessageView};
use crate::coordinator::{Event, EventView};
use crate::strings::{string_from_utf8, string_to_bytes};
use crate::wire::{after_frame, be32, be32_value, copy_range, encode_frame, frame, parse_frame, put_length, read_length, take_frame, Frame, FrameView, MAX_FRAME_LENGTH};

verus! {

/// Tag of `Sync`.
pub const SYNC_TAG: u8 = 0;

/// Tag of `SyncAck`.
pub const SYNC_ACK_TAG: u8 = 1;

/// Tag of `Ack`.
pub const ACK_TAG: u8 = 2;

/// Largest number of UTF-8 bytes that a text of a control message may have.
pub const MAX_TEXT_LENGTH: usize = 0xFFFF_FFFF;

/// The bytes that stand for a text: the length of its UTF-8 encoding, then
/// the encoding.
pub open spec fn text_field(text: Seq<char>) -> Seq<u8> {
    be32(encode_utf8(text).len()) + encode_utf8(text)
}

/// The text at the front of `bytes` and the bytes that follow it, if the
/// front holds a text.
pub open spec fn parse_text_field(bytes: Seq<u8>) -> Option<(Seq<char>, Seq<u8>)> {
    if bytes.len() < 4 {
        None
    } else {
        let announced = be32_value(bytes.subrange(0, 4));
        if bytes.len() < 4 + announced {
            None
        } else {
            let raw = bytes.subrange(4, 4 + announced as int);
            if valid_utf8(raw) {
                Some((decode_utf8(raw), bytes.subrange(4 + announced as int, bytes.len() as int)))
            } else {
                None
            }
        }
    }
}

/// The payload that stands for a control message.
pub open spec fn control_payload(message: ChannelMessageView) -> Seq<u8> {
    match message {
        ChannelMessageView::Sync(id) => seq![SYNC_TAG] + text_field(id),
        ChannelMessageView::SyncAck(returned, id) => seq![SYNC_ACK_TAG] + text_field(returned)
            + text_field(id),
        ChannelMessageView::Ack(returned) => seq![ACK_TAG] + text_field(returned),
    }
}

/// The control message that a payload stands for, if it stands for one:
/// a known tag, the texts that the tag calls for, and nothing after them.
pub open spec fn parse_control_payload(bytes: Seq<u8>) -> Option<ChannelMessageView> {
    if bytes.len() == 0 {
        None
    } else {
        let body = bytes.subrange(1, bytes.len() as int);
        match parse_text_field(body) {
            None => None,
            Some((first, rest)) => if bytes[0] == SYNC_TAG {
                if rest.len() == 0 {
                    Some(ChannelMessageView::Sync(first))
                } else {
                    None
                }
            } else if bytes[0] == ACK_TAG {
                if rest.len() == 0 {
                    Some(ChannelMessageView::Ack(first))
                } else {
                    None
                }
            } else if bytes[0] == SYNC_ACK_TAG {
                match parse_text_field(rest) {
                    Some((second, end)) => if end.len() == 0 {
                        Some(ChannelMessageView::SyncAck(first, second))
                    } else {
                        None
                    },
                    None => None,
                }
            } else {
                None
            },
        }
    }
}

/// Whether every text of the message fits a text field.
pub open spec fn fits_text_fields(message: ChannelMessageView) -> bool {
    match message {
        ChannelMessageView::Sync(id) => encode_utf8(id).len() <= MAX_TEXT_LENGTH,
        ChannelMessageView::SyncAck(returned, id) => encode_utf8(returned).len() <= MAX_TEXT_LENGTH
            && encode_utf8(id).len() <= MAX_TEXT_LENGTH,
        ChannelMessageView::Ack(returned) => encode_utf8(returned).len() <= MAX_TEXT_LENGTH,
    }
}

/// Appends a text as length and UTF-8 bytes; answers whether the text fits.
/// A text that does not fit leaves the output as it was.
fn put_text(out: &mut Vec<u8>, text: &String) -> (fitted: bool)
    ensures
        fitted == (encode_utf8(text@).len() <= MAX_TEXT_LENGTH),
        fitted ==> final(out)@ == old(out)@ + text_field(text@),
        !fitted ==> final(out)@ == old(out)@,
{
    let mut raw = string_to_bytes(text);
    if raw.len() > MAX_TEXT_LENGTH {
        return false;
    }
    put_length(out, raw.len() as u32);
    out.append(&mut raw);
    assert(out@ =~= old(out)@ + text_field(text@));
    true
}

/// Reads the text that starts at `at`; answers the text and the place where
/// it ends.
fn read_text(bytes: &[u8], at: usize) -> (found: Option<(String, usize)>)
    requires
        at <= bytes@.len(),
    ensures
        found is Some <==> parse_text_field(bytes@.subrange(at as int, bytes@.len() as int))
            is Some,
        found is Some ==> {
            let (text, rest) = parse_text_field(
                bytes@.subrange(at as int, bytes@.len() as int),
            )->0;
            &&& (found->0).0@ == text
            &&& at <= (found->0).1 <= bytes@.len()
            &&& rest == bytes@.subrange((found->0).1 as int, bytes@.len() as int)
        },
{
    let ghost tail = bytes@.subrange(at as int, bytes@.len() as int);
    if bytes.len() - at < 4 {
        return None;
    }
    assert(tail.subrange(0, 4) =~= bytes@.subrange(at as int, at + 4));
    let announced = read_length(bytes, at) as usize;
    if bytes.len() - at - 4 < announced {
        return None;
    }
    let start = at + 4;
    let end = start + announced;
    assert(tail.subrange(4, 4 + announced) =~= bytes@.subrange(start as int, end as int));
    assert(tail.subrange(4 + announced, tail.len() as int) =~= bytes@.subrange(
        end as int,
        bytes@.len() as int,
    ));
    match string_from_utf8(copy_range(bytes, start, end)) {
        Some(text) => Some((text, end)),
        None => None,
    }
}

/// Writes a control message as a payload.
///
/// Answers `None` exactly if one of its texts has more than
/// [`MAX_TEXT_LENGTH`] UTF-8 bytes.
pub fn encode_channel_message(message: &ChannelMessage) -> (bytes: Option<Vec<u8>>)
    ensures
        bytes is Some <==> fits_text_fields(message@),
        bytes is Some ==> bytes->0@ == control_payload(message@),
{
    let mut bytes: Vec<u8> = Vec::new();
    let fitted = match message {
        ChannelMessage::Sync(id) => {
            bytes.push(SYNC_TAG);
            put_text(&mut bytes, id)
        },
        ChannelMessage::SyncAck(returned, id) => {
            bytes.push(SYNC_ACK_TAG);
            put_text(&mut bytes, returned) && put_text(&mut bytes, id)
        },
        ChannelMessage::Ack(returned) => {
            bytes.push(ACK_TAG);
            put_text(&mut bytes, returned)
        },
    };
    if fitted {
        assert(bytes@ =~= control_payload(message@));
        Some(bytes)
    } else {
        None
    }
}

/// Reads a payload as a control message.
///
/// Answers `None` for what does not parse: an empty payload, an unknown
/// tag, a text that is cut short or is not UTF-8, or bytes after the last
/// text.
pub fn decode_channel_message(bytes: &[u8]) -> (message: Option<ChannelMessage>)
    ensures
        message is Some <==> parse_control_payload(bytes@) is Some,
        message is Some ==> message->0@ == parse_control_payload(bytes@)->0,
{
    if bytes.len() == 0 {
        return None;
    }
    let tag = bytes[0];
    let (first, at) = match read_text(bytes, 1) {
        Some(found) => found,
        None => {
            return None;
        },
    };
    if tag == SYNC_TAG {
        if at == bytes.len() {
            Some(ChannelMessage::Sync(first))
        } else {
            None
        }
    } else if tag == ACK_TAG {
        if at == bytes.len() {
            Some(ChannelMessage::Ack(first))
        } else {
            None
        }
    } else if tag == SYNC_ACK_TAG {
        match read_text(bytes, at) {
            Some((second, end)) => if end == bytes.len() {
                Some(ChannelMessage::SyncAck(first, second))
            } else {
                None
            },
            None => None,
        }
    } else {
        None
    }
}

/// Writes a control message as it travels on the control sub-channel: its
/// payload in a length-delimited frame.
///
/// Answers `None` exactly if a text does not fit its field or the payload
/// would exceed [`MAX_FRAME_LENGTH`].
pub fn frame_channel_message(message: &ChannelMessage) -> (framed: Option<Vec<u8>>)
    ensures
        framed is Some <==> fits_text_fields(message@) && control_payload(message@).len()
            <= MAX_FRAME_LENGTH,
        framed is Some ==> framed->0@ == frame(control_payload(message@)),
{
    match encode_channel_message(message) {
        Some(payload) => encode_frame(payload.as_slice()),
        None => None,
    }
}

/// What the bytes received so far on the control sub-channel mean to the
/// coordinator: nothing yet, a control message, or something that does not
/// parse.
pub open spec fn control_event_of(buffer: Seq<u8>) -> Option<EventView> {
    match parse_frame(buffer) {
        FrameView::Incomplete => None,
        FrameView::Oversized => Some(EventView::ControlMalformed),
        FrameView::Complete(payload) => match parse_control_payload(payload) {
            Some(message) => Some(EventView::Control(message)),
            None => Some(EventView::ControlMalformed),
        },
    }
}

/// Takes the next event for the coordinator off the bytes received so far
/// on the control sub-channel.
///
/// A whole frame is removed from the buffer and reported as the control
/// message it holds, or as malformed. While the frame at the front is
/// incomplete, nothing is reported and the buffer stays as it is.
pub fn next_control_event(buffer: &mut Vec<u8>) -> (event: Option<Event>)
    ensures
        event is Some <==> control_event_of(old(buffer)@) is Some,
        event is Some ==> event->0@ == control_event_of(old(buffer)@)->0,
        final(buffer)@ == after_frame(old(buffer)@),
{
    match take_frame(buffer) {
        Frame::Incomplete => None,
        Frame::Oversized => Some(Event::ControlMalformed),
        Frame::Complete(payload) => match decode_channel_message(payload.as_slice()) {
            Some(message) => Some(Event::Control(message)),
            None => Some(Event::ControlMalformed),
        },
    }
}

/// Reading back a text field gives the text and what followed the field.
pub proof fn lemma_text_field_round_trip(text: Seq<char>, rest: Seq<u8>)
    requires
        encode_utf8(text).len() <= MAX_TEXT_LENGTH,
    ensures
        parse_text_field(text_field(text) + rest) == Some((text, rest)),
{
    broadcast use vstd::utf8::encode_utf8_valid_utf8, vstd::utf8::encode_utf8_decode_utf8;

    let raw = encode_utf8(text);
    let bytes = text_field(text) + rest;
    crate::wire::lemma_be32_value_of_be32(raw.len());
    assert(bytes.subrange(0, 4) =~= be32(raw.len()));
    assert(bytes.subrange(4, 4 + raw.len() as int) =~= raw);
    assert(bytes.subrange(4 + raw.len() as int, bytes.len() as int) =~= rest);
}

/// Bytes whose front holds a text are the field of that text, followed by
/// the rest.
pub proof fn lemma_text_field_is_canonical(bytes: Seq<u8>)
    requires
        parse_text_field(bytes) is Some,
    ensures
        bytes == text_field((parse_text_field(bytes)->0).0) + (parse_text_field(bytes)->0).1,
        encode_utf8((parse_text_field(bytes)->0).0).len() <= MAX_TEXT_LENGTH,
{
    broadcast use vstd::utf8::decode_utf8_encode_utf8;

    let header = bytes.subrange(0, 4);
    let announced = be32_value(header);
    let raw = bytes.subrange(4, 4 + announced as int);
    crate::wire::lemma_be32_of_be32_value(header);
    assert(encode_utf8(decode_utf8(raw)) == raw);
    assert(bytes =~= text_field(decode_utf8(raw)) + bytes.subrange(
        4 + announced as int,
        bytes.len() as int,
    ));
}

/// Reading back the payload of a control message gives the message.
pub proof fn lemma_control_payload_round_trip(message: ChannelMessageView)
    requires
        fits_text_fields(message),
    ensures
        parse_control_payload(control_payload(message)) == Some(message),
{
    let bytes = control_payload(message);
    let body = bytes.subrange(1, bytes.len() as int);
    let none = Seq::<u8>::empty();
    match message {
        ChannelMessageView::Sync(id) => {
            assert(body =~= text_field(id) + none);
            lemma_text_field_round_trip(id, none);
        },
        ChannelMessageView::SyncAck(returned, id) => {
            assert(body =~= text_field(returned) + text_field(id));
            lemma_text_field_round_trip(returned, text_field(id));
            assert(text_field(id) =~= text_field(id) + none);
            lemma_text_field_round_trip(id, none);
        },
        ChannelMessageView::Ack(returned) => {
            assert(body =~= text_field(returned) + none);
            lemma_text_field_round_trip(returned, none);
        },
    }
}

/// A payload that parses is the payload of the message it parses to: every
/// control message has one encoding only.
pub proof fn lemma_control_payload_is_canonical(bytes: Seq<u8>)
    requires
        parse_control_payload(bytes) is Some,
    ensures
        control_payload(parse_control_payload(bytes)->0) == bytes,
        fits_text_fields(parse_control_payload(bytes)->0),
{
    let body = bytes.subrange(1, bytes.len() as int);
    lemma_text_field_is_canonical(body);
    let (first, rest) = parse_text_field(body)->0;
    assert(bytes =~= seq![bytes[0]] + body);
    if bytes[0] == SYNC_ACK_TAG {
        lemma_text_field_is_canonical(rest);
        let (second, end) = parse_text_field(rest)->0;
        assert(end =~= Seq::<u8>::empty());
        assert(rest =~= text_field(second));
        assert(bytes =~= seq![SYNC_ACK_TAG] + text_field(first) + text_field(second));
    } else {
        assert(rest =~= Seq::<u8>::empty());
        assert(body =~= text_field(first));
    }
}

/// A control message that was written to the control sub-channel, followed
/// by whatever was written after it, is what the receiving coordinator sees
/// next, and the bytes after it are kept for the messages to come.
pub proof fn lemma_channel_message_crosses_the_wire(message: ChannelMessageView, rest: Seq<u8>)
    requires
        fits_text_fields(message),
        control_payload(message).len() <= MAX_FRAME_LENGTH,
    ensures
        control_event_of(frame(control_payload(message)) + rest) == Some(
            EventView::Control(message),
        ),
        after_frame(frame(control_payload(message)) + rest) == rest,
{
    crate::wire::lemma_frame_round_trip(control_payload(message), rest);
    lemma_control_payload_round_trip(message);
}

} // verus!
