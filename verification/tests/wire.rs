use upgradable_channel::buf_to_str;
use upgradable_channel::channel_message::ChannelMessage;
use upgradable_channel::control_codec::{
    decode_channel_message, encode_channel_message, frame_channel_message, next_control_event,
};
use upgradable_channel::coordinator::Event;
use upgradable_channel::interleaved_channel::{Child, InboundEvent, LayerMessage};
use upgradable_channel::layer_codec::{
    decode_layer_message, encode_layer_message, frame_layer_message, next_inbound_event,
};
use upgradable_channel::strings::string_to_bytes;
use upgradable_channel::wire::{decode_frame, encode_frame, take_frame, Frame, MAX_FRAME_LENGTH};

#[test]
fn frame_header_is_four_bytes_big_endian() {
    let mut buffer = vec![0x00, 0x01, 0x02, 0x03];
    buffer.extend(vec![5u8; 0x0001_0203]);
    assert_eq!(decode_frame(&buffer), Frame::Complete(vec![5u8; 0x0001_0203]));
    assert_eq!(decode_frame(&buffer[..buffer.len() - 1]), Frame::Incomplete);
    assert_eq!(encode_frame(&vec![5u8; 0x0001_0203]), Some(buffer));
    assert_eq!(decode_frame(&[0xFF, 0xFF, 0xFF, 0xFF]), Frame::Oversized);
    assert_eq!(decode_frame(&[0x01, 0x00, 0x00, 0x00]), Frame::Oversized);
    assert_eq!(decode_frame(&[0x00, 0x80, 0x00, 0x01]), Frame::Oversized);
    assert_eq!(decode_frame(&[0x00, 0x80, 0x00, 0x00]), Frame::Incomplete);
}

#[test]
fn frame_is_length_then_payload() {
    assert_eq!(encode_frame(&[1, 2, 3]), Some(vec![0, 0, 0, 3, 1, 2, 3]));
    assert_eq!(encode_frame(&[]), Some(vec![0, 0, 0, 0]));
    let long = vec![7u8; 300];
    let framed = encode_frame(&long).unwrap();
    assert_eq!(&framed[..4], &[0, 0, 1, 44]);
    assert_eq!(&framed[4..], &long[..]);
}

#[test]
fn frame_of_the_largest_payload_is_accepted_and_one_more_byte_is_not() {
    let largest = vec![0u8; MAX_FRAME_LENGTH];
    let framed = encode_frame(&largest).unwrap();
    assert_eq!(framed.len(), MAX_FRAME_LENGTH + 4);
    assert_eq!(&framed[..4], &[0, 128, 0, 0]);
    assert_eq!(decode_frame(&framed), Frame::Complete(largest));

    let too_long = vec![0u8; MAX_FRAME_LENGTH + 1];
    assert_eq!(encode_frame(&too_long), None);
    assert_eq!(decode_frame(&[0, 128, 0, 1, 5, 5]), Frame::Oversized);
}

#[test]
fn decode_frame_waits_for_the_whole_frame() {
    let framed = encode_frame(&[10, 20, 30]).unwrap();
    for arrived in 0..framed.len() {
        assert_eq!(decode_frame(&framed[..arrived]), Frame::Incomplete);
    }
    assert_eq!(decode_frame(&framed), Frame::Complete(vec![10, 20, 30]));
}

#[test]
fn take_frame_removes_frames_one_by_one() {
    let mut buffer = Vec::new();
    buffer.extend(encode_frame(&[1]).unwrap());
    buffer.extend(encode_frame(&[]).unwrap());
    buffer.extend(encode_frame(&[2, 3]).unwrap());
    buffer.extend([0, 0]);
    assert_eq!(take_frame(&mut buffer), Frame::Complete(vec![1]));
    assert_eq!(take_frame(&mut buffer), Frame::Complete(vec![]));
    assert_eq!(take_frame(&mut buffer), Frame::Complete(vec![2, 3]));
    assert_eq!(buffer, vec![0, 0]);
    assert_eq!(take_frame(&mut buffer), Frame::Incomplete);
    assert_eq!(buffer, vec![0, 0]);
}

#[test]
fn take_frame_leaves_an_oversized_header_in_place() {
    let mut buffer = vec![255, 0, 0, 0, 1, 2];
    assert_eq!(take_frame(&mut buffer), Frame::Oversized);
    assert_eq!(buffer, vec![255, 0, 0, 0, 1, 2]);
}

#[test]
fn layer_payload_is_tag_then_bytes() {
    assert_eq!(encode_layer_message(&LayerMessage::Channel1(vec![5, 6])), vec![0, 5, 6]);
    assert_eq!(encode_layer_message(&LayerMessage::Channel2(vec![7])), vec![1, 7]);
    assert_eq!(encode_layer_message(&LayerMessage::Channel1(vec![])), vec![0]);
    assert_eq!(decode_layer_message(&[0, 5, 6]), Some(LayerMessage::Channel1(vec![5, 6])));
    assert_eq!(decode_layer_message(&[1]), Some(LayerMessage::Channel2(vec![])));
}

#[test]
fn layer_payload_without_a_known_tag_does_not_parse() {
    assert_eq!(decode_layer_message(&[]), None);
    assert_eq!(decode_layer_message(&[2, 1, 1]), None);
    assert_eq!(decode_layer_message(&[255]), None);
}

#[test]
fn layer_message_parts() {
    let message = LayerMessage::new(Child::Second, vec![1, 2]);
    assert_eq!(message, LayerMessage::Channel2(vec![1, 2]));
    assert_eq!(message.child(), Child::Second);
    assert_eq!(message.payload(), &vec![1, 2]);
    assert!(!message.is_shutdown());
    assert!(LayerMessage::new(Child::First, vec![]).is_shutdown());
    assert_eq!(message.into_parts(), (Child::Second, vec![1, 2]));
    assert_eq!(Child::First.other(), Child::Second);
    assert_eq!(Child::Second.other(), Child::First);
}

#[test]
fn framed_layer_message_on_the_wire() {
    let framed = frame_layer_message(&LayerMessage::Channel2(vec![9, 8])).unwrap();
    assert_eq!(framed, vec![0, 0, 0, 3, 1, 9, 8]);
    let close = frame_layer_message(&LayerMessage::Channel1(vec![])).unwrap();
    assert_eq!(close, vec![0, 0, 0, 1, 0]);
    let too_long = LayerMessage::Channel1(vec![0u8; MAX_FRAME_LENGTH]);
    assert_eq!(frame_layer_message(&too_long), None);
    let longest = LayerMessage::Channel1(vec![0u8; MAX_FRAME_LENGTH - 1]);
    assert_eq!(frame_layer_message(&longest).unwrap().len(), MAX_FRAME_LENGTH + 4);
}

#[test]
fn next_inbound_event_reads_frames_and_rejects_what_does_not_parse() {
    let mut buffer = Vec::new();
    buffer.extend(frame_layer_message(&LayerMessage::Channel1(vec![1, 2, 3])).unwrap());
    buffer.extend(frame_layer_message(&LayerMessage::Channel2(vec![])).unwrap());
    buffer.extend(encode_frame(&[7, 7]).unwrap());
    buffer.extend(encode_frame(&[]).unwrap());
    buffer.extend([0, 0, 0]);
    assert_eq!(
        next_inbound_event(&mut buffer),
        Some(InboundEvent::Frame(LayerMessage::Channel1(vec![1, 2, 3])))
    );
    assert_eq!(
        next_inbound_event(&mut buffer),
        Some(InboundEvent::Frame(LayerMessage::Channel2(vec![])))
    );
    assert_eq!(next_inbound_event(&mut buffer), Some(InboundEvent::Malformed));
    assert_eq!(next_inbound_event(&mut buffer), Some(InboundEvent::Malformed));
    assert_eq!(next_inbound_event(&mut buffer), None);
    assert_eq!(buffer, vec![0, 0, 0]);

    let mut oversized = vec![1, 0, 0, 0, 0];
    assert_eq!(next_inbound_event(&mut oversized), Some(InboundEvent::Malformed));
}

#[test]
fn control_payload_is_tag_then_length_prefixed_texts() {
    let sync = ChannelMessage::Sync("ab".to_string());
    assert_eq!(encode_channel_message(&sync), Some(vec![0, 0, 0, 0, 2, b'a', b'b']));
    let sync_ack = ChannelMessage::SyncAck("a".to_string(), "xyz".to_string());
    assert_eq!(
        encode_channel_message(&sync_ack),
        Some(vec![1, 0, 0, 0, 1, b'a', 0, 0, 0, 3, b'x', b'y', b'z'])
    );
    let ack = ChannelMessage::Ack(String::new());
    assert_eq!(encode_channel_message(&ack), Some(vec![2, 0, 0, 0, 0]));
}

#[test]
fn control_payload_carries_utf8() {
    let sync = ChannelMessage::Sync("é✓".to_string());
    let payload = encode_channel_message(&sync).unwrap();
    assert_eq!(payload, vec![0, 0, 0, 0, 5, 0xC3, 0xA9, 0xE2, 0x9C, 0x93]);
    assert_eq!(decode_channel_message(&payload), Some(sync));
}

#[test]
fn control_payload_round_trips() {
    let messages = vec![
        ChannelMessage::Sync("0123456789abcdefghijklmnopqrstuv".to_string()),
        ChannelMessage::SyncAck("first".to_string(), "second".to_string()),
        ChannelMessage::SyncAck(String::new(), String::new()),
        ChannelMessage::Ack("z".to_string()),
    ];
    for message in messages {
        let payload = encode_channel_message(&message).unwrap();
        assert_eq!(decode_channel_message(&payload), Some(message));
    }
}

#[test]
fn control_payload_that_does_not_parse_is_rejected() {
    // nothing at all
    assert_eq!(decode_channel_message(&[]), None);
    // a tag without a text
    assert_eq!(decode_channel_message(&[0]), None);
    // an unknown tag
    assert_eq!(decode_channel_message(&[3, 0, 0, 0, 0]), None);
    // a text that is cut short
    assert_eq!(decode_channel_message(&[0, 0, 0, 0, 2, b'a']), None);
    // bytes after the last text
    assert_eq!(decode_channel_message(&[0, 0, 0, 0, 1, b'a', b'b']), None);
    assert_eq!(decode_channel_message(&[2, 0, 0, 0, 0, 0]), None);
    // a text that is not UTF-8
    assert_eq!(decode_channel_message(&[0, 0, 0, 0, 1, 0xFF]), None);
    // a SyncAck with one text only
    assert_eq!(decode_channel_message(&[1, 0, 0, 0, 1, b'a']), None);
    // a SyncAck with a second text that is cut short
    assert_eq!(decode_channel_message(&[1, 0, 0, 0, 1, b'a', 0, 0, 0, 4, b'b']), None);
}

#[test]
fn framed_control_message_on_the_wire() {
    let framed = frame_channel_message(&ChannelMessage::Ack("id".to_string())).unwrap();
    assert_eq!(framed, vec![0, 0, 0, 7, 2, 0, 0, 0, 2, b'i', b'd']);
    let huge = ChannelMessage::Sync("x".repeat(MAX_FRAME_LENGTH));
    assert_eq!(frame_channel_message(&huge), None);
    let largest = ChannelMessage::Sync("x".repeat(MAX_FRAME_LENGTH - 5));
    assert_eq!(frame_channel_message(&largest).unwrap().len(), MAX_FRAME_LENGTH + 4);
}

#[test]
fn next_control_event_reads_messages_and_rejects_what_does_not_parse() {
    let mut buffer = Vec::new();
    buffer.extend(frame_channel_message(&ChannelMessage::Sync("n".to_string())).unwrap());
    buffer.extend(encode_frame(&[9]).unwrap());
    buffer.extend(
        frame_channel_message(&ChannelMessage::SyncAck("n".to_string(), "m".to_string())).unwrap(),
    );
    let partial = frame_channel_message(&ChannelMessage::Ack("m".to_string())).unwrap();
    buffer.extend(&partial[..partial.len() - 1]);

    assert_eq!(
        next_control_event(&mut buffer),
        Some(Event::Control(ChannelMessage::Sync("n".to_string())))
    );
    assert_eq!(next_control_event(&mut buffer), Some(Event::ControlMalformed));
    assert_eq!(
        next_control_event(&mut buffer),
        Some(Event::Control(ChannelMessage::SyncAck("n".to_string(), "m".to_string())))
    );
    assert_eq!(next_control_event(&mut buffer), None);
    buffer.push(*partial.last().unwrap());
    assert_eq!(
        next_control_event(&mut buffer),
        Some(Event::Control(ChannelMessage::Ack("m".to_string())))
    );
    assert!(buffer.is_empty());

    let mut oversized = vec![0, 128, 0, 1];
    assert_eq!(next_control_event(&mut oversized), Some(Event::ControlMalformed));
}

#[test]
fn text_and_bytes_convert_both_ways() {
    assert_eq!(string_to_bytes(&"héllo".to_string()), "héllo".as_bytes().to_vec());
    assert_eq!(string_to_bytes(&String::new()), Vec::<u8>::new());
    assert_eq!(buf_to_str(b"0123----"), "0123----".to_string());
    assert_eq!(buf_to_str("✓ done".as_bytes()), "✓ done".to_string());
    assert_eq!(buf_to_str(&[]), String::new());
}
