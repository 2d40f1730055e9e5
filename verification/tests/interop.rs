//! The framing of this library against the length-delimited codec of
//! tokio-util in its default configuration: both write and read the same
//! bytes.
use bytes::{Bytes, BytesMut};
use tokio_util::codec::{Decoder, Encoder, LengthDelimitedCodec};
use upgradable_channel::channel_message::ChannelMessage;
use upgradable_channel::control_codec::{decode_channel_message, frame_channel_message};
use upgradable_channel::interleaved_channel::LayerMessage;
use upgradable_channel::layer_codec::{decode_layer_message, frame_layer_message};
use upgradable_channel::wire::{decode_frame, encode_frame, take_frame, Frame, MAX_FRAME_LENGTH};

fn payloads() -> Vec<Vec<u8>> {
    vec![
        vec![],
        vec![0],
        vec![1, 2, 3],
        (0..=255u8).collect(),
        vec![7; 1_024],
        vec![9; 70_000],
    ]
}

#[test]
fn frames_are_those_of_the_length_delimited_codec() {
    let mut codec = LengthDelimitedCodec::new();
    assert_eq!(codec.max_frame_length(), MAX_FRAME_LENGTH);
    for payload in payloads() {
        let mut written = BytesMut::new();
        codec.encode(Bytes::from(payload.clone()), &mut written).unwrap();
        assert_eq!(encode_frame(&payload), Some(written.to_vec()));
    }
}

#[test]
fn length_delimited_codec_reads_our_frames() {
    let mut codec = LengthDelimitedCodec::new();
    let mut stream = BytesMut::new();
    for payload in payloads() {
        stream.extend_from_slice(&encode_frame(&payload).unwrap());
    }
    for payload in payloads() {
        let frame = codec.decode(&mut stream).unwrap().unwrap();
        assert_eq!(frame.to_vec(), payload);
    }
    assert!(codec.decode(&mut stream).unwrap().is_none());
}

#[test]
fn we_read_the_frames_of_the_length_delimited_codec() {
    let mut codec = LengthDelimitedCodec::new();
    let mut written = BytesMut::new();
    for payload in payloads() {
        codec.encode(Bytes::from(payload), &mut written).unwrap();
    }
    let mut buffer = written.to_vec();
    for payload in payloads() {
        assert_eq!(decode_frame(&buffer), Frame::Complete(payload.clone()));
        assert_eq!(take_frame(&mut buffer), Frame::Complete(payload));
    }
    assert!(buffer.is_empty());
    assert_eq!(take_frame(&mut buffer), Frame::Incomplete);
}

#[test]
fn both_wait_for_a_whole_frame_and_refuse_an_oversized_one() {
    let framed = encode_frame(&[1, 2, 3, 4, 5]).unwrap();
    for arrived in 0..framed.len() {
        let mut codec = LengthDelimitedCodec::new();
        let mut partial = BytesMut::from(&framed[..arrived]);
        assert!(codec.decode(&mut partial).unwrap().is_none());
        assert_eq!(decode_frame(&framed[..arrived]), Frame::Incomplete);
    }
    let oversized = [0u8, 128, 0, 1, 0, 0];
    let mut codec = LengthDelimitedCodec::new();
    assert!(codec.decode(&mut BytesMut::from(&oversized[..])).is_err());
    assert_eq!(decode_frame(&oversized), Frame::Oversized);

    let mut codec = LengthDelimitedCodec::new();
    let too_long = Bytes::from(vec![0u8; MAX_FRAME_LENGTH + 1]);
    assert!(codec.encode(too_long, &mut BytesMut::new()).is_err());
    assert_eq!(encode_frame(&vec![0u8; MAX_FRAME_LENGTH + 1]), None);
}

#[test]
fn messages_travel_through_the_length_delimited_codec() {
    let mut codec = LengthDelimitedCodec::new();
    let mut stream = BytesMut::new();
    let control = ChannelMessage::SyncAck("theirs".to_string(), "ours".to_string());
    let layer = LayerMessage::Channel2(vec![4, 5, 6]);
    stream.extend_from_slice(&frame_channel_message(&control).unwrap());
    stream.extend_from_slice(&frame_layer_message(&layer).unwrap());
    let first = codec.decode(&mut stream).unwrap().unwrap();
    assert_eq!(decode_channel_message(&first), Some(control));
    let second = codec.decode(&mut stream).unwrap().unwrap();
    assert_eq!(decode_layer_message(&second), Some(layer));
}
