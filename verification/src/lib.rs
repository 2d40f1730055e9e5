//! Building blocks of an upgradable duplex channel: the wire formats shared by
//! both endpoints, the decisions of the divider's forwarder, the handshake of
//! the upgrade coordinator and the read/write dispatch of the stream facade.
//!
//! Every function here works on plain values; the surrounding program performs
//! the reads, writes and wake-ups that the returned actions ask for.
use vstd::prelude::*;

pub mod channel;
pub mod channel_message;
pub mod control_codec;
pub mod coordinator;
pub mod error;
pub mod forwarder_laws;
pub mod handshake_laws;
pub mod interleaved_channel;
pub mod layer_codec;
pub mod mocks;
pub mod random;
pub mod stream_laws;
pub mod strings;
pub mod transfer_text;
pub mod utils;
pub mod wire;

verus! {

/// Renders a received buffer as text.
///
/// The buffer has to hold well-formed UTF-8; the text is its decoding.
pub fn buf_to_str(buf: &[u8]) -> (text: String)
    requires
        vstd::utf8::valid_utf8(buf@),
    ensures
        text@ == vstd::utf8::decode_utf8(buf@),
{
    let owned = vstd::slice::slice_to_vec(buf);
    match strings::string_from_utf8(owned) {
        Some(text) => text,
        None => vstd::pervasive::unreached(),
    }
}

} // verus!
