//! The three control messages of the upgrade handshake.
use vstd::prelude::*;

verus! {

/// A handshake message exchanged over the control sub-channel.
///
/// Every identifier is the nonce of the endpoint named in the variant's
/// description; nonces tie an acknowledgement to the instance that asked for it.
#[derive(Debug, Clone, PartialEq, Eq)]
pub enum ChannelMessage {
    /// "I am ready to upgrade"; carries the sender's nonce.
    Sync(String),
    /// "I saw your `Sync`"; carries the nonce being acknowledged, then the
    /// sender's own nonce.
    SyncAck(String, String),
    /// "I saw your `SyncAck`"; carries the nonce being acknowledged.
    Ack(String),
}

/// Mathematical value of a [`ChannelMessage`]: the same variants over
/// character sequences.
pub enum ChannelMessageView {
    Sync(Seq<char>),
    SyncAck(Seq<char>, Seq<char>),
    Ack(Seq<char>),
}

impl View for ChannelMessage {
    type V = ChannelMessageView;

    open spec fn view(&self) -> ChannelMessageView {
        match *self {
            ChannelMessage::Sync(id) => ChannelMessageView::Sync(id@),
            ChannelMessage::SyncAck(returned, id) => ChannelMessageView::SyncAck(returned@, id@),
            ChannelMessage::Ack(returned) => ChannelMessageView::Ack(returned@),
        }
    }
}

} // verus!
