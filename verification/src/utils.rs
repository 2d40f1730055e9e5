//! The stream test harness: its options, the messages it sends, and the
//! comparisons it makes between what was sent and what was received.
use vstd::prelude::*;
use vstd::std_specs::range::RangeInclusiveView;
use vstd::utf8::encode_utf8;
use core::ops::RangeInclusive;
use crate::mocks::is_range;
use crate::random::{is_alphanumeric_text, random_between, random_text, random_text_between};
use crate::strings::string_to_bytes;

verus! {

/// A message of the stream test.
#[derive(Debug, Clone, PartialEq)]
pub enum StreamTestMessage {
    Ping(String),
    Pong(Option<String>, String),
    Data(Vec<u8>),
    Eof,
}

/// Mathematical value of a [`StreamTestMessage`].
pub enum StreamTestMessageView {
    Ping(Seq<char>),
    Pong(Option<Seq<char>>, Seq<char>),
    Data(Seq<u8>),
    Eof,
}

impl View for StreamTestMessage {
    type V = StreamTestMessageView;

    open spec fn view(&self) -> StreamTestMessageView {
        match *self {
            StreamTestMessage::Ping(id) => StreamTestMessageView::Ping(id@),
            StreamTestMessage::Pong(id, text) => StreamTestMessageView::Pong(
                match id {
                    Some(id) => Some(id@),
                    None => None,
                },
                text@,
            ),
            StreamTestMessage::Data(bytes) => StreamTestMessageView::Data(bytes@),
            StreamTestMessage::Eof => StreamTestMessageView::Eof,
        }
    }
}

/// The message that a draw stands for: the remainder of `kind` by four
/// picks the variant, the texts fill it.
pub open spec fn message_of_draw(kind: u64, first: Seq<char>, second: Seq<char>)
    -> StreamTestMessageView {
    if kind % 4 == 0 {
        StreamTestMessageView::Ping(first)
    } else if kind % 4 == 1 {
        StreamTestMessageView::Pong(Some(first), second)
    } else if kind % 4 == 2 {
        StreamTestMessageView::Data(encode_utf8(first))
    } else {
        StreamTestMessageView::Eof
    }
}

/// Whether a message is one that [`StreamTestMessage::random`] draws.
pub open spec fn is_random_message(message: StreamTestMessageView) -> bool {
    match message {
        StreamTestMessageView::Ping(id) => 16 <= id.len() <= 32 && is_alphanumeric_text(
            id,
            id.len(),
        ),
        StreamTestMessageView::Pong(id, text) => {
            &&& id is Some
            &&& is_alphanumeric_text(id->0, 32)
            &&& 32 <= text.len() <= 64
            &&& is_alphanumeric_text(text, text.len())
        },
        StreamTestMessageView::Data(bytes) => exists|text: Seq<char>|
            {
                &&& 8 <= text.len() <= 256
                &&& is_alphanumeric_text(text, text.len())
                &&& bytes == #[trigger] encode_utf8(text)
            },
        StreamTestMessageView::Eof => true,
    }
}

impl StreamTestMessage {
    /// The message that a draw stands for.
    pub fn from_draw(kind: u64, first: String, second: String) -> (message: StreamTestMessage)
        ensures
            message@ == message_of_draw(kind, first@, second@),
    {
        if kind % 4 == 0 {
            StreamTestMessage::Ping(first)
        } else if kind % 4 == 1 {
            StreamTestMessage::Pong(Some(first), second)
        } else if kind % 4 == 2 {
            StreamTestMessage::Data(string_to_bytes(&first))
        } else {
            StreamTestMessage::Eof
        }
    }

    /// A random message: one of the four variants, filled with random
    /// letters and digits of the lengths that [`is_random_message`] names.
    pub fn random() -> (message: StreamTestMessage)
        ensures
            is_random_message(message@),
    {
        let kind = random_between(0, 0xFFFF);
        if kind % 4 == 0 {
            StreamTestMessage::from_draw(kind, random_text_between(16, 32), String::new())
        } else if kind % 4 == 1 {
            StreamTestMessage::from_draw(kind, random_text(32), random_text_between(32, 64))
        } else if kind % 4 == 2 {
            StreamTestMessage::from_draw(kind, random_text_between(8, 256), String::new())
        } else {
            StreamTestMessage::from_draw(kind, String::new(), String::new())
        }
    }

    /// Whether two messages are equal.
    pub fn same_as(&self, other: &StreamTestMessage) -> (same: bool)
        ensures
            same == (self@ == other@),
    {
        match (self, other) {
            (StreamTestMessage::Ping(a), StreamTestMessage::Ping(b)) => *a == *b,
            (StreamTestMessage::Pong(a, s), StreamTestMessage::Pong(b, t)) => {
                let ids = match (a, b) {
                    (Some(a), Some(b)) => *a == *b,
                    (None, None) => true,
                    _ => false,
                };
                ids && *s == *t
            },
            (StreamTestMessage::Data(a), StreamTestMessage::Data(b)) => same_bytes(
                a.as_slice(),
                b.as_slice(),
            ),
            (StreamTestMessage::Eof, StreamTestMessage::Eof) => true,
            _ => false,
        }
    }
}

/// Whether `received` is a front piece of `sent`: what a receiver holds at
/// any moment of a transfer that loses, doubles and reorders nothing.
pub open spec fn is_prefix_of(received: Seq<u8>, sent: Seq<u8>) -> bool {
    received.len() <= sent.len() && received == sent.subrange(0, received.len() as int)
}

/// Whether `received` is a front piece of `sent`.
pub fn is_prefix(received: &[u8], sent: &[u8]) -> (prefix: bool)
    ensures
        prefix == is_prefix_of(received@, sent@),
{
    if received.len() > sent.len() {
        return false;
    }
    let mut i: usize = 0;
    while i < received.len()
        invariant
            i <= received@.len() <= sent@.len(),
            forall|j: int| 0 <= j < i ==> received@[j] == sent@[j],
        decreases received@.len() - i,
    {
        if received[i] != sent[i] {
            assert(sent@.subrange(0, received@.len() as int)[i as int] == sent@[i as int]);
            return false;
        }
        i += 1;
    }
    assert(received@ =~= sent@.subrange(0, received@.len() as int));
    true
}

/// Whether two byte strings are equal.
pub fn same_bytes(one: &[u8], other: &[u8]) -> (same: bool)
    ensures
        same == (one@ == other@),
{
    if one.len() != other.len() {
        return false;
    }
    let prefix = is_prefix(one, other);
    assert(other@.subrange(0, other@.len() as int) =~= other@);
    prefix
}

/// The values of a list of messages, in order.
pub open spec fn message_views(messages: Seq<StreamTestMessage>) -> Seq<StreamTestMessageView> {
    messages.map_values(|m: StreamTestMessage| m@)
}

/// Whether what was received is what was sent: the same messages in the
/// same order.
pub fn same_messages(sent: &Vec<StreamTestMessage>, received: &Vec<StreamTestMessage>) -> (same:
    bool)
    ensures
        same == (message_views(sent@) == message_views(received@)),
{
    if sent.len() != received.len() {
        assert(message_views(sent@).len() != message_views(received@).len());
        return false;
    }
    let mut i: usize = 0;
    while i < sent.len()
        invariant
            i <= sent@.len(),
            sent@.len() == received@.len(),
            forall|j: int| 0 <= j < i ==> sent@[j]@ == received@[j]@,
        decreases sent@.len() - i,
    {
        if !sent[i].same_as(&received[i]) {
            assert(message_views(sent@)[i as int] != message_views(received@)[i as int]);
            return false;
        }
        i += 1;
    }
    assert(message_views(sent@) =~= message_views(received@));
    true
}

/// As many random messages as asked for.
pub fn random_messages(count: u32) -> (messages: Vec<StreamTestMessage>)
    ensures
        messages@.len() == count,
        forall|i: int| 0 <= i < messages@.len() ==> is_random_message(#[trigger] messages@[i]@),
{
    let mut messages: Vec<StreamTestMessage> = Vec::new();
    let mut i: u32 = 0;
    while i < count
        invariant
            i <= count,
            messages@.len() == i,
            forall|j: int| 0 <= j < messages@.len() ==> is_random_message(#[trigger] messages@[j]@),
        decreases count - i,
    {
        messages.push(StreamTestMessage::random());
        i += 1;
    }
    messages
}

/// Options of a stream test: how many messages travel in each direction,
/// and how long the test waits, in milliseconds, before each of them.
#[derive(Debug, Clone, PartialEq)]
pub struct TestOptions {
    items_count: u32,
    throttle_range: RangeInclusive<u64>,
}

/// Mathematical value of [`TestOptions`].
pub struct TestOptionsView {
    /// Number of messages in each direction.
    pub items_count: u32,
    /// Bounds, in milliseconds, of the wait before a message.
    pub throttle_range: RangeInclusiveView<u64>,
}

impl View for TestOptions {
    type V = TestOptionsView;

    closed spec fn view(&self) -> TestOptionsView {
        TestOptionsView { items_count: self.items_count, throttle_range: self.throttle_range@ }
    }
}

impl TestOptions {
    /// The same options with other bounds of the wait, in milliseconds.
    pub fn throttle(self, throttle_range: RangeInclusive<u64>) -> (options: TestOptions)
        ensures
            options@ == (TestOptionsView { throttle_range: throttle_range@, ..self@ }),
    {
        TestOptions { items_count: self.items_count, throttle_range }
    }

    /// The same options with another number of messages.
    pub fn items_count(self, items_count: u32) -> (options: TestOptions)
        ensures
            options@ == (TestOptionsView { items_count, ..self@ }),
    {
        TestOptions { items_count, throttle_range: self.throttle_range }
    }

    /// The number of messages in each direction.
    pub fn count(&self) -> (count: u32)
        ensures
            count == self@.items_count,
    {
        self.items_count
    }

    /// The bounds of the wait, in milliseconds.
    pub fn throttle_range(&self) -> (range: &RangeInclusive<u64>)
        ensures
            range@ == self@.throttle_range,
    {
        &self.throttle_range
    }

    /// Random options: from 8 to 256 messages, and a wait of at least from
    /// 0 to 4 and at most from 5 to 49 milliseconds.
    pub fn random() -> (options: TestOptions)
        ensures
            8 <= options@.items_count <= 256,
            !options@.throttle_range.exhausted,
            options@.throttle_range.start <= 4,
            5 <= options@.throttle_range.end <= 49,
    {
        let shortest = random_between(0, 4);
        let longest = random_between(5, 49);
        TestOptions {
            items_count: random_between(8, 256) as u32,
            throttle_range: RangeInclusive::new(shortest, longest),
        }
    }
}

impl Default for TestOptions {
    /// 32 messages and no wait.
    fn default() -> (options: TestOptions)
        ensures
            options@.items_count == 32,
            is_range(options@.throttle_range, 0, 0),
    {
        TestOptions { items_count: 32, throttle_range: RangeInclusive::new(0, 0) }
    }
}

} // verus!
