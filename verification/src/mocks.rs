//! Options of the mock transport that stands in for a real connection.
use vstd::prelude::*;
use vstd::std_specs::range::RangeInclusiveView;
use vstd::string::StringExecFns;
use core::ops::RangeInclusive;
use crate::random::{is_alphanumeric_text, random_between, random_text};

verus! {

/// `Clone::clone` of the standard library's `RangeInclusive`.
///
/// Trusted, with nothing claimed of the copy: the derived `Clone` of the
/// option types calls it.
pub assume_specification<Idx: Clone>[ <RangeInclusive<Idx> as Clone>::clone ](
    range: &RangeInclusive<Idx>,
) -> (copy: RangeInclusive<Idx>)
;

/// Length of the random part of a mock transport's default label.
pub const LABEL_SUFFIX_LENGTH: usize = 8;

/// How a mock transport identifies itself and how much it delays its reads
/// and writes.
#[derive(Debug, Clone, PartialEq)]
pub struct ChannelMockOptions {
    id: u16,
    label: String,
    throttle_range: RangeInclusive<u64>,
}

/// Mathematical value of [`ChannelMockOptions`].
pub struct ChannelMockOptionsView {
    /// Identifier of the transport.
    pub id: u16,
    /// Label of the transport.
    pub label: Seq<char>,
    /// Bounds, in milliseconds, of the delay before a read or a write.
    pub throttle_range: RangeInclusiveView<u64>,
}

impl View for ChannelMockOptions {
    type V = ChannelMockOptionsView;

    closed spec fn view(&self) -> ChannelMockOptionsView {
        ChannelMockOptionsView {
            id: self.id,
            label: self.label@,
            throttle_range: self.throttle_range@,
        }
    }
}

/// Whether a label is the default one: the fixed prefix, then
/// [`LABEL_SUFFIX_LENGTH`] letters and digits.
pub open spec fn is_default_label(label: Seq<char>) -> bool {
    &&& label.len() == "channel-mock-"@.len() + LABEL_SUFFIX_LENGTH
    &&& label.subrange(0, "channel-mock-"@.len() as int) == "channel-mock-"@
    &&& is_alphanumeric_text(
        label.subrange("channel-mock-"@.len() as int, label.len() as int),
        LABEL_SUFFIX_LENGTH as nat,
    )
}

/// Whether a range is the one from `start` to `end`, both included.
pub open spec fn is_range(range: RangeInclusiveView<u64>, start: u64, end: u64) -> bool {
    range.start == start && range.end == end && !range.exhausted
}

impl ChannelMockOptions {
    /// The same options with another identifier.
    pub fn id(self, id: u16) -> (options: ChannelMockOptions)
        ensures
            options@ == (ChannelMockOptionsView { id, ..self@ }),
    {
        ChannelMockOptions { id, label: self.label, throttle_range: self.throttle_range }
    }

    /// The same options with another label.
    pub fn label(self, label: &str) -> (options: ChannelMockOptions)
        ensures
            options@ == (ChannelMockOptionsView { label: label@, ..self@ }),
    {
        ChannelMockOptions {
            id: self.id,
            label: String::from_str(label),
            throttle_range: self.throttle_range,
        }
    }

    /// The same options with other bounds of the delay, in milliseconds.
    pub fn throttle(self, throttle_range: RangeInclusive<u64>) -> (options: ChannelMockOptions)
        ensures
            options@ == (ChannelMockOptionsView { throttle_range: throttle_range@, ..self@ }),
    {
        ChannelMockOptions { id: self.id, label: self.label, throttle_range }
    }

    /// The identifier.
    pub fn channel_id(&self) -> (id: u16)
        ensures
            id == self@.id,
    {
        self.id
    }

    /// The label.
    pub fn channel_label(&self) -> (label: &String)
        ensures
            label@ == self@.label,
    {
        &self.label
    }

    /// The bounds of the delay, in milliseconds.
    pub fn throttle_range(&self) -> (range: &RangeInclusive<u64>)
        ensures
            range@ == self@.throttle_range,
    {
        &self.throttle_range
    }

    /// Options with a random identifier, a default label with a random
    /// suffix, and a delay drawn for them: at least from 0 to 4 and at most
    /// from 5 to 50 milliseconds.
    pub fn random() -> (options: ChannelMockOptions)
        ensures
            is_default_label(options@.label),
            !options@.throttle_range.exhausted,
            options@.throttle_range.start <= 4,
            5 <= options@.throttle_range.end <= 50,
    {
        let shortest = random_between(0, 4);
        let longest = random_between(5, 50);
        ChannelMockOptions::default().throttle(RangeInclusive::new(shortest, longest))
    }
}

impl Default for ChannelMockOptions {
    /// Options with a random identifier, a default label with a random
    /// suffix, and no delay.
    fn default() -> (options: ChannelMockOptions)
        ensures
            is_default_label(options@.label),
            is_range(options@.throttle_range, 0, 0),
    {
        let id = random_between(0, 0xFFFF) as u16;
        let suffix = random_text(LABEL_SUFFIX_LENGTH);
        let mut label = String::from_str("channel-mock-");
        label.append(suffix.as_str());
        proof {
            let prefix = "channel-mock-"@;
            assert(label@.subrange(0, prefix.len() as int) =~= prefix);
            assert(label@.subrange(prefix.len() as int, label@.len() as int) =~= suffix@);
        }
        ChannelMockOptions { id, label, throttle_range: RangeInclusive::new(0, 0) }
    }
}

} // verus!
