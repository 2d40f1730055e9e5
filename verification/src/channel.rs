//! The upgradable stream facade: one duplex stream whose reads and writes
//! move from the primary transport to the upgrade transport once the
//! coordinator has filled the two slots.
//!
//! The facade holds no transport here. It keeps what decides where a read
//! or a write goes: whether each slot is filled, the bytes paired with the
//! reader slot, and whether a reader is parked on the primary transport.
use vstd::prelude::*;

verus! {

/// The transport that an operation is handed to.
#[derive(Debug, Clone, Copy, PartialEq, Eq, Structural)]
pub enum Route {
    /// The data sub-channel of the primary transport.
    Primary,
    /// The half of the upgrade transport that the slot holds.
    Upgrade,
}

/// How a read is served.
#[derive(Debug, Clone, PartialEq, Eq)]
pub enum ReadPlan {
    /// With these bytes, taken from the buffer paired with the reader slot.
    Buffered(Vec<u8>),
    /// By the read-half that the reader slot holds.
    Upgrade,
    /// By the read-half of the primary data sub-channel.
    Primary,
}

/// Mathematical value of a [`ReadPlan`].
pub enum ReadPlanView {
    Buffered(Seq<u8>),
    Upgrade,
    Primary,
}

impl View for ReadPlan {
    type V = ReadPlanView;

    open spec fn view(&self) -> ReadPlanView {
        match *self {
            ReadPlan::Buffered(bytes) => ReadPlanView::Buffered(bytes@),
            ReadPlan::Upgrade => ReadPlanView::Upgrade,
            ReadPlan::Primary => ReadPlanView::Primary,
        }
    }
}

/// Mathematical state of the facade.
pub struct UpgradableChannelView {
    /// Identifier of the primary transport.
    pub id: u16,
    /// Label of the primary transport.
    pub label: Seq<char>,
    /// The writer slot is filled.
    pub writer_upgraded: bool,
    /// The reader slot: empty, or filled and paired with these bytes, which
    /// are still to be delivered.
    pub reader_buffer: Option<Seq<u8>>,
    /// A reader is parked on the primary transport.
    pub reader_parked: bool,
}

impl UpgradableChannelView {
    /// The facade at its start: both slots empty, nobody parked.
    pub open spec fn fresh(id: u16, label: Seq<char>) -> UpgradableChannelView {
        UpgradableChannelView {
            id,
            label,
            writer_upgraded: false,
            reader_buffer: None,
            reader_parked: false,
        }
    }

    /// Where a write, a flush or a shutdown goes.
    pub open spec fn write_route(self) -> Route {
        if self.writer_upgraded {
            Route::Upgrade
        } else {
            Route::Primary
        }
    }

    /// How a read into `capacity` free bytes is served, and the state after
    /// it was planned.
    ///
    /// Once the reader slot is filled, its buffer comes first: as many of
    /// its bytes as fit are handed out and removed. Only an empty buffer
    /// lets the read through to the upgrade transport. Before that, the
    /// read goes to the primary transport.
    pub open spec fn plan_read(self, capacity: nat) -> (UpgradableChannelView, ReadPlanView) {
        match self.reader_buffer {
            Some(buffer) => if buffer.len() > 0 {
                let count = if buffer.len() <= capacity {
                    buffer.len()
                } else {
                    capacity
                };
                (
                    UpgradableChannelView {
                        reader_buffer: Some(buffer.subrange(count as int, buffer.len() as int)),
                        ..self
                    },
                    ReadPlanView::Buffered(buffer.subrange(0, count as int)),
                )
            } else {
                (self, ReadPlanView::Upgrade)
            },
            None => (self, ReadPlanView::Primary),
        }
    }
}

/// The upgradable stream facade of one endpoint.
pub struct UpgradableChannel {
    id: u16,
    label: String,
    writer_upgraded: bool,
    reader_buffer: Option<Vec<u8>>,
    reader_parked: bool,
}

impl View for UpgradableChannel {
    type V = UpgradableChannelView;

    closed spec fn view(&self) -> UpgradableChannelView {
        UpgradableChannelView {
            id: self.id,
            label: self.label@,
            writer_upgraded: self.writer_upgraded,
            reader_buffer: match self.reader_buffer {
                Some(buffer) => Some(buffer@),
                None => None,
            },
            reader_parked: self.reader_parked,
        }
    }
}

impl UpgradableChannel {
    /// The facade over a primary transport with the given identifier and
    /// label: both slots empty, nobody parked.
    pub fn new(id: u16, label: String) -> (channel: UpgradableChannel)
        ensures
            channel@ == UpgradableChannelView::fresh(id, label@),
    {
        UpgradableChannel {
            id,
            label,
            writer_upgraded: false,
            reader_buffer: None,
            reader_parked: false,
        }
    }

    /// Identifier of the primary transport; an upgrade does not change it.
    pub fn id(&self) -> (id: u16)
        ensures
            id == self@.id,
    {
        self.id
    }

    /// Label of the primary transport; an upgrade does not change it.
    pub fn label(&self) -> (label: &String)
        ensures
            label@ == self@.label,
    {
        &self.label
    }

    /// Whether the writer slot is filled.
    pub fn is_writer_upgraded(&self) -> (upgraded: bool)
        ensures
            upgraded == self@.writer_upgraded,
    {
        self.writer_upgraded
    }

    /// Whether the reader slot is filled.
    pub fn is_reader_upgraded(&self) -> (upgraded: bool)
        ensures
            upgraded == self@.reader_buffer is Some,
    {
        self.reader_buffer.is_some()
    }

    /// Whether a reader is parked on the primary transport.
    pub fn is_reader_parked(&self) -> (parked: bool)
        ensures
            parked == self@.reader_parked,
    {
        self.reader_parked
    }

    /// Fills the writer slot. The slot is filled once: it has to be empty.
    pub fn publish_writer(&mut self)
        requires
            !old(self)@.writer_upgraded,
        ensures
            final(self)@ == (UpgradableChannelView { writer_upgraded: true, ..old(self)@ }),
    {
        self.writer_upgraded = true;
    }

    /// Fills the reader slot and pairs it with the bytes that are to be
    /// delivered before anything the upgrade transport's read-half yields.
    /// The slot is filled once: it has to be empty.
    pub fn publish_reader(&mut self, buffer: Vec<u8>)
        requires
            old(self)@.reader_buffer is None,
        ensures
            final(self)@ == (UpgradableChannelView {
                reader_buffer: Some(buffer@),
                ..old(self)@
            }),
    {
        self.reader_buffer = Some(buffer);
    }

    /// Where a write, a flush or a shutdown goes: to the upgrade transport
    /// once the writer slot is filled, to the primary transport before.
    pub fn write_route(&self) -> (route: Route)
        ensures
            route == self@.write_route(),
    {
        if self.writer_upgraded {
            Route::Upgrade
        } else {
            Route::Primary
        }
    }

    /// Plans a read into `capacity` free bytes.
    ///
    /// Plan and state are those of [`UpgradableChannelView::plan_read`].
    pub fn plan_read(&mut self, capacity: usize) -> (plan: ReadPlan)
        ensures
            final(self)@ == old(self)@.plan_read(capacity as nat).0,
            plan@ == old(self)@.plan_read(capacity as nat).1,
    {
        match self.reader_buffer.take() {
            Some(mut buffer) => {
                if buffer.len() > 0 {
                    let count = if buffer.len() <= capacity {
                        buffer.len()
                    } else {
                        capacity
                    };
                    let rest = buffer.split_off(count);
                    self.reader_buffer = Some(rest);
                    ReadPlan::Buffered(buffer)
                } else {
                    self.reader_buffer = Some(buffer);
                    ReadPlan::Upgrade
                }
            },
            None => ReadPlan::Primary,
        }
    }

    /// Records how a read on the primary transport ended: a read that was
    /// not ready parks the reader, so that the coordinator can wake it at
    /// handover; a read that was ready unparks it. Answers whether the
    /// caller's wake-up handle has to be kept.
    pub fn primary_read_polled(&mut self, pending: bool) -> (keep_waker: bool)
        ensures
            keep_waker == pending,
            final(self)@ == (UpgradableChannelView { reader_parked: pending, ..old(self)@ }),
    {
        self.reader_parked = pending;
        pending
    }

    /// Takes the parked reader, if any: answers whether there was one to
    /// wake, and leaves nobody parked.
    pub fn take_parked_reader(&mut self) -> (wake: bool)
        ensures
            wake == old(self)@.reader_parked,
            final(self)@ == (UpgradableChannelView { reader_parked: false, ..old(self)@ }),
    {
        let wake = self.reader_parked;
        self.reader_parked = false;
        wake
    }
}

} // verus!
