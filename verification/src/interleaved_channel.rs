//! The divider: one transport carries two independent duplex sub-channels.
//!
//! A background forwarder serialises the traffic of both children onto the
//! shared transport as tagged frames, and dispatches incoming frames to the
//! child they belong to. This module holds the frames and the decisions of
//! the forwarder's two loops; the loops themselves only read and write.
use vstd::prelude::*;
use crate::error::ErrorKind;

verus! {

/// Capacity, in bytes, of the in-memory pipe behind a child sub-channel, and
/// the largest chunk that the forwarder reads from a child at once.
pub const CHILD_PIPE_CAPACITY: usize = 1024;

/// One of the two sub-channels of a divided transport.
#[derive(Debug, Clone, Copy, PartialEq, Eq, Structural)]
pub enum Child {
    /// The first child: the data sub-channel.
    First,
    /// The second child: the control sub-channel.
    Second,
}

impl Child {
    /// The other child.
    pub open spec fn spec_other(self) -> Child {
        match self {
            Child::First => Child::Second,
            Child::Second => Child::First,
        }
    }

    /// The other child.
    #[verifier::when_used_as_spec(spec_other)]
    pub fn other(self) -> (child: Child)
        ensures
            child == self.spec_other(),
    {
        match self {
            Child::First => Child::Second,
            Child::Second => Child::First,
        }
    }
}

/// The unit that the divider puts on the shared transport: the bytes of one
/// sub-channel, tagged with the sub-channel. An empty payload announces that
/// the sender's side of that sub-channel was closed.
#[derive(Debug, Clone, PartialEq, Eq)]
pub enum LayerMessage {
    /// Bytes of the first child, the data sub-channel.
    Channel1(Vec<u8>),
    /// Bytes of the second child, the control sub-channel.
    Channel2(Vec<u8>),
}

/// Mathematical value of a [`LayerMessage`].
pub enum LayerMessageView {
    Channel1(Seq<u8>),
    Channel2(Seq<u8>),
}

impl LayerMessageView {
    /// The frame that carries `payload` for `child`.
    pub open spec fn new(child: Child, payload: Seq<u8>) -> LayerMessageView {
        match child {
            Child::First => LayerMessageView::Channel1(payload),
            Child::Second => LayerMessageView::Channel2(payload),
        }
    }

    /// The sub-channel that the frame belongs to.
    pub open spec fn child(self) -> Child {
        match self {
            LayerMessageView::Channel1(_) => Child::First,
            LayerMessageView::Channel2(_) => Child::Second,
        }
    }

    /// The bytes that the frame carries.
    pub open spec fn payload(self) -> Seq<u8> {
        match self {
            LayerMessageView::Channel1(payload) => payload,
            LayerMessageView::Channel2(payload) => payload,
        }
    }
}

impl View for LayerMessage {
    type V = LayerMessageView;

    open spec fn view(&self) -> LayerMessageView {
        match *self {
            LayerMessage::Channel1(payload) => LayerMessageView::Channel1(payload@),
            LayerMessage::Channel2(payload) => LayerMessageView::Channel2(payload@),
        }
    }
}

impl LayerMessage {
    /// The frame that carries `payload` for `child`.
    pub fn new(child: Child, payload: Vec<u8>) -> (message: LayerMessage)
        ensures
            message@ == LayerMessageView::new(child, payload@),
    {
        match child {
            Child::First => LayerMessage::Channel1(payload),
            Child::Second => LayerMessage::Channel2(payload),
        }
    }

    /// The sub-channel that the frame belongs to.
    pub fn child(&self) -> (child: Child)
        ensures
            child == self@.child(),
    {
        match self {
            LayerMessage::Channel1(_) => Child::First,
            LayerMessage::Channel2(_) => Child::Second,
        }
    }

    /// The bytes that the frame carries.
    pub fn payload(&self) -> (payload: &Vec<u8>)
        ensures
            payload@ == self@.payload(),
    {
        match self {
            LayerMessage::Channel1(payload) => payload,
            LayerMessage::Channel2(payload) => payload,
        }
    }

    /// Takes the frame apart.
    pub fn into_parts(self) -> (parts: (Child, Vec<u8>))
        ensures
            parts.0 == self@.child(),
            parts.1@ == self@.payload(),
    {
        match self {
            LayerMessage::Channel1(payload) => (Child::First, payload),
            LayerMessage::Channel2(payload) => (Child::Second, payload),
        }
    }

    /// Whether the frame announces that its sub-channel was closed.
    pub fn is_shutdown(&self) -> (closing: bool)
        ensures
            closing == (self@.payload().len() == 0),
    {
        self.payload().len() == 0
    }
}

/// The state of one child's read side, as the inbound loop sees it.
#[derive(Debug, Clone, Copy, PartialEq, Eq, Structural)]
pub enum Side {
    /// Frames for the child are delivered to it.
    Open,
    /// The child's owner dropped it: frames for it are discarded.
    Abandoned,
    /// The peer closed the sub-channel: a further frame for it is an error.
    Closed,
}

/// Something that happened to the inbound loop.
#[derive(Debug, Clone, PartialEq, Eq)]
pub enum InboundEvent {
    /// A frame arrived on the shared transport.
    Frame(LayerMessage),
    /// Bytes arrived that do not parse to a frame.
    Malformed,
    /// The shared transport ended.
    Closed,
    /// Reading the shared transport failed.
    Failed,
    /// Writing to a child's pipe failed because its owner dropped the child.
    Dropped(Child),
}

/// Mathematical value of an [`InboundEvent`].
pub enum InboundEventView {
    Frame(LayerMessageView),
    Malformed,
    Closed,
    Failed,
    Dropped(Child),
}

impl View for InboundEvent {
    type V = InboundEventView;

    open spec fn view(&self) -> InboundEventView {
        match *self {
            InboundEvent::Frame(message) => InboundEventView::Frame(message@),
            InboundEvent::Malformed => InboundEventView::Malformed,
            InboundEvent::Closed => InboundEventView::Closed,
            InboundEvent::Failed => InboundEventView::Failed,
            InboundEvent::Dropped(child) => InboundEventView::Dropped(child),
        }
    }
}

/// What the inbound loop has to do next.
#[derive(Debug, Clone, PartialEq, Eq)]
pub enum InboundAction {
    /// Write all of the bytes to the child's read pipe.
    Deliver(Child, Vec<u8>),
    /// Shut the child's read pipe down: its reader sees end-of-stream.
    Shutdown(Child),
    /// Nothing; wait for the next event.
    Skip,
    /// Stop the forwarder with this error.
    Stop(ErrorKind),
}

/// Mathematical value of an [`InboundAction`].
pub enum InboundActionView {
    Deliver(Child, Seq<u8>),
    Shutdown(Child),
    Skip,
    Stop(ErrorKind),
}

impl View for InboundAction {
    type V = InboundActionView;

    open spec fn view(&self) -> InboundActionView {
        match *self {
            InboundAction::Deliver(child, bytes) => InboundActionView::Deliver(child, bytes@),
            InboundAction::Shutdown(child) => InboundActionView::Shutdown(child),
            InboundAction::Skip => InboundActionView::Skip,
            InboundAction::Stop(kind) => InboundActionView::Stop(kind),
        }
    }
}

/// The inbound loop of a forwarder: from the shared transport to the children.
#[derive(Debug, Clone, Copy, PartialEq, Eq, Structural)]
pub struct InboundForwarder {
    /// The read side of the first child.
    pub first: Side,
    /// The read side of the second child.
    pub second: Side,
    /// The error that the loop stopped with, if it has stopped.
    pub stopped: Option<ErrorKind>,
}

impl InboundForwarder {
    /// The loop at its start: both children open.
    pub open spec fn spec_new() -> InboundForwarder {
        InboundForwarder { first: Side::Open, second: Side::Open, stopped: None }
    }

    /// The read side of a child.
    pub open spec fn spec_side(&self, child: Child) -> Side {
        match child {
            Child::First => self.first,
            Child::Second => self.second,
        }
    }

    /// The same state with one child's read side changed.
    pub open spec fn with_side(self, child: Child, side: Side) -> InboundForwarder {
        match child {
            Child::First => InboundForwarder { first: side, ..self },
            Child::Second => InboundForwarder { second: side, ..self },
        }
    }

    /// The same state, stopped with the given error.
    pub open spec fn stop(self, kind: ErrorKind) -> (InboundForwarder, InboundActionView) {
        (InboundForwarder { stopped: Some(kind), ..self }, InboundActionView::Stop(kind))
    }

    /// State and action after a frame for `child` with the given payload.
    pub open spec fn on_frame(self, child: Child, payload: Seq<u8>) -> (
        InboundForwarder,
        InboundActionView,
    ) {
        match self.spec_side(child) {
            Side::Closed => self.stop(ErrorKind::Protocol),
            Side::Open => if payload.len() == 0 {
                (self.with_side(child, Side::Closed), InboundActionView::Shutdown(child))
            } else {
                (self, InboundActionView::Deliver(child, payload))
            },
            Side::Abandoned => if payload.len() == 0 {
                (self.with_side(child, Side::Closed), InboundActionView::Skip)
            } else {
                (self, InboundActionView::Skip)
            },
        }
    }

    /// The loop's transition: the state after `event` and what to do next.
    ///
    /// A frame goes to the child it is tagged with; an empty one closes that
    /// child's read side, and any frame after that is a protocol error.
    /// Frames for a child that its owner dropped are discarded. A frame that
    /// does not parse, and the end or a failure of the shared transport, stop
    /// the loop; a loop that has stopped answers every event with its error.
    pub open spec fn transition(self, event: InboundEventView) -> (
        InboundForwarder,
        InboundActionView,
    ) {
        match self.stopped {
            Some(kind) => (self, InboundActionView::Stop(kind)),
            None => match event {
                InboundEventView::Frame(message) => self.on_frame(
                    message.child(),
                    message.payload(),
                ),
                InboundEventView::Malformed => self.stop(ErrorKind::Protocol),
                InboundEventView::Closed => self.stop(ErrorKind::Transport),
                InboundEventView::Failed => self.stop(ErrorKind::Transport),
                InboundEventView::Dropped(child) => if self.spec_side(child) == Side::Open {
                    (self.with_side(child, Side::Abandoned), InboundActionView::Skip)
                } else {
                    (self, InboundActionView::Skip)
                },
            },
        }
    }

    /// The loop at its start: both children open.
    #[verifier::when_used_as_spec(spec_new)]
    pub fn new() -> (forwarder: InboundForwarder)
        ensures
            forwarder == InboundForwarder::spec_new(),
    {
        InboundForwarder { first: Side::Open, second: Side::Open, stopped: None }
    }

    /// The read side of a child.
    #[verifier::when_used_as_spec(spec_side)]
    pub fn side(&self, child: Child) -> (side: Side)
        ensures
            side == self.spec_side(child),
    {
        match child {
            Child::First => self.first,
            Child::Second => self.second,
        }
    }

    fn set_side(&mut self, child: Child, side: Side)
        ensures
            *final(self) == old(self).with_side(child, side),
    {
        match child {
            Child::First => {
                self.first = side;
            },
            Child::Second => {
                self.second = side;
            },
        }
    }

    fn halt(&mut self, kind: ErrorKind) -> (action: InboundAction)
        ensures
            *final(self) == old(self).stop(kind).0,
            action@ == old(self).stop(kind).1,
    {
        self.stopped = Some(kind);
        InboundAction::Stop(kind)
    }

    /// Reacts to one event: moves to the next state and says what to do.
    ///
    /// State and action are those of [`InboundForwarder::transition`].
    pub fn step(&mut self, event: InboundEvent) -> (action: InboundAction)
        ensures
            *final(self) == old(self).transition(event@).0,
            action@ == old(self).transition(event@).1,
    {
        match self.stopped {
            Some(kind) => {
                return InboundAction::Stop(kind);
            },
            None => {},
        }
        match event {
            InboundEvent::Frame(message) => {
                let (child, payload) = message.into_parts();
                match self.side(child) {
                    Side::Closed => self.halt(ErrorKind::Protocol),
                    Side::Open => if payload.len() == 0 {
                        self.set_side(child, Side::Closed);
                        InboundAction::Shutdown(child)
                    } else {
                        InboundAction::Deliver(child, payload)
                    },
                    Side::Abandoned => {
                        if payload.len() == 0 {
                            self.set_side(child, Side::Closed);
                        }
                        InboundAction::Skip
                    },
                }
            },
            InboundEvent::Malformed => self.halt(ErrorKind::Protocol),
            InboundEvent::Closed => self.halt(ErrorKind::Transport),
            InboundEvent::Failed => self.halt(ErrorKind::Transport),
            InboundEvent::Dropped(child) => {
                match self.side(child) {
                    Side::Open => {
                        self.set_side(child, Side::Abandoned);
                    },
                    _ => {},
                }
                InboundAction::Skip
            },
        }
    }
}

/// Something that happened to the outbound loop.
#[derive(Debug, Clone, PartialEq, Eq)]
pub enum OutboundEvent {
    /// A read from the child's write pipe returned these bytes; none means
    /// that the child's writer was closed or the child was dropped.
    Read(Child, Vec<u8>),
    /// Reading the child's write pipe failed.
    ReadFailed(Child),
    /// Writing a frame to the shared transport failed.
    SendFailed,
}

/// Mathematical value of an [`OutboundEvent`].
pub enum OutboundEventView {
    Read(Child, Seq<u8>),
    ReadFailed(Child),
    SendFailed,
}

impl View for OutboundEvent {
    type V = OutboundEventView;

    open spec fn view(&self) -> OutboundEventView {
        match *self {
            OutboundEvent::Read(child, bytes) => OutboundEventView::Read(child, bytes@),
            OutboundEvent::ReadFailed(child) => OutboundEventView::ReadFailed(child),
            OutboundEvent::SendFailed => OutboundEventView::SendFailed,
        }
    }
}

/// What the outbound loop has to do next.
#[derive(Debug, Clone, PartialEq, Eq)]
pub enum OutboundAction {
    /// Put the frame on the shared transport.
    Send(LayerMessage),
    /// Nothing; wait for the next event.
    Skip,
    /// Stop the forwarder with this error.
    Stop(ErrorKind),
}

/// Mathematical value of an [`OutboundAction`].
pub enum OutboundActionView {
    Send(LayerMessageView),
    Skip,
    Stop(ErrorKind),
}

impl View for OutboundAction {
    type V = OutboundActionView;

    open spec fn view(&self) -> OutboundActionView {
        match *self {
            OutboundAction::Send(message) => OutboundActionView::Send(message@),
            OutboundAction::Skip => OutboundActionView::Skip,
            OutboundAction::Stop(kind) => OutboundActionView::Stop(kind),
        }
    }
}

/// The outbound loop of a forwarder: from the children to the shared transport.
#[derive(Debug, Clone, Copy, PartialEq, Eq, Structural)]
pub struct OutboundForwarder {
    /// The first child's writer was closed; the child is polled no more.
    pub first_closed: bool,
    /// The second child's writer was closed; the child is polled no more.
    pub second_closed: bool,
    /// The error that the loop stopped with, if it has stopped.
    pub stopped: Option<ErrorKind>,
}

impl OutboundForwarder {
    /// The loop at its start: both children polled.
    pub open spec fn spec_new() -> OutboundForwarder {
        OutboundForwarder { first_closed: false, second_closed: false, stopped: None }
    }

    /// Whether the child's writer was closed.
    pub open spec fn spec_is_closed(&self, child: Child) -> bool {
        match child {
            Child::First => self.first_closed,
            Child::Second => self.second_closed,
        }
    }

    /// Whether the loop still reads from the child.
    pub open spec fn spec_polls(&self, child: Child) -> bool {
        self.stopped is None && !self.spec_is_closed(child)
    }

    /// The same state with the child's writer closed.
    pub open spec fn close(self, child: Child) -> OutboundForwarder {
        match child {
            Child::First => OutboundForwarder { first_closed: true, ..self },
            Child::Second => OutboundForwarder { second_closed: true, ..self },
        }
    }

    /// The same state, stopped with the given error.
    pub open spec fn stop(self, kind: ErrorKind) -> (OutboundForwarder, OutboundActionView) {
        (OutboundForwarder { stopped: Some(kind), ..self }, OutboundActionView::Stop(kind))
    }

    /// The loop's transition: the state after `event` and what to do next.
    ///
    /// Bytes read from a child leave as a frame tagged with the child. A read
    /// of no bytes leaves as an empty frame and ends the polling of that
    /// child; what a closed child still reports is ignored. A failure stops
    /// the loop; a loop that has stopped answers every event with its error.
    pub open spec fn transition(self, event: OutboundEventView) -> (
        OutboundForwarder,
        OutboundActionView,
    ) {
        match self.stopped {
            Some(kind) => (self, OutboundActionView::Stop(kind)),
            None => match event {
                OutboundEventView::Read(child, bytes) => if self.spec_is_closed(child) {
                    (self, OutboundActionView::Skip)
                } else {
                    (
                        if bytes.len() == 0 {
                            self.close(child)
                        } else {
                            self
                        },
                        OutboundActionView::Send(LayerMessageView::new(child, bytes)),
                    )
                },
                OutboundEventView::ReadFailed(_) => self.stop(ErrorKind::Transport),
                OutboundEventView::SendFailed => self.stop(ErrorKind::Transport),
            },
        }
    }

    /// The loop at its start: both children polled.
    #[verifier::when_used_as_spec(spec_new)]
    pub fn new() -> (forwarder: OutboundForwarder)
        ensures
            forwarder == OutboundForwarder::spec_new(),
    {
        OutboundForwarder { first_closed: false, second_closed: false, stopped: None }
    }

    /// Whether the child's writer was closed.
    #[verifier::when_used_as_spec(spec_is_closed)]
    pub fn is_closed(&self, child: Child) -> (closed: bool)
        ensures
            closed == self.spec_is_closed(child),
    {
        match child {
            Child::First => self.first_closed,
            Child::Second => self.second_closed,
        }
    }

    /// Whether the loop still reads from the child.
    #[verifier::when_used_as_spec(spec_polls)]
    pub fn polls(&self, child: Child) -> (polled: bool)
        ensures
            polled == self.spec_polls(child),
    {
        self.stopped.is_none() && !self.is_closed(child)
    }

    fn halt(&mut self, kind: ErrorKind) -> (action: OutboundAction)
        ensures
            *final(self) == old(self).stop(kind).0,
            action@ == old(self).stop(kind).1,
    {
        self.stopped = Some(kind);
        OutboundAction::Stop(kind)
    }

    /// Reacts to one event: moves to the next state and says what to do.
    ///
    /// State and action are those of [`OutboundForwarder::transition`].
    pub fn step(&mut self, event: OutboundEvent) -> (action: OutboundAction)
        ensures
            *final(self) == old(self).transition(event@).0,
            action@ == old(self).transition(event@).1,
    {
        match self.stopped {
            Some(kind) => {
                return OutboundAction::Stop(kind);
            },
            None => {},
        }
        match event {
            OutboundEvent::Read(child, bytes) => {
                if self.is_closed(child) {
                    return OutboundAction::Skip;
                }
                if bytes.len() == 0 {
                    match child {
                        Child::First => {
                            self.first_closed = true;
                        },
                        Child::Second => {
                            self.second_closed = true;
                        },
                    }
                }
                OutboundAction::Send(LayerMessage::new(child, bytes))
            },
            OutboundEvent::ReadFailed(_) => self.halt(ErrorKind::Transport),
            OutboundEvent::SendFailed => self.halt(ErrorKind::Transport),
        }
    }
}

} // verus!
