//! The upgrade coordinator: a symmetric three-message handshake that decides
//! when an endpoint stops writing to the primary transport, stops reading from
//! it, and hands the halves of the upgrade transport to the stream facade.
//!
//! The coordinator is a transition system. The surrounding task waits for the
//! next [`Event`], passes it to [`Coordinator::step`] and carries out the
//! returned [`Action`]s in order.
use vstd::prelude::*;
use crate::channel_message::{ChannelMessage, ChannelMessageView};
use crate::error::ErrorKind;

verus! {

/// Where the coordinator stands.
#[derive(Debug, Clone, Copy, PartialEq, Eq, Structural)]
pub enum Phase {
    /// Waiting for the upgrade transport and for control messages.
    Running,
    /// The peer's `Ack` arrived; the rest of the primary read-half is being
    /// drained.
    Draining,
    /// Both halves of the upgrade transport were published.
    Completed,
    /// The coordinator stopped without completing the upgrade.
    Failed(ErrorKind),
}

/// Something that happened and that the coordinator has to react to.
#[derive(Debug, Clone, PartialEq, Eq)]
pub enum Event {
    /// The notifier delivered the upgrade transport; its two halves are held
    /// by the coordinator task.
    UpgradeArrived,
    /// The notifier was dropped without delivering a transport.
    NotifierDropped,
    /// A chunk of bytes was read from the upgrade transport's read-half.
    UpgradeBytes(Vec<u8>),
    /// Reading the upgrade transport's read-half failed.
    UpgradeReadFailed,
    /// A control message arrived from the peer.
    Control(ChannelMessage),
    /// The control sub-channel ended or failed, on receive or on send.
    ControlClosed,
    /// A frame on the control sub-channel did not parse to a control message.
    ControlMalformed,
    /// The primary read-half reached end-of-stream; carries the bytes that
    /// were still in flight on it.
    PrimaryDrained(Vec<u8>),
    /// Draining the primary read-half failed.
    PrimaryDrainFailed,
}

/// Something the coordinator task has to do for the coordinator.
#[derive(Debug, Clone, PartialEq, Eq)]
pub enum Action {
    /// Send the message on the control sub-channel.
    Send(ChannelMessage),
    /// Half-close the primary transport's write side.
    ShutdownPrimaryWriter,
    /// Place the upgrade transport's write-half into the facade's writer slot.
    PublishWriter,
    /// Read the primary read-half to end-of-stream and report the bytes with
    /// [`Event::PrimaryDrained`].
    DrainPrimaryReader,
    /// Place the upgrade transport's read-half, paired with these bytes, into
    /// the facade's reader slot.
    PublishReader(Vec<u8>),
    /// Wake the reader task that is parked on the primary transport, if any.
    WakeReader,
}

/// Mathematical value of an [`Event`].
pub enum EventView {
    UpgradeArrived,
    NotifierDropped,
    UpgradeBytes(Seq<u8>),
    UpgradeReadFailed,
    Control(ChannelMessageView),
    ControlClosed,
    ControlMalformed,
    PrimaryDrained(Seq<u8>),
    PrimaryDrainFailed,
}

/// Mathematical value of an [`Action`].
pub enum ActionView {
    Send(ChannelMessageView),
    ShutdownPrimaryWriter,
    PublishWriter,
    DrainPrimaryReader,
    PublishReader(Seq<u8>),
    WakeReader,
}

impl View for Event {
    type V = EventView;

    open spec fn view(&self) -> EventView {
        match *self {
            Event::UpgradeArrived => EventView::UpgradeArrived,
            Event::NotifierDropped => EventView::NotifierDropped,
            Event::UpgradeBytes(bytes) => EventView::UpgradeBytes(bytes@),
            Event::UpgradeReadFailed => EventView::UpgradeReadFailed,
            Event::Control(message) => EventView::Control(message@),
            Event::ControlClosed => EventView::ControlClosed,
            Event::ControlMalformed => EventView::ControlMalformed,
            Event::PrimaryDrained(bytes) => EventView::PrimaryDrained(bytes@),
            Event::PrimaryDrainFailed => EventView::PrimaryDrainFailed,
        }
    }
}

impl View for Action {
    type V = ActionView;

    open spec fn view(&self) -> ActionView {
        match *self {
            Action::Send(message) => ActionView::Send(message@),
            Action::ShutdownPrimaryWriter => ActionView::ShutdownPrimaryWriter,
            Action::PublishWriter => ActionView::PublishWriter,
            Action::DrainPrimaryReader => ActionView::DrainPrimaryReader,
            Action::PublishReader(bytes) => ActionView::PublishReader(bytes@),
            Action::WakeReader => ActionView::WakeReader,
        }
    }
}

/// The values of a list of actions, in order.
pub open spec fn action_views(actions: Seq<Action>) -> Seq<ActionView> {
    actions.map_values(|a: Action| a@)
}

/// Mathematical state of a coordinator.
pub struct CoordinatorView {
    /// This endpoint's nonce.
    pub our_id: Seq<char>,
    /// The upgrade transport was delivered and its halves are held.
    pub transport_arrived: bool,
    /// `Sync` with our nonce was emitted.
    pub sync_sent: bool,
    /// Nonce of a peer `Sync` that arrived before the upgrade transport.
    pub held_sync: Option<Seq<char>>,
    /// `SyncAck` was emitted in answer to the peer's `Sync`.
    pub sync_ack_sent: bool,
    /// The peer's `SyncAck` for our `Sync` was received.
    pub sync_acked: bool,
    /// The writer slot was filled.
    pub writer_published: bool,
    /// The reader slot was filled.
    pub reader_published: bool,
    /// Bytes read from the upgrade transport and not yet handed over.
    pub recv_buffer: Seq<u8>,
    /// Where the coordinator stands.
    pub phase: Phase,
}

impl CoordinatorView {
    /// The state of a coordinator that has seen no event.
    pub open spec fn fresh(our_id: Seq<char>) -> CoordinatorView {
        CoordinatorView {
            our_id,
            transport_arrived: false,
            sync_sent: false,
            held_sync: None,
            sync_ack_sent: false,
            sync_acked: false,
            writer_published: false,
            reader_published: false,
            recv_buffer: Seq::empty(),
            phase: Phase::Running,
        }
    }

    /// What every state reached from a fresh one satisfies.
    pub open spec fn consistent(self) -> bool {
        &&& self.sync_sent == self.transport_arrived
        &&& self.held_sync is Some ==> !self.transport_arrived
        &&& self.sync_ack_sent ==> self.transport_arrived
        &&& self.sync_acked ==> self.sync_sent
        &&& self.writer_published == (self.sync_ack_sent || self.sync_acked)
        &&& self.reader_published == (self.phase == Phase::Completed)
        &&& self.reader_published ==> self.writer_published
        &&& self.phase == Phase::Draining ==> self.sync_ack_sent
        &&& self.phase == Phase::Completed ==> self.recv_buffer.len() == 0
    }

    /// The coordinator has stopped: it reacts to no further event.
    pub open spec fn terminated(self) -> bool {
        self.phase == Phase::Completed || self.phase is Failed
    }

    /// The state after stopping with the given error.
    pub open spec fn failed(self, kind: ErrorKind) -> CoordinatorView {
        CoordinatorView { phase: Phase::Failed(kind), ..self }
    }

    /// The actions that fill the writer slot, unless it is filled already.
    pub open spec fn writer_handover(self) -> Seq<ActionView> {
        if self.writer_published {
            Seq::empty()
        } else {
            seq![ActionView::ShutdownPrimaryWriter, ActionView::PublishWriter]
        }
    }

    /// State and actions after the upgrade transport was delivered.
    pub open spec fn on_upgrade_arrived(self) -> (CoordinatorView, Seq<ActionView>) {
        if self.transport_arrived {
            (self, Seq::empty())
        } else {
            let sync = seq![ActionView::Send(ChannelMessageView::Sync(self.our_id))];
            match self.held_sync {
                Some(peer_id) => (
                    CoordinatorView {
                        transport_arrived: true,
                        sync_sent: true,
                        held_sync: None,
                        sync_ack_sent: true,
                        writer_published: true,
                        ..self
                    },
                    sync + seq![
                        ActionView::Send(ChannelMessageView::SyncAck(peer_id, self.our_id)),
                    ] + self.writer_handover(),
                ),
                None => (
                    CoordinatorView { transport_arrived: true, sync_sent: true, ..self },
                    sync,
                ),
            }
        }
    }

    /// State and actions after the peer's `Sync(peer_id)`.
    pub open spec fn on_sync(self, peer_id: Seq<char>) -> (CoordinatorView, Seq<ActionView>) {
        if !self.transport_arrived {
            if self.held_sync is Some {
                (self, Seq::empty())
            } else {
                (CoordinatorView { held_sync: Some(peer_id), ..self }, Seq::empty())
            }
        } else if self.sync_ack_sent {
            (self, Seq::empty())
        } else {
            (
                CoordinatorView { sync_ack_sent: true, writer_published: true, ..self },
                seq![ActionView::Send(ChannelMessageView::SyncAck(peer_id, self.our_id))]
                    + self.writer_handover(),
            )
        }
    }

    /// State and actions after the peer's `SyncAck(returned_id, peer_id)`.
    pub open spec fn on_sync_ack(self, returned_id: Seq<char>, peer_id: Seq<char>) -> (
        CoordinatorView,
        Seq<ActionView>,
    ) {
        if returned_id != self.our_id || !self.sync_sent || self.sync_acked {
            (self.failed(ErrorKind::Protocol), seq![ActionView::WakeReader])
        } else {
            (
                CoordinatorView { sync_acked: true, writer_published: true, ..self },
                seq![ActionView::Send(ChannelMessageView::Ack(peer_id))] + self.writer_handover(),
            )
        }
    }

    /// State and actions after the peer's `Ack(returned_id)`.
    pub open spec fn on_ack(self, returned_id: Seq<char>) -> (CoordinatorView, Seq<ActionView>) {
        if returned_id != self.our_id || !self.sync_ack_sent {
            (self.failed(ErrorKind::Protocol), seq![ActionView::WakeReader])
        } else {
            (
                CoordinatorView { phase: Phase::Draining, ..self },
                seq![ActionView::DrainPrimaryReader],
            )
        }
    }

    /// State and actions after an event that arrives while running.
    pub open spec fn on_running(self, event: EventView) -> (CoordinatorView, Seq<ActionView>) {
        match event {
            EventView::UpgradeArrived => self.on_upgrade_arrived(),
            EventView::NotifierDropped => if self.transport_arrived {
                (self, Seq::empty())
            } else {
                (self.failed(ErrorKind::Local), seq![ActionView::WakeReader])
            },
            EventView::UpgradeBytes(bytes) => if self.transport_arrived {
                (
                    CoordinatorView { recv_buffer: self.recv_buffer + bytes, ..self },
                    Seq::empty(),
                )
            } else {
                (self, Seq::empty())
            },
            EventView::UpgradeReadFailed => if self.transport_arrived {
                (self.failed(ErrorKind::Transport), seq![ActionView::WakeReader])
            } else {
                (self, Seq::empty())
            },
            EventView::Control(ChannelMessageView::Sync(peer_id)) => self.on_sync(peer_id),
            EventView::Control(ChannelMessageView::SyncAck(returned_id, peer_id)) => {
                self.on_sync_ack(returned_id, peer_id)
            },
            EventView::Control(ChannelMessageView::Ack(returned_id)) => self.on_ack(returned_id),
            EventView::ControlClosed => (
                self.failed(ErrorKind::Transport),
                seq![ActionView::WakeReader],
            ),
            EventView::ControlMalformed => (
                self.failed(ErrorKind::Protocol),
                seq![ActionView::WakeReader],
            ),
            EventView::PrimaryDrained(_) => (self, Seq::empty()),
            EventView::PrimaryDrainFailed => (self, Seq::empty()),
        }
    }

    /// State and actions after an event that arrives while the primary
    /// read-half is being drained.
    pub open spec fn on_draining(self, event: EventView) -> (CoordinatorView, Seq<ActionView>) {
        match event {
            EventView::UpgradeBytes(bytes) => (
                CoordinatorView { recv_buffer: self.recv_buffer + bytes, ..self },
                Seq::empty(),
            ),
            EventView::PrimaryDrained(drained) => (
                CoordinatorView {
                    recv_buffer: Seq::empty(),
                    reader_published: true,
                    phase: Phase::Completed,
                    ..self
                },
                seq![
                    ActionView::PublishReader(drained + self.recv_buffer),
                    ActionView::WakeReader,
                ],
            ),
            EventView::PrimaryDrainFailed => (
                self.failed(ErrorKind::Transport),
                seq![ActionView::WakeReader],
            ),
            _ => (self, Seq::empty()),
        }
    }

    /// The coordinator's transition: the state after `event` and the actions
    /// that the event calls for, in the order in which they are carried out.
    pub open spec fn transition(self, event: EventView) -> (CoordinatorView, Seq<ActionView>) {
        match self.phase {
            Phase::Running => self.on_running(event),
            Phase::Draining => self.on_draining(event),
            Phase::Completed => (self, Seq::empty()),
            Phase::Failed(_) => (self, Seq::empty()),
        }
    }
}


/// Length of a nonce, in characters.
pub const NONCE_LENGTH: usize = 32;

/// The upgrade coordinator of one endpoint.
pub struct Coordinator {
    our_id: String,
    transport_arrived: bool,
    sync_sent: bool,
    held_sync: Option<String>,
    sync_ack_sent: bool,
    sync_acked: bool,
    writer_published: bool,
    reader_published: bool,
    recv_buffer: Vec<u8>,
    phase: Phase,
}

impl View for Coordinator {
    type V = CoordinatorView;

    closed spec fn view(&self) -> CoordinatorView {
        CoordinatorView {
            our_id: self.our_id@,
            transport_arrived: self.transport_arrived,
            sync_sent: self.sync_sent,
            held_sync: match self.held_sync {
                Some(id) => Some(id@),
                None => None,
            },
            sync_ack_sent: self.sync_ack_sent,
            sync_acked: self.sync_acked,
            writer_published: self.writer_published,
            reader_published: self.reader_published,
            recv_buffer: self.recv_buffer@,
            phase: self.phase,
        }
    }
}

/// Appends one action to a list of actions.
fn push_action(actions: &mut Vec<Action>, action: Action)
    ensures
        action_views(final(actions)@) == action_views(old(actions)@).push(action@),
{
    actions.push(action);
    assert(action_views(actions@) =~= action_views(old(actions)@).push(action@));
}

impl Coordinator {
    /// A coordinator with a fresh random nonce of [`NONCE_LENGTH`] letters
    /// and digits, which has seen no event.
    pub fn new() -> (coordinator: Coordinator)
        ensures
            coordinator@ == CoordinatorView::fresh(coordinator@.our_id),
            coordinator@.consistent(),
            crate::random::is_alphanumeric_text(coordinator@.our_id, NONCE_LENGTH as nat),
    {
        Coordinator::with_id(crate::random::random_text(NONCE_LENGTH))
    }

    /// A coordinator with the given nonce, which has seen no event.
    pub fn with_id(our_id: String) -> (coordinator: Coordinator)
        ensures
            coordinator@ == CoordinatorView::fresh(our_id@),
            coordinator@.consistent(),
    {
        Coordinator {
            our_id,
            transport_arrived: false,
            sync_sent: false,
            held_sync: None,
            sync_ack_sent: false,
            sync_acked: false,
            writer_published: false,
            reader_published: false,
            recv_buffer: Vec::new(),
            phase: Phase::Running,
        }
    }

    /// This endpoint's nonce.
    pub fn our_id(&self) -> (id: &String)
        ensures
            id@ == self@.our_id,
    {
        &self.our_id
    }

    /// Where the coordinator stands.
    pub fn phase(&self) -> (phase: Phase)
        ensures
            phase == self@.phase,
    {
        self.phase
    }

    /// Whether the coordinator has stopped, successfully or not.
    pub fn is_terminated(&self) -> (terminated: bool)
        ensures
            terminated == self@.terminated(),
    {
        match self.phase {
            Phase::Running => false,
            Phase::Draining => false,
            Phase::Completed => true,
            Phase::Failed(_) => true,
        }
    }

    /// Whether the upgrade transport was delivered.
    pub fn has_transport(&self) -> (arrived: bool)
        ensures
            arrived == self@.transport_arrived,
    {
        self.transport_arrived
    }

    /// Whether `Sync` with our nonce was emitted.
    pub fn is_sync_sent(&self) -> (sent: bool)
        ensures
            sent == self@.sync_sent,
    {
        self.sync_sent
    }

    /// Whether the writer slot was filled.
    pub fn is_writer_published(&self) -> (published: bool)
        ensures
            published == self@.writer_published,
    {
        self.writer_published
    }

    /// Whether the reader slot was filled.
    pub fn is_reader_published(&self) -> (published: bool)
        ensures
            published == self@.reader_published,
    {
        self.reader_published
    }

    /// Number of bytes read from the upgrade transport and not yet handed over.
    pub fn buffered_len(&self) -> (len: usize)
        ensures
            len == self@.recv_buffer.len(),
    {
        self.recv_buffer.len()
    }

    /// Whether the read-half of the upgrade transport should be polled for
    /// early bytes: it is held, and not yet handed over.
    pub fn wants_upgrade_bytes(&self) -> (wanted: bool)
        ensures
            wanted == (self@.transport_arrived && !self@.terminated()),
    {
        self.transport_arrived && !self.is_terminated()
    }

    /// Stops with the given error and asks for the parked reader to be woken.
    fn fail(&mut self, kind: ErrorKind) -> (actions: Vec<Action>)
        ensures
            final(self)@ == old(self)@.failed(kind),
            action_views(actions@) == seq![ActionView::WakeReader],
    {
        self.phase = Phase::Failed(kind);
        let mut actions: Vec<Action> = Vec::new();
        push_action(&mut actions, Action::WakeReader);
        assert(action_views(actions@) =~= seq![ActionView::WakeReader]);
        actions
    }

    /// Appends the actions that fill the writer slot, unless it is filled.
    fn hand_over_writer(&mut self, actions: &mut Vec<Action>)
        ensures
            final(self)@ == (CoordinatorView { writer_published: true, ..old(self)@ }),
            action_views(final(actions)@) == action_views(old(actions)@) + old(
                self,
            )@.writer_handover(),
    {
        if !self.writer_published {
            push_action(actions, Action::ShutdownPrimaryWriter);
            push_action(actions, Action::PublishWriter);
            self.writer_published = true;
        }
        assert(action_views(actions@) =~= action_views(old(actions)@) + old(
            self,
        )@.writer_handover());
    }

    fn on_upgrade_arrived(&mut self) -> (actions: Vec<Action>)
        ensures
            final(self)@ == old(self)@.on_upgrade_arrived().0,
            action_views(actions@) == old(self)@.on_upgrade_arrived().1,
    {
        let mut actions: Vec<Action> = Vec::new();
        assert(action_views(actions@) =~= Seq::empty());
        if self.transport_arrived {
            return actions;
        }
        self.transport_arrived = true;
        self.sync_sent = true;
        push_action(&mut actions, Action::Send(ChannelMessage::Sync(self.our_id.clone())));
        match self.held_sync.take() {
            Some(peer_id) => {
                push_action(
                    &mut actions,
                    Action::Send(ChannelMessage::SyncAck(peer_id, self.our_id.clone())),
                );
                self.sync_ack_sent = true;
                self.hand_over_writer(&mut actions);
            },
            None => {},
        }
        assert(action_views(actions@) =~= old(self)@.on_upgrade_arrived().1);
        actions
    }

    fn on_sync(&mut self, peer_id: String) -> (actions: Vec<Action>)
        ensures
            final(self)@ == old(self)@.on_sync(peer_id@).0,
            action_views(actions@) == old(self)@.on_sync(peer_id@).1,
    {
        let mut actions: Vec<Action> = Vec::new();
        assert(action_views(actions@) =~= Seq::empty());
        if !self.transport_arrived {
            if self.held_sync.is_none() {
                self.held_sync = Some(peer_id);
            }
            return actions;
        }
        if self.sync_ack_sent {
            return actions;
        }
        push_action(&mut actions, Action::Send(ChannelMessage::SyncAck(peer_id, self.our_id.clone())));
        self.sync_ack_sent = true;
        self.hand_over_writer(&mut actions);
        assert(action_views(actions@) =~= old(self)@.on_sync(peer_id@).1);
        actions
    }

    fn on_sync_ack(&mut self, returned_id: String, peer_id: String) -> (actions: Vec<Action>)
        ensures
            final(self)@ == old(self)@.on_sync_ack(returned_id@, peer_id@).0,
            action_views(actions@) == old(self)@.on_sync_ack(returned_id@, peer_id@).1,
    {
        if !(returned_id == self.our_id) || !self.sync_sent || self.sync_acked {
            return self.fail(ErrorKind::Protocol);
        }
        let mut actions: Vec<Action> = Vec::new();
        assert(action_views(actions@) =~= Seq::empty());
        push_action(&mut actions, Action::Send(ChannelMessage::Ack(peer_id)));
        self.sync_acked = true;
        self.hand_over_writer(&mut actions);
        assert(action_views(actions@) =~= old(self)@.on_sync_ack(returned_id@, peer_id@).1);
        actions
    }

    fn on_ack(&mut self, returned_id: String) -> (actions: Vec<Action>)
        ensures
            final(self)@ == old(self)@.on_ack(returned_id@).0,
            action_views(actions@) == old(self)@.on_ack(returned_id@).1,
    {
        if !(returned_id == self.our_id) || !self.sync_ack_sent {
            return self.fail(ErrorKind::Protocol);
        }
        self.phase = Phase::Draining;
        let mut actions: Vec<Action> = Vec::new();
        push_action(&mut actions, Action::DrainPrimaryReader);
        assert(action_views(actions@) =~= seq![ActionView::DrainPrimaryReader]);
        actions
    }

    /// Keeps bytes that arrived early on the upgrade transport.
    fn buffer_upgrade_bytes(&mut self, bytes: Vec<u8>) -> (actions: Vec<Action>)
        ensures
            final(self)@ == (CoordinatorView {
                recv_buffer: old(self)@.recv_buffer + bytes@,
                ..old(self)@
            }),
            action_views(actions@) == Seq::<ActionView>::empty(),
    {
        let mut bytes = bytes;
        self.recv_buffer.append(&mut bytes);
        let actions: Vec<Action> = Vec::new();
        assert(action_views(actions@) =~= Seq::empty());
        actions
    }

    /// Stitches the drained primary bytes in front of the early bytes and
    /// hands the result over with the read-half.
    fn complete(&mut self, drained: Vec<u8>) -> (actions: Vec<Action>)
        requires
            old(self)@.phase == Phase::Draining,
        ensures
            final(self)@ == old(self)@.on_draining(EventView::PrimaryDrained(drained@)).0,
            action_views(actions@) == old(self)@.on_draining(
                EventView::PrimaryDrained(drained@),
            ).1,
    {
        let mut stitched = drained;
        stitched.append(&mut self.recv_buffer);
        self.reader_published = true;
        self.phase = Phase::Completed;
        let mut actions: Vec<Action> = Vec::new();
        assert(action_views(actions@) =~= Seq::empty());
        push_action(&mut actions, Action::PublishReader(stitched));
        push_action(&mut actions, Action::WakeReader);
        assert(self@.recv_buffer =~= Seq::empty());
        assert(action_views(actions@) =~= old(self)@.on_draining(
            EventView::PrimaryDrained(drained@),
        ).1);
        actions
    }

    fn on_running(&mut self, event: Event) -> (actions: Vec<Action>)
        requires
            old(self)@.phase == Phase::Running,
        ensures
            final(self)@ == old(self)@.on_running(event@).0,
            action_views(actions@) == old(self)@.on_running(event@).1,
    {
        let idle: Vec<Action> = Vec::new();
        assert(action_views(idle@) =~= Seq::empty());
        match event {
            Event::UpgradeArrived => self.on_upgrade_arrived(),
            Event::NotifierDropped => if self.transport_arrived {
                idle
            } else {
                self.fail(ErrorKind::Local)
            },
            Event::UpgradeBytes(bytes) => if self.transport_arrived {
                self.buffer_upgrade_bytes(bytes)
            } else {
                idle
            },
            Event::UpgradeReadFailed => if self.transport_arrived {
                self.fail(ErrorKind::Transport)
            } else {
                idle
            },
            Event::Control(ChannelMessage::Sync(peer_id)) => self.on_sync(peer_id),
            Event::Control(ChannelMessage::SyncAck(returned_id, peer_id)) => self.on_sync_ack(
                returned_id,
                peer_id,
            ),
            Event::Control(ChannelMessage::Ack(returned_id)) => self.on_ack(returned_id),
            Event::ControlClosed => self.fail(ErrorKind::Transport),
            Event::ControlMalformed => self.fail(ErrorKind::Protocol),
            Event::PrimaryDrained(_) => idle,
            Event::PrimaryDrainFailed => idle,
        }
    }

    fn on_draining(&mut self, event: Event) -> (actions: Vec<Action>)
        requires
            old(self)@.phase == Phase::Draining,
        ensures
            final(self)@ == old(self)@.on_draining(event@).0,
            action_views(actions@) == old(self)@.on_draining(event@).1,
    {
        let idle: Vec<Action> = Vec::new();
        assert(action_views(idle@) =~= Seq::empty());
        match event {
            Event::UpgradeBytes(bytes) => self.buffer_upgrade_bytes(bytes),
            Event::PrimaryDrained(drained) => self.complete(drained),
            Event::PrimaryDrainFailed => self.fail(ErrorKind::Transport),
            _ => idle,
        }
    }

    /// Reacts to one event: moves to the next state and returns the actions
    /// to carry out, in order.
    ///
    /// State and actions are those of [`CoordinatorView::transition`]. A
    /// coordinator that has stopped ignores every event. A consistent state
    /// stays consistent.
    pub fn step(&mut self, event: Event) -> (actions: Vec<Action>)
        ensures
            final(self)@ == old(self)@.transition(event@).0,
            action_views(actions@) == old(self)@.transition(event@).1,
            old(self)@.consistent() ==> final(self)@.consistent(),
    {
        proof {
            if self@.consistent() {
                crate::handshake_laws::lemma_transition_performs_once(
                    self@,
                    event@,
                    crate::handshake_laws::Once::WriterFilled,
                );
            }
        }
        match self.phase {
            Phase::Running => self.on_running(event),
            Phase::Draining => self.on_draining(event),
            _ => {
                let idle: Vec<Action> = Vec::new();
                assert(action_views(idle@) =~= Seq::empty());
                idle
            },
        }
    }
}

} // verus!
