//! What holds of every run of the upgrade coordinator.
use vstd::prelude::*;
use crate::channel_message::ChannelMessageView;
use crate::coordinator::{ActionView, CoordinatorView, EventView, Phase};
use crate::error::ErrorKind;

verus! {

/// The things that a coordinator does at most once in its life.
pub enum Once {
    /// Filling the writer slot with the write-half of the upgrade transport.
    WriterFilled,
    /// Filling the reader slot with the read-half of the upgrade transport
    /// and its byte buffer.
    ReaderFilled,
    /// Emitting `Sync`.
    SyncEmitted,
}

/// Whether an action is the given thing.
pub open spec fn performs(action: ActionView, what: Once) -> bool {
    match what {
        Once::WriterFilled => action is PublishWriter,
        Once::ReaderFilled => action is PublishReader,
        Once::SyncEmitted => action matches ActionView::Send(ChannelMessageView::Sync(_)),
    }
}

/// How many of the actions are the given thing.
pub open spec fn times_performed(actions: Seq<ActionView>, what: Once) -> nat
    decreases actions.len(),
{
    if actions.len() == 0 {
        0
    } else {
        times_performed(actions.drop_last(), what) + if performs(actions.last(), what) {
            1nat
        } else {
            0nat
        }
    }
}

/// Whether the state has the given thing on record.
pub open spec fn is_done(state: CoordinatorView, what: Once) -> bool {
    match what {
        Once::WriterFilled => state.writer_published,
        Once::ReaderFilled => state.reader_published,
        Once::SyncEmitted => state.sync_sent,
    }
}

impl CoordinatorView {
    /// The state after a sequence of events, and all actions that the events
    /// called for, in order.
    pub open spec fn run(self, events: Seq<EventView>) -> (CoordinatorView, Seq<ActionView>)
        decreases events.len(),
    {
        if events.len() == 0 {
            (self, Seq::empty())
        } else {
            let (before, earlier) = self.run(events.drop_last());
            let (after, latest) = before.transition(events.last());
            (after, earlier + latest)
        }
    }
}

proof fn lemma_count_of_concat(a: Seq<ActionView>, b: Seq<ActionView>, what: Once)
    ensures
        times_performed(a + b, what) == times_performed(a, what) + times_performed(b, what),
    decreases b.len(),
{
    if b.len() == 0 {
        assert(a + b =~= a);
    } else {
        assert((a + b).drop_last() =~= a + b.drop_last());
        lemma_count_of_concat(a, b.drop_last(), what);
    }
}

proof fn lemma_count_of_one(x: ActionView, what: Once)
    ensures
        times_performed(seq![x], what) == if performs(x, what) {
            1nat
        } else {
            0nat
        },
{
    reveal_with_fuel(times_performed, 2);
    assert(seq![x].drop_last() =~= Seq::<ActionView>::empty());
}

proof fn lemma_count_of_handover(state: CoordinatorView, what: Once)
    ensures
        times_performed(state.writer_handover(), what) == if what is WriterFilled && !state.writer_published {
            1nat
        } else {
            0nat
        },
{
    if !state.writer_published {
        let first = seq![ActionView::ShutdownPrimaryWriter];
        let second = seq![ActionView::PublishWriter];
        assert(state.writer_handover() =~= first + second);
        lemma_count_of_concat(first, second, what);
        lemma_count_of_one(ActionView::ShutdownPrimaryWriter, what);
        lemma_count_of_one(ActionView::PublishWriter, what);
    }
}

/// One transition fills a slot at most once, only if the slot was empty,
/// and never empties it; the same holds of emitting `Sync`. States stay
/// consistent and keep their nonce.
pub proof fn lemma_transition_performs_once(state: CoordinatorView, event: EventView, what: Once)
    requires
        state.consistent(),
    ensures
        state.transition(event).0.consistent(),
        state.transition(event).0.our_id == state.our_id,
        is_done(state, what) ==> is_done(state.transition(event).0, what),
        times_performed(state.transition(event).1, what) == if !is_done(state, what) && is_done(
            state.transition(event).0,
            what,
        ) {
            1nat
        } else {
            0nat
        },
{
    let (after, actions) = state.transition(event);
    let wake = ActionView::WakeReader;
    lemma_count_of_one(wake, what);
    lemma_count_of_handover(state, what);
    match state.phase {
        Phase::Running => {
            match event {
                EventView::UpgradeArrived => {
                    if !state.transport_arrived {
                        let sync = ActionView::Send(ChannelMessageView::Sync(state.our_id));
                        lemma_count_of_one(sync, what);
                        match state.held_sync {
                            Some(peer_id) => {
                                let ack = ActionView::Send(
                                    ChannelMessageView::SyncAck(peer_id, state.our_id),
                                );
                                lemma_count_of_one(ack, what);
                                lemma_count_of_concat(seq![sync], seq![ack], what);
                                lemma_count_of_concat(
                                    seq![sync] + seq![ack],
                                    state.writer_handover(),
                                    what,
                                );
                            },
                            None => {},
                        }
                    }
                },
                EventView::Control(ChannelMessageView::Sync(peer_id)) => {
                    let ack = ActionView::Send(ChannelMessageView::SyncAck(peer_id, state.our_id));
                    lemma_count_of_one(ack, what);
                    lemma_count_of_concat(seq![ack], state.writer_handover(), what);
                },
                EventView::Control(ChannelMessageView::SyncAck(returned_id, peer_id)) => {
                    let ack = ActionView::Send(ChannelMessageView::Ack(peer_id));
                    lemma_count_of_one(ack, what);
                    lemma_count_of_concat(seq![ack], state.writer_handover(), what);
                },
                EventView::Control(ChannelMessageView::Ack(returned_id)) => {
                    lemma_count_of_one(ActionView::DrainPrimaryReader, what);
                },
                _ => {},
            }
        },
        Phase::Draining => {
            match event {
                EventView::PrimaryDrained(drained) => {
                    let publish = ActionView::PublishReader(drained + state.recv_buffer);
                    lemma_count_of_one(publish, what);
                    assert(actions =~= seq![publish] + seq![wake]);
                    lemma_count_of_concat(seq![publish], seq![wake], what);
                },
                _ => {},
            }
        },
        _ => {},
    }
}

/// Every state reached from a fresh coordinator is consistent and keeps its
/// nonce, and over the whole run each slot was filled exactly as often as
/// its flag says: once if it counts as filled, never otherwise. `Sync` is
/// likewise emitted once if the upgrade transport arrived, never otherwise.
pub proof fn lemma_slots_fill_at_most_once(our_id: Seq<char>, events: Seq<EventView>, what: Once)
    ensures
        CoordinatorView::fresh(our_id).run(events).0.consistent(),
        CoordinatorView::fresh(our_id).run(events).0.our_id == our_id,
        times_performed(CoordinatorView::fresh(our_id).run(events).1, what) <= 1,
        times_performed(CoordinatorView::fresh(our_id).run(events).1, what) == 1 <==> is_done(
            CoordinatorView::fresh(our_id).run(events).0,
            what,
        ),
    decreases events.len(),
{
    let fresh = CoordinatorView::fresh(our_id);
    if events.len() == 0 {
    } else {
        lemma_slots_fill_at_most_once(our_id, events.drop_last(), what);
        let (before, earlier) = fresh.run(events.drop_last());
        let (after, latest) = before.transition(events.last());
        lemma_transition_performs_once(before, events.last(), what);
        lemma_count_of_concat(earlier, latest, what);
    }
}

/// A slot that was filled at some point of a run stays filled for the rest
/// of it.
pub proof fn lemma_filled_slot_stays_filled(
    our_id: Seq<char>,
    events: Seq<EventView>,
    more: Seq<EventView>,
    what: Once,
)
    requires
        is_done(CoordinatorView::fresh(our_id).run(events).0, what),
    ensures
        is_done(CoordinatorView::fresh(our_id).run(events + more).0, what),
    decreases more.len(),
{
    if more.len() == 0 {
        assert(events + more =~= events);
    } else {
        lemma_filled_slot_stays_filled(our_id, events, more.drop_last(), what);
        assert((events + more).drop_last() =~= events + more.drop_last());
        lemma_slots_fill_at_most_once(our_id, events + more.drop_last(), what);
        lemma_transition_performs_once(
            CoordinatorView::fresh(our_id).run(events + more.drop_last()).0,
            more.last(),
            what,
        );
    }
}


/// Whether an event is the peer's `SyncAck` for the given nonce.
pub open spec fn acknowledges_sync(event: EventView, our_id: Seq<char>) -> bool {
    match event {
        EventView::Control(ChannelMessageView::SyncAck(returned_id, _)) => returned_id == our_id,
        _ => false,
    }
}

impl CoordinatorView {
    /// Extending a run by one event.
    pub proof fn lemma_run_push(self, events: Seq<EventView>, event: EventView)
        ensures
            self.run(events.push(event)).0 == self.run(events).0.transition(event).0,
            self.run(events.push(event)).1 == self.run(events).1 + self.run(events).0.transition(
                event,
            ).1,
    {
        assert(events.push(event).drop_last() =~= events);
    }

    /// How many `SyncAck`s for our nonce the coordinator took off the control
    /// sub-channel during a run, that is, while it was running.
    pub open spec fn sync_acks_received(self, events: Seq<EventView>) -> nat
        decreases events.len(),
    {
        if events.len() == 0 {
            0
        } else {
            self.sync_acks_received(events.drop_last()) + if self.run(
                events.drop_last(),
            ).0.phase == Phase::Running && acknowledges_sync(events.last(), self.our_id) {
                1nat
            } else {
                0nat
            }
        }
    }
}

/// The `SyncAck` for our `Sync` is received at most once, or the coordinator
/// has stopped with a protocol error: a second one, or one that arrives
/// before `Sync` was emitted, is that error. As long as the coordinator has
/// not failed, it was received once exactly if the acknowledgement is on
/// record.
pub proof fn lemma_sync_ack_received_once(our_id: Seq<char>, events: Seq<EventView>)
    ensures
        ({
            let fresh = CoordinatorView::fresh(our_id);
            let received = fresh.sync_acks_received(events);
            let end = fresh.run(events).0;
            &&& received <= 1 || (received == 2 && end.phase == Phase::Failed(ErrorKind::Protocol))
            &&& !(end.phase is Failed) ==> received == if end.sync_acked {
                1nat
            } else {
                0nat
            }
            &&& end.sync_acked ==> received >= 1
        }),
{
    lemma_sync_ack_excess(our_id, events);
}

/// The number of `SyncAck`s received exceeds the recorded acknowledgement by
/// at most one, and by one only after a protocol error.
proof fn lemma_sync_ack_excess(our_id: Seq<char>, events: Seq<EventView>)
    ensures
        ({
            let fresh = CoordinatorView::fresh(our_id);
            let received = fresh.sync_acks_received(events);
            let end = fresh.run(events).0;
            let acked: nat = if end.sync_acked {
                1
            } else {
                0
            };
            &&& received == acked || received == acked + 1
            &&& received == acked + 1 ==> end.phase == Phase::Failed(ErrorKind::Protocol)
            &&& !(end.phase is Failed) ==> received == acked
        }),
    decreases events.len(),
{
    let fresh = CoordinatorView::fresh(our_id);
    if events.len() == 0 {
    } else {
        lemma_sync_ack_excess(our_id, events.drop_last());
        lemma_slots_fill_at_most_once(our_id, events.drop_last(), Once::SyncEmitted);
    }
}

/// Until the upgrade transport arrives the coordinator sends nothing and
/// publishes nothing: the only action it ever asks for is waking the parked
/// reader when it stops.
pub proof fn lemma_silent_before_transport(our_id: Seq<char>, events: Seq<EventView>)
    requires
        forall|i: int| 0 <= i < events.len() ==> !(#[trigger] events[i] is UpgradeArrived),
    ensures
        ({
            let (end, actions) = CoordinatorView::fresh(our_id).run(events);
            &&& !end.transport_arrived
            &&& !end.sync_sent
            &&& !end.writer_published
            &&& !end.reader_published
            &&& forall|j: int| 0 <= j < actions.len() ==> #[trigger] actions[j] is WakeReader
        }),
    decreases events.len(),
{
    if events.len() == 0 {
    } else {
        let earlier = events.drop_last();
        assert forall|i: int| 0 <= i < earlier.len() implies !(#[trigger] earlier[i]
            is UpgradeArrived) by {
            assert(earlier[i] == events[i]);
        }
        lemma_silent_before_transport(our_id, earlier);
        lemma_slots_fill_at_most_once(our_id, earlier, Once::WriterFilled);
        assert(!(events.last() is UpgradeArrived)) by {
            assert(events.last() == events[events.len() - 1]);
        }
    }
}

/// A `Sync` that arrives before the upgrade transport is held without any
/// reaction; the arrival of the transport then emits our `Sync`, answers the
/// held one with `SyncAck` and fills the writer slot, in this order.
pub proof fn lemma_early_sync_answered_on_arrival(state: CoordinatorView, peer_id: Seq<char>)
    requires
        state.consistent(),
        state.phase == Phase::Running,
        !state.transport_arrived,
        state.held_sync is None,
    ensures
        ({
            let (held, silence) = state.transition(
                EventView::Control(ChannelMessageView::Sync(peer_id)),
            );
            let (after, actions) = held.transition(EventView::UpgradeArrived);
            &&& silence == Seq::<ActionView>::empty()
            &&& held == (CoordinatorView { held_sync: Some(peer_id), ..state })
            &&& actions == seq![
                ActionView::Send(ChannelMessageView::Sync(state.our_id)),
                ActionView::Send(ChannelMessageView::SyncAck(peer_id, state.our_id)),
                ActionView::ShutdownPrimaryWriter,
                ActionView::PublishWriter,
            ]
            &&& after.writer_published
            &&& after.sync_ack_sent
            &&& after.phase == Phase::Running
        }),
{
    let (held, silence) = state.transition(EventView::Control(ChannelMessageView::Sync(peer_id)));
    let (after, actions) = held.transition(EventView::UpgradeArrived);
    assert(actions =~= seq![
        ActionView::Send(ChannelMessageView::Sync(state.our_id)),
        ActionView::Send(ChannelMessageView::SyncAck(peer_id, state.our_id)),
        ActionView::ShutdownPrimaryWriter,
        ActionView::PublishWriter,
    ]);
}

/// A coordinator that stops asks for the parked reader to be woken as its
/// last action; one that has stopped does nothing any more.
pub proof fn lemma_stopping_wakes_reader(state: CoordinatorView, event: EventView)
    ensures
        !state.terminated() && state.transition(event).0.terminated() ==> {
            let actions = state.transition(event).1;
            actions.len() > 0 && actions.last() == ActionView::WakeReader
        },
        state.terminated() ==> state.transition(event) == (state, Seq::<ActionView>::empty()),
{
}

/// What an endpoint receives in a handshake in which both endpoints were
/// given their upgrade transport before either `Sync` arrived: the
/// transport, some early bytes on it, the peer's three messages, and the
/// bytes that were still in flight on the primary transport.
pub open spec fn handshake_events(
    our_id: Seq<char>,
    peer_id: Seq<char>,
    early: Seq<u8>,
    drained: Seq<u8>,
) -> Seq<EventView> {
    seq![
        EventView::UpgradeArrived,
        EventView::UpgradeBytes(early),
        EventView::Control(ChannelMessageView::Sync(peer_id)),
        EventView::Control(ChannelMessageView::SyncAck(our_id, peer_id)),
        EventView::Control(ChannelMessageView::Ack(our_id)),
        EventView::PrimaryDrained(drained),
    ]
}

/// What an endpoint does in such a handshake.
pub open spec fn handshake_actions(
    our_id: Seq<char>,
    peer_id: Seq<char>,
    early: Seq<u8>,
    drained: Seq<u8>,
) -> Seq<ActionView> {
    seq![
        ActionView::Send(ChannelMessageView::Sync(our_id)),
        ActionView::Send(ChannelMessageView::SyncAck(peer_id, our_id)),
        ActionView::ShutdownPrimaryWriter,
        ActionView::PublishWriter,
        ActionView::Send(ChannelMessageView::Ack(peer_id)),
        ActionView::DrainPrimaryReader,
        ActionView::PublishReader(drained + early),
        ActionView::WakeReader,
    ]
}

/// Simultaneous upgrade: an endpoint that is given its transport and then
/// receives the peer's `Sync`, `SyncAck` and `Ack` sends `Sync`, `SyncAck`
/// and `Ack` itself, fills both slots and completes. The three messages
/// that [`handshake_actions`] sends for `(our_id, peer_id)` are the three
/// that [`handshake_events`] receives for `(peer_id, our_id)`, so two such
/// endpoints complete against each other, whatever their nonces. The reader
/// slot receives the drained primary bytes followed by the early bytes, so
/// nothing written during the handshake is lost.
pub proof fn lemma_simultaneous_upgrade_completes(
    our_id: Seq<char>,
    peer_id: Seq<char>,
    early: Seq<u8>,
    drained: Seq<u8>,
)
    ensures
        ({
            let (end, actions) = CoordinatorView::fresh(our_id).run(
                handshake_events(our_id, peer_id, early, drained),
            );
            &&& end.phase == Phase::Completed
            &&& end.writer_published
            &&& end.reader_published
            &&& actions == handshake_actions(our_id, peer_id, early, drained)
        }),
{
    let fresh = CoordinatorView::fresh(our_id);
    let e0 = EventView::UpgradeArrived;
    let e1 = EventView::Control(ChannelMessageView::Sync(peer_id));
    let e2 = EventView::Control(ChannelMessageView::SyncAck(our_id, peer_id));
    let e3 = EventView::Control(ChannelMessageView::Ack(our_id));
    let e4 = EventView::PrimaryDrained(drained);
    let eb = EventView::UpgradeBytes(early);
    let none = Seq::<EventView>::empty();
    fresh.lemma_run_push(none, e0);
    fresh.lemma_run_push(none.push(e0), eb);
    fresh.lemma_run_push(none.push(e0).push(eb), e1);
    fresh.lemma_run_push(none.push(e0).push(eb).push(e1), e2);
    fresh.lemma_run_push(none.push(e0).push(eb).push(e1).push(e2), e3);
    fresh.lemma_run_push(none.push(e0).push(eb).push(e1).push(e2).push(e3), e4);
    assert(handshake_events(our_id, peer_id, early, drained) =~= none.push(e0).push(eb).push(
        e1,
    ).push(e2).push(e3).push(e4));
    let (end, actions) = fresh.run(handshake_events(our_id, peer_id, early, drained));
    assert(Seq::<u8>::empty() + early =~= early);
    assert(actions =~= handshake_actions(our_id, peer_id, early, drained));
}

/// What an endpoint receives in a handshake in which the peer's `Sync`
/// arrives before the endpoint is given its own upgrade transport.
pub open spec fn late_handshake_events(
    our_id: Seq<char>,
    peer_id: Seq<char>,
    early: Seq<u8>,
    drained: Seq<u8>,
) -> Seq<EventView> {
    seq![
        EventView::Control(ChannelMessageView::Sync(peer_id)),
        EventView::UpgradeArrived,
        EventView::UpgradeBytes(early),
        EventView::Control(ChannelMessageView::SyncAck(our_id, peer_id)),
        EventView::Control(ChannelMessageView::Ack(our_id)),
        EventView::PrimaryDrained(drained),
    ]
}

/// Upgrade issued by the peer first: the endpoint holds the peer's `Sync`,
/// and once it is given its own transport it does exactly what it does in a
/// simultaneous upgrade, in the same order, and completes. So does its peer,
/// which receives the same three messages as in a simultaneous upgrade.
pub proof fn lemma_late_upgrade_completes(
    our_id: Seq<char>,
    peer_id: Seq<char>,
    early: Seq<u8>,
    drained: Seq<u8>,
)
    ensures
        ({
            let (end, actions) = CoordinatorView::fresh(our_id).run(
                late_handshake_events(our_id, peer_id, early, drained),
            );
            &&& end.phase == Phase::Completed
            &&& end.writer_published
            &&& end.reader_published
            &&& actions == handshake_actions(our_id, peer_id, early, drained)
        }),
{
    let fresh = CoordinatorView::fresh(our_id);
    let e0 = EventView::Control(ChannelMessageView::Sync(peer_id));
    let e1 = EventView::UpgradeArrived;
    let e2 = EventView::UpgradeBytes(early);
    let e3 = EventView::Control(ChannelMessageView::SyncAck(our_id, peer_id));
    let e4 = EventView::Control(ChannelMessageView::Ack(our_id));
    let e5 = EventView::PrimaryDrained(drained);
    let none = Seq::<EventView>::empty();
    fresh.lemma_run_push(none, e0);
    fresh.lemma_run_push(none.push(e0), e1);
    fresh.lemma_run_push(none.push(e0).push(e1), e2);
    fresh.lemma_run_push(none.push(e0).push(e1).push(e2), e3);
    fresh.lemma_run_push(none.push(e0).push(e1).push(e2).push(e3), e4);
    fresh.lemma_run_push(none.push(e0).push(e1).push(e2).push(e3).push(e4), e5);
    assert(late_handshake_events(our_id, peer_id, early, drained) =~= none.push(e0).push(e1).push(
        e2,
    ).push(e3).push(e4).push(e5));
    let (end, actions) = fresh.run(late_handshake_events(our_id, peer_id, early, drained));
    assert(Seq::<u8>::empty() + early =~= early);
    assert(actions =~= handshake_actions(our_id, peer_id, early, drained));
}

} // verus!
