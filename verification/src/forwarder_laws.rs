//! What holds of every run of the divider's forwarder.
use vstd::prelude::*;
use crate::interleaved_channel::{
    Child,
    InboundActionView,
    InboundEventView,
    InboundForwarder,
    LayerMessageView,
    OutboundActionView,
    OutboundEventView,
    OutboundForwarder,
    Side,
};

verus! {

impl OutboundForwarder {
    /// The state after a sequence of events, and the frames that were put on
    /// the shared transport, in order.
    pub open spec fn run(self, events: Seq<OutboundEventView>) -> (
        OutboundForwarder,
        Seq<LayerMessageView>,
    )
        decreases events.len(),
    {
        if events.len() == 0 {
            (self, Seq::empty())
        } else {
            let (before, earlier) = self.run(events.drop_last());
            let (after, action) = before.transition(events.last());
            (
                after,
                match action {
                    OutboundActionView::Send(frame) => earlier.push(frame),
                    _ => earlier,
                },
            )
        }
    }
}

impl InboundForwarder {
    /// The state after a sequence of frames that arrived on the shared
    /// transport, and what was done for each of them, in order.
    pub open spec fn run(self, frames: Seq<LayerMessageView>) -> (
        InboundForwarder,
        Seq<InboundActionView>,
    )
        decreases frames.len(),
    {
        if frames.len() == 0 {
            (self, Seq::empty())
        } else {
            let (before, earlier) = self.run(frames.drop_last());
            let (after, action) = before.transition(InboundEventView::Frame(frames.last()));
            (after, earlier.push(action))
        }
    }
}

/// Whether every event is a read from a child's write pipe.
pub open spec fn only_reads(events: Seq<OutboundEventView>) -> bool {
    forall|i: int| 0 <= i < events.len() ==> #[trigger] events[i] is Read
}

/// Whether the events hold a read of no bytes from the child: its writer was
/// closed, or the child was dropped.
pub open spec fn closed_within(events: Seq<OutboundEventView>, child: Child) -> bool
    decreases events.len(),
{
    if events.len() == 0 {
        false
    } else {
        closed_within(events.drop_last(), child) || events.last() == OutboundEventView::Read(
            child,
            Seq::<u8>::empty(),
        )
    }
}

/// The bytes that the child's user wrote and that the reads took off its
/// pipe: those of all reads from the child up to the first read of no bytes.
pub open spec fn accepted(events: Seq<OutboundEventView>, child: Child) -> Seq<u8>
    decreases events.len(),
{
    if events.len() == 0 {
        Seq::empty()
    } else {
        let earlier = accepted(events.drop_last(), child);
        match events.last() {
            OutboundEventView::Read(from, bytes) => if from == child && !closed_within(
                events.drop_last(),
                child,
            ) {
                earlier + bytes
            } else {
                earlier
            },
            _ => earlier,
        }
    }
}

/// The bytes that were written to the child's read pipe, in order.
pub open spec fn delivered(actions: Seq<InboundActionView>, child: Child) -> Seq<u8>
    decreases actions.len(),
{
    if actions.len() == 0 {
        Seq::empty()
    } else {
        let earlier = delivered(actions.drop_last(), child);
        match actions.last() {
            InboundActionView::Deliver(to, bytes) => if to == child {
                earlier + bytes
            } else {
                earlier
            },
            _ => earlier,
        }
    }
}

/// Whether the actions shut the child's read pipe down.
pub open spec fn shut_down(actions: Seq<InboundActionView>, child: Child) -> bool {
    exists|i: int| 0 <= i < actions.len() && #[trigger] actions[i] == InboundActionView::Shutdown(
        child,
    )
}

/// The divider preserves each sub-channel: whatever the two users write
/// into their children on one endpoint, in whatever interleaving and
/// whichever child is closed or dropped in between, the forwarder of the
/// other endpoint accepts every frame, and delivers to each child exactly
/// the bytes that were taken from the same child, in the same order. A child
/// is shut down exactly if its counterpart's writer was closed.
pub proof fn lemma_divider_preserves_each_sub_channel(
    events: Seq<OutboundEventView>,
    child: Child,
)
    requires
        only_reads(events),
    ensures
        ({
            let (sender, frames) = OutboundForwarder::spec_new().run(events);
            let (receiver, actions) = InboundForwarder::spec_new().run(frames);
            &&& sender.stopped is None
            &&& receiver.stopped is None
            &&& delivered(actions, child) == accepted(events, child)
            &&& sender.spec_is_closed(child) == closed_within(events, child)
            &&& receiver.spec_side(child) == if closed_within(events, child) {
                Side::Closed
            } else {
                Side::Open
            }
            &&& shut_down(actions, child) == closed_within(events, child)
            &&& forall|i: int| 0 <= i < actions.len() ==> !(#[trigger] actions[i] is Stop)
        }),
    decreases events.len(),
{
    let (sender, frames) = OutboundForwarder::spec_new().run(events);
    let (receiver, actions) = InboundForwarder::spec_new().run(frames);
    if events.len() == 0 {
        assert(!shut_down(actions, child));
    } else {
        let earlier = events.drop_last();
        assert(only_reads(earlier)) by {
            assert forall|i: int| 0 <= i < earlier.len() implies #[trigger] earlier[i] is Read by {
                assert(earlier[i] == events[i]);
            }
        }
        lemma_divider_preserves_each_sub_channel(earlier, child);
        lemma_divider_preserves_each_sub_channel(earlier, child.spec_other());
        let (sender0, frames0) = OutboundForwarder::spec_new().run(earlier);
        let (receiver0, actions0) = InboundForwarder::spec_new().run(frames0);
        assert(events.last() is Read) by {
            assert(events.last() == events[events.len() - 1]);
        }
        match events.last() {
            OutboundEventView::Read(from, bytes) => {
                if sender0.spec_is_closed(from) {
                    assert(frames == frames0);
                    if from == child && bytes.len() == 0 {
                        assert(bytes =~= Seq::<u8>::empty());
                    }
                } else {
                    let frame = LayerMessageView::new(from, bytes);
                    assert(frames == frames0.push(frame));
                    assert(frames.drop_last() =~= frames0);
                    let action = receiver0.transition(InboundEventView::Frame(frame)).1;
                    assert(actions == actions0.push(action));
                    assert(actions.drop_last() =~= actions0);
                    assert(receiver0.spec_side(from) == Side::Open);
                    if bytes.len() == 0 {
                        assert(bytes =~= Seq::<u8>::empty());
                        assert(accepted(earlier, child) + bytes =~= accepted(earlier, child));
                        assert(action == InboundActionView::Shutdown(from));
                    } else {
                        assert(action == InboundActionView::Deliver(from, bytes));
                    }
                    if shut_down(actions0, child) {
                        let i = choose|i: int|
                            0 <= i < actions0.len() && #[trigger] actions0[i]
                                == InboundActionView::Shutdown(child);
                        assert(actions[i] == InboundActionView::Shutdown(child));
                    }
                    if from == child && bytes.len() == 0 {
                        assert(actions[actions.len() - 1] == InboundActionView::Shutdown(child));
                    }
                    if shut_down(actions, child) {
                        let i = choose|i: int|
                            0 <= i < actions.len() && #[trigger] actions[i]
                                == InboundActionView::Shutdown(child);
                        if i < actions0.len() {
                            assert(actions0[i] == InboundActionView::Shutdown(child));
                        }
                    }
                    assert forall|i: int| 0 <= i < actions.len() implies !(#[trigger] actions[i]
                        is Stop) by {
                        if i < actions0.len() {
                            assert(actions[i] == actions0[i]);
                        }
                    }
                }
            },
            _ => {},
        }
    }
}

/// The children do not disturb each other on the way in: an event that
/// concerns one child, be it a frame for it or the news that its owner
/// dropped it, leaves the other child's read side as it was and asks for
/// nothing that touches the other child.
pub proof fn lemma_inbound_children_are_isolated(
    state: InboundForwarder,
    event: InboundEventView,
    child: Child,
)
    requires
        state.stopped is None,
        match event {
            InboundEventView::Frame(frame) => frame.child() == child.spec_other(),
            InboundEventView::Dropped(dropped) => dropped == child.spec_other(),
            _ => false,
        },
    ensures
        state.transition(event).0.spec_side(child) == state.spec_side(child),
        match state.transition(event).1 {
            InboundActionView::Deliver(to, _) => to != child,
            InboundActionView::Shutdown(to) => to != child,
            InboundActionView::Skip => true,
            InboundActionView::Stop(_) => state.spec_side(child.spec_other()) == Side::Closed,
        },
{
}

/// What the inbound loop does with a frame depends on the read side of the
/// frame's own child alone: two running loops that agree on it do the same,
/// wherever the other child stands, open, dropped or closed.
pub proof fn lemma_inbound_frame_ignores_other_child(
    one: InboundForwarder,
    other: InboundForwarder,
    frame: LayerMessageView,
)
    requires
        one.stopped is None,
        other.stopped is None,
        one.spec_side(frame.child()) == other.spec_side(frame.child()),
    ensures
        one.transition(InboundEventView::Frame(frame)).1 == other.transition(
            InboundEventView::Frame(frame),
        ).1,
        one.transition(InboundEventView::Frame(frame)).0.spec_side(frame.child())
            == other.transition(InboundEventView::Frame(frame)).0.spec_side(frame.child()),
{
}

/// The children do not disturb each other on the way out: what the outbound
/// loop does with a read from one child depends on that child alone, and
/// leaves the polling of the other child as it was.
pub proof fn lemma_outbound_children_are_isolated(
    one: OutboundForwarder,
    other: OutboundForwarder,
    child: Child,
    bytes: Seq<u8>,
)
    requires
        one.stopped is None,
        other.stopped is None,
        one.spec_is_closed(child) == other.spec_is_closed(child),
    ensures
        one.transition(OutboundEventView::Read(child, bytes)).1 == other.transition(
            OutboundEventView::Read(child, bytes),
        ).1,
        one.transition(OutboundEventView::Read(child, bytes)).0.spec_polls(child.spec_other())
            == one.spec_polls(child.spec_other()),
{
}

} // verus!
