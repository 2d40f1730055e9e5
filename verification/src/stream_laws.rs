//! What holds of the bytes that a user of the facade reads, across the
//! handover from the primary transport to the upgrade transport.
use vstd::prelude::*;
use crate::channel::{ReadPlanView, UpgradableChannelView};
use crate::coordinator::{ActionView, CoordinatorView, EventView, Phase};

verus! {

impl UpgradableChannelView {
    /// The state after a sequence of reads, each into the given number of
    /// free bytes, and the bytes that the reads took from the buffer paired
    /// with the reader slot, in order.
    pub open spec fn read_all(self, capacities: Seq<nat>) -> (UpgradableChannelView, Seq<u8>)
        decreases capacities.len(),
    {
        if capacities.len() == 0 {
            (self, Seq::empty())
        } else {
            let (before, earlier) = self.read_all(capacities.drop_last());
            let (after, plan) = before.plan_read(capacities.last());
            (
                after,
                match plan {
                    ReadPlanView::Buffered(bytes) => earlier + bytes,
                    _ => earlier,
                },
            )
        }
    }
}

/// One read hands out a front piece of the buffer and keeps the rest: no
/// byte is lost, doubled or moved. It hands out as many bytes as fit, goes
/// to the upgrade transport only when the buffer is empty, and never goes
/// back to the primary transport once the reader slot is filled. Where a
/// write goes is not changed by a read.
pub proof fn lemma_read_takes_front_of_buffer(
    state: UpgradableChannelView,
    buffer: Seq<u8>,
    capacity: nat,
)
    requires
        state.reader_buffer == Some(buffer),
    ensures
        ({
            let (after, plan) = state.plan_read(capacity);
            &&& after.reader_buffer is Some
            &&& after.write_route() == state.write_route()
            &&& match plan {
                ReadPlanView::Buffered(bytes) => {
                    &&& buffer.len() > 0
                    &&& bytes + after.reader_buffer->0 == buffer
                    &&& bytes.len() == if buffer.len() <= capacity {
                        buffer.len()
                    } else {
                        capacity
                    }
                },
                ReadPlanView::Upgrade => buffer.len() == 0 && after == state,
                ReadPlanView::Primary => false,
            }
        }),
{
    let (after, plan) = state.plan_read(capacity);
    if buffer.len() > 0 {
        assert(plan->Buffered_0 + after.reader_buffer->0 =~= buffer);
    }
}

/// However the user sizes their reads, the bytes that come out of the buffer
/// followed by the bytes still in it are the buffer that the reader slot was
/// filled with; the slot stays filled.
pub proof fn lemma_buffer_is_delivered_in_order(
    state: UpgradableChannelView,
    buffer: Seq<u8>,
    capacities: Seq<nat>,
)
    requires
        state.reader_buffer == Some(buffer),
    ensures
        ({
            let (after, delivered) = state.read_all(capacities);
            &&& after.reader_buffer is Some
            &&& delivered + after.reader_buffer->0 == buffer
        }),
    decreases capacities.len(),
{
    if capacities.len() == 0 {
        assert(Seq::<u8>::empty() + buffer =~= buffer);
    } else {
        lemma_buffer_is_delivered_in_order(state, buffer, capacities.drop_last());
        let (before, earlier) = state.read_all(capacities.drop_last());
        let (after, plan) = before.plan_read(capacities.last());
        lemma_read_takes_front_of_buffer(before, before.reader_buffer->0, capacities.last());
        let (end, delivered) = state.read_all(capacities);
        assert(delivered + end.reader_buffer->0 =~= buffer);
    }
}

/// Before the reader slot is filled every read goes to the primary
/// transport and leaves the facade as it was.
pub proof fn lemma_reads_go_to_primary_before_handover(
    state: UpgradableChannelView,
    capacity: nat,
)
    requires
        state.reader_buffer is None,
    ensures
        state.plan_read(capacity) == (state, ReadPlanView::Primary),
{
}

/// Handover keeps the order of the bytes. Let the peer have written
/// `written`, the first `switch` bytes of it to the primary transport and
/// the rest to the upgrade transport. Let the user have read the first
/// `seen` bytes from the primary transport, and let the coordinator hold the
/// first `early` bytes of the upgrade transport when the peer's `Ack` has
/// arrived. Then draining the primary transport fills the reader slot with
/// exactly the bytes from `seen` up to `switch + early`, and the bytes read
/// before, the slot's buffer and the bytes still to come on the upgrade
/// transport make up `written`, in its order.
pub proof fn lemma_handover_preserves_byte_order(
    state: CoordinatorView,
    written: Seq<u8>,
    seen: int,
    switch: int,
    early: int,
)
    requires
        state.phase == Phase::Draining,
        0 <= seen <= switch,
        0 <= early,
        switch + early <= written.len(),
        state.recv_buffer == written.subrange(switch, switch + early),
    ensures
        ({
            let drained = written.subrange(seen, switch);
            let (after, actions) = state.transition(EventView::PrimaryDrained(drained));
            let buffer = written.subrange(seen, switch + early);
            &&& after.phase == Phase::Completed
            &&& after.reader_published
            &&& actions == seq![ActionView::PublishReader(buffer), ActionView::WakeReader]
            &&& written.subrange(0, seen) + buffer + written.subrange(
                switch + early,
                written.len() as int,
            ) == written
        }),
{
    let drained = written.subrange(seen, switch);
    let buffer = written.subrange(seen, switch + early);
    assert(drained + state.recv_buffer =~= buffer);
    assert(written.subrange(0, seen) + buffer + written.subrange(
        switch + early,
        written.len() as int,
    ) =~= written);
}

} // verus!
