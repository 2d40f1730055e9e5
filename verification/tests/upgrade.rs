//! Two endpoints joined by an in-memory primary transport and an in-memory
//! upgrade transport, driven step by step in an order that a fixed seed
//! picks: the library decides, this file only moves bytes.
use upgradable_channel::channel::{ReadPlan, Route, UpgradableChannel};
use upgradable_channel::channel_message::ChannelMessage;
use upgradable_channel::control_codec::{frame_channel_message, next_control_event};
use upgradable_channel::coordinator::{Action, Coordinator, Event, Phase};
use upgradable_channel::error::ErrorKind;
use upgradable_channel::interleaved_channel::{
    Child, InboundAction, InboundForwarder, OutboundAction, OutboundEvent, OutboundForwarder,
    CHILD_PIPE_CAPACITY,
};
use upgradable_channel::layer_codec::{frame_layer_message, next_inbound_event};
use upgradable_channel::utils::is_prefix;

struct Dice(u64);

impl Dice {
    fn roll(&mut self, sides: usize) -> usize {
        self.0 = self.0.wrapping_mul(6364136223846793005).wrapping_add(1442695040888963407);
        ((self.0 >> 33) as usize) % sides
    }

    fn bytes(&mut self, count: usize) -> Vec<u8> {
        (0..count).map(|_| self.roll(256) as u8).collect()
    }
}

fn take_front(queue: &mut Vec<u8>, at_most: usize) -> Vec<u8> {
    let count = at_most.min(queue.len());
    queue.drain(..count).collect()
}

struct Endpoint {
    facade: UpgradableChannel,
    coordinator: Coordinator,
    outbound: OutboundForwarder,
    inbound: InboundForwarder,
    /// Bytes in flight on the primary transport towards this endpoint.
    wire_in: Vec<u8>,
    /// Bytes that arrived on the primary transport and are not yet a frame.
    wire_pending: Vec<u8>,
    /// Read pipe of the data sub-channel.
    data_pipe: Vec<u8>,
    data_closed: bool,
    /// Read pipe of the control sub-channel.
    control_pipe: Vec<u8>,
    /// Bytes in flight on the upgrade transport towards this endpoint.
    upgrade_in: Vec<u8>,
    draining: bool,
    woken: usize,
    to_send: Vec<u8>,
    sent: usize,
    received: Vec<u8>,
    log: Vec<Action>,
}

impl Endpoint {
    fn new(id: u16, nonce: &str, to_send: Vec<u8>) -> Endpoint {
        Endpoint {
            facade: UpgradableChannel::new(id, format!("endpoint-{}", id)),
            coordinator: Coordinator::with_id(nonce.to_string()),
            outbound: OutboundForwarder::new(),
            inbound: InboundForwarder::new(),
            wire_in: Vec::new(),
            wire_pending: Vec::new(),
            data_pipe: Vec::new(),
            data_closed: false,
            control_pipe: Vec::new(),
            upgrade_in: Vec::new(),
            draining: false,
            woken: 0,
            to_send,
            sent: 0,
            received: Vec::new(),
            log: Vec::new(),
        }
    }
}

struct World {
    ends: [Endpoint; 2],
}

impl World {
    fn new(size: usize, seed: u64) -> World {
        let mut dice = Dice(seed);
        World {
            ends: [
                Endpoint::new(1, "local-nonce-0123456789abcdefghij", dice.bytes(size)),
                Endpoint::new(2, "remote-nonce-0123456789abcdefghi", dice.bytes(size)),
            ],
        }
    }

    /// The forwarder of endpoint `i` reads `bytes` from a child's write pipe.
    fn child_write(&mut self, i: usize, child: Child, bytes: &[u8]) {
        for chunk in bytes.chunks(CHILD_PIPE_CAPACITY) {
            self.outbound_event(i, OutboundEvent::Read(child, chunk.to_vec()));
        }
    }

    fn outbound_event(&mut self, i: usize, event: OutboundEvent) {
        match self.ends[i].outbound.step(event) {
            OutboundAction::Send(frame) => {
                let framed = frame_layer_message(&frame).unwrap();
                self.ends[1 - i].wire_in.extend(framed);
            }
            OutboundAction::Skip => {}
            OutboundAction::Stop(kind) => panic!("outbound loop stopped: {:?}", kind),
        }
    }

    fn user_write(&mut self, i: usize, at_most: usize) {
        let from = self.ends[i].sent;
        let to = (from + at_most).min(self.ends[i].to_send.len());
        let bytes = self.ends[i].to_send[from..to].to_vec();
        match self.ends[i].facade.write_route() {
            Route::Primary => self.child_write(i, Child::First, &bytes),
            Route::Upgrade => self.ends[1 - i].upgrade_in.extend(bytes),
        }
        self.ends[i].sent = to;
    }

    fn user_read(&mut self, i: usize, capacity: usize) {
        let before = self.ends[i].received.len();
        self.read_into_received(i, capacity);
        // what was just read continues what the peer sent
        let after = self.ends[i].received.len();
        assert!(after <= self.ends[1 - i].to_send.len());
        assert_eq!(self.ends[i].received[before..], self.ends[1 - i].to_send[before..after]);
    }

    fn read_into_received(&mut self, i: usize, capacity: usize) {
        let end = &mut self.ends[i];
        match end.facade.plan_read(capacity) {
            ReadPlan::Buffered(bytes) => {
                assert!(!bytes.is_empty() && bytes.len() <= capacity);
                end.received.extend(bytes)
            }
            ReadPlan::Upgrade => {
                let bytes = take_front(&mut end.upgrade_in, capacity);
                end.received.extend(bytes);
            }
            ReadPlan::Primary => {
                let bytes = take_front(&mut end.data_pipe, capacity);
                let pending = bytes.is_empty();
                assert_eq!(end.facade.primary_read_polled(pending), pending);
                end.received.extend(bytes);
            }
        }
    }

    /// Lets up to `arrived` bytes of the primary transport reach endpoint `i`.
    fn pump_wire(&mut self, i: usize, arrived: usize) {
        let end = &mut self.ends[i];
        let bytes = take_front(&mut end.wire_in, arrived);
        end.wire_pending.extend(bytes);
        while let Some(event) = next_inbound_event(&mut end.wire_pending) {
            match end.inbound.step(event) {
                InboundAction::Deliver(Child::First, bytes) => end.data_pipe.extend(bytes),
                InboundAction::Deliver(Child::Second, bytes) => end.control_pipe.extend(bytes),
                InboundAction::Shutdown(Child::First) => end.data_closed = true,
                InboundAction::Shutdown(Child::Second) => {}
                InboundAction::Skip => {}
                InboundAction::Stop(kind) => panic!("inbound loop stopped: {:?}", kind),
            }
        }
    }

    fn pump_control(&mut self, i: usize) {
        while let Some(event) = next_control_event(&mut self.ends[i].control_pipe) {
            self.coordinator_event(i, event);
        }
    }

    fn coordinator_event(&mut self, i: usize, event: Event) {
        let actions = self.ends[i].coordinator.step(event);
        for action in actions {
            self.ends[i].log.push(action.clone());
            match action {
                Action::Send(message) => {
                    let framed = frame_channel_message(&message).unwrap();
                    self.child_write(i, Child::Second, &framed);
                }
                Action::ShutdownPrimaryWriter => {
                    self.outbound_event(i, OutboundEvent::Read(Child::First, vec![]))
                }
                Action::PublishWriter => self.ends[i].facade.publish_writer(),
                Action::DrainPrimaryReader => self.ends[i].draining = true,
                Action::PublishReader(buffer) => self.ends[i].facade.publish_reader(buffer),
                Action::WakeReader => {
                    if self.ends[i].facade.take_parked_reader() {
                        self.ends[i].woken += 1;
                    }
                }
            }
        }
    }

    /// The coordinator reads the primary data sub-channel to its end.
    fn try_drain(&mut self, i: usize) {
        if self.ends[i].draining && self.ends[i].data_closed {
            self.ends[i].draining = false;
            let drained = std::mem::take(&mut self.ends[i].data_pipe);
            self.coordinator_event(i, Event::PrimaryDrained(drained));
        }
    }

    /// The coordinator reads early bytes off the upgrade transport.
    fn read_early(&mut self, i: usize, at_most: usize) {
        if self.ends[i].coordinator.wants_upgrade_bytes() && !self.ends[i].upgrade_in.is_empty() {
            let bytes = take_front(&mut self.ends[i].upgrade_in, at_most);
            self.coordinator_event(i, Event::UpgradeBytes(bytes));
        }
    }

    fn done(&self) -> bool {
        self.ends[0].received.len() == self.ends[1].to_send.len()
            && self.ends[1].received.len() == self.ends[0].to_send.len()
    }

    fn check_prefixes(&self) {
        assert!(is_prefix(&self.ends[0].received, &self.ends[1].to_send));
        assert!(is_prefix(&self.ends[1].received, &self.ends[0].to_send));
    }

    /// Runs the transfer. Endpoint `i` is given its upgrade transport at
    /// step `upgrade_at[i]`, if at all. `sluggish` makes the transports
    /// deliver rarely and little.
    fn run(&mut self, dice: &mut Dice, upgrade_at: [Option<usize>; 2], sluggish: bool) -> usize {
        let size = self.ends[0].to_send.len();
        let mut step = 0;
        while !self.done() {
            for i in 0..2 {
                if upgrade_at[i] == Some(step) {
                    self.coordinator_event(i, Event::UpgradeArrived);
                }
            }
            let i = dice.roll(2);
            match dice.roll(if sluggish { 12 } else { 6 }) {
                0 => self.user_write(i, 8 + dice.roll(size / 10)),
                1 => self.user_read(i, 1 + dice.roll(CHILD_PIPE_CAPACITY)),
                2 => {
                    let arrived = if sluggish { 1 + dice.roll(256) } else { 1 + dice.roll(8_192) };
                    self.pump_wire(i, arrived)
                }
                3 => self.pump_control(i),
                4 => self.read_early(i, 1 + dice.roll(CHILD_PIPE_CAPACITY)),
                5 => self.try_drain(i),
                _ => {
                    if dice.roll(4) == 0 {
                        self.user_write(i, 1 + dice.roll(32))
                    } else {
                        self.user_read(i, 1 + dice.roll(16))
                    }
                }
            }
            if step % 512 == 0 {
                self.check_prefixes();
            }
            step += 1;
            assert!(step < 20_000_000, "the transfer does not end");
        }
        self.check_prefixes();
        assert_eq!(self.ends[0].received, self.ends[1].to_send);
        assert_eq!(self.ends[1].received, self.ends[0].to_send);
        step
    }

    /// Lets everything that is still under way arrive.
    fn settle(&mut self) {
        for _ in 0..8 {
            for i in 0..2 {
                self.pump_wire(i, usize::MAX);
                self.pump_control(i);
                self.read_early(i, usize::MAX);
                self.try_drain(i);
            }
        }
    }
}

fn count(log: &[Action], wanted: fn(&Action) -> bool) -> usize {
    log.iter().filter(|action| wanted(action)).count()
}

fn assert_slots_filled_once(end: &Endpoint) {
    assert_eq!(end.coordinator.phase(), Phase::Completed);
    assert!(end.facade.is_writer_upgraded());
    assert!(end.facade.is_reader_upgraded());
    assert_eq!(count(&end.log, |a| matches!(a, Action::PublishWriter)), 1);
    assert_eq!(count(&end.log, |a| matches!(a, Action::PublishReader(_))), 1);
    assert_eq!(count(&end.log, |a| matches!(a, Action::Send(ChannelMessage::Sync(_)))), 1);
    assert!(matches!(end.log.last(), Some(Action::WakeReader)));
}

#[test]
fn transfer_without_upgrade() {
    let mut world = World::new(65_536, 1);
    world.run(&mut Dice(11), [None, None], false);
    world.settle();
    for end in &world.ends {
        assert_eq!(end.coordinator.phase(), Phase::Running);
        assert!(!end.facade.is_writer_upgraded());
        assert!(!end.facade.is_reader_upgraded());
        assert!(end.log.is_empty());
        assert!(end.upgrade_in.is_empty());
    }
}

#[test]
fn upgrade_before_the_first_byte() {
    let mut world = World::new(65_536, 2);
    world.coordinator_event(0, Event::UpgradeArrived);
    world.coordinator_event(1, Event::UpgradeArrived);
    world.settle();
    for end in &world.ends {
        assert_slots_filled_once(end);
        assert!(end.received.is_empty());
    }
    world.run(&mut Dice(22), [None, None], false);
    for end in &world.ends {
        // everything travelled on the upgrade transport
        assert!(end.data_pipe.is_empty());
        assert_slots_filled_once(end);
    }
}

#[test]
fn upgrade_during_streaming() {
    for seed in 0..16u64 {
        let mut dice = Dice(seed + 100);
        let mut world = World::new(65_536, seed);
        let upgrade_at = [Some(5 + dice.roll(120)), Some(5 + dice.roll(120))];
        world.run(&mut dice, upgrade_at, false);
        world.settle();
        for end in &world.ends {
            assert_slots_filled_once(end);
        }
    }
}

#[test]
fn upgrades_to_a_new_channel() {
    for size in [100usize, 220, 500, 1_000, 2_000, 4_000, 8_000, 16_000, 30_000, 64_000] {
        let mut dice = Dice(size as u64);
        let mut world = World::new(size, size as u64 + 1);
        let upgrade_at = [Some(dice.roll(25)), Some(dice.roll(25))];
        world.run(&mut dice, upgrade_at, false);
        world.settle();
        for end in &world.ends {
            assert_slots_filled_once(end);
        }
    }
}

#[test]
fn upgrades_to_a_new_channel_channels_latency() {
    for seed in 0..4u64 {
        let mut dice = Dice(seed + 500);
        let size = if seed == 0 { 65_536 } else { 16_384 };
        let mut world = World::new(size, seed + 50);
        let upgrade_at = [Some(5 + dice.roll(250)), Some(5 + dice.roll(250))];
        world.run(&mut dice, upgrade_at, true);
        world.settle();
        for end in &world.ends {
            assert_slots_filled_once(end);
        }
    }
}

#[test]
fn upgrade_that_only_one_side_asks_for_does_not_happen() {
    let mut world = World::new(32_768, 3);
    world.run(&mut Dice(33), [Some(10), None], false);
    world.settle();
    assert_eq!(world.ends[0].coordinator.phase(), Phase::Running);
    assert_eq!(world.ends[1].coordinator.phase(), Phase::Running);
    assert_eq!(world.ends[0].log, vec![Action::Send(ChannelMessage::Sync(
        "local-nonce-0123456789abcdefghij".to_string()
    ))]);
    // the peer holds the Sync and has done nothing
    assert!(world.ends[1].log.is_empty());
    for end in &world.ends {
        assert!(!end.facade.is_writer_upgraded());
        assert!(!end.facade.is_reader_upgraded());
    }
    // once the peer is given its transport, both complete
    world.coordinator_event(1, Event::UpgradeArrived);
    world.settle();
    for end in &world.ends {
        assert_slots_filled_once(end);
    }
}

#[test]
fn upgrade_after_the_last_byte() {
    let mut world = World::new(4_096, 4);
    world.run(&mut Dice(44), [None, None], false);
    world.coordinator_event(0, Event::UpgradeArrived);
    world.coordinator_event(1, Event::UpgradeArrived);
    world.settle();
    for end in &world.ends {
        assert_slots_filled_once(end);
        assert_eq!(end.log.iter().filter(|a| matches!(a, Action::PublishReader(b) if b.is_empty())).count(), 1);
    }
}

#[test]
fn bad_sync_ack_stops_the_coordinator_and_wakes_the_reader() {
    let mut world = World::new(1_024, 5);
    world.coordinator_event(0, Event::UpgradeArrived);
    // the user's read finds nothing and parks
    world.user_read(0, 16);
    assert!(world.ends[0].facade.is_reader_parked());
    // a SyncAck with a nonce that is not ours arrives on the control sub-channel
    let bad = ChannelMessage::SyncAck("somebody-else".to_string(), "peer".to_string());
    let framed = frame_channel_message(&bad).unwrap();
    let frame = upgradable_channel::interleaved_channel::LayerMessage::Channel2(framed);
    world.ends[0].wire_in.extend(frame_layer_message(&frame).unwrap());
    world.pump_wire(0, usize::MAX);
    world.pump_control(0);
    let end = &mut world.ends[0];
    assert_eq!(end.coordinator.phase(), Phase::Failed(ErrorKind::Protocol));
    assert_eq!(end.log.last(), Some(&Action::WakeReader));
    assert_eq!(end.woken, 1);
    assert!(!end.facade.is_reader_parked());
    assert!(!end.facade.is_writer_upgraded());
    assert!(!end.facade.is_reader_upgraded());
    // the facade goes on with the primary transport
    assert_eq!(end.facade.plan_read(16), ReadPlan::Primary);
    assert_eq!(end.facade.write_route(), Route::Primary);
}

#[test]
fn malformed_control_frame_stops_the_coordinator() {
    let mut world = World::new(16, 6);
    world.coordinator_event(1, Event::UpgradeArrived);
    world.ends[1].control_pipe.extend([0, 0, 0, 2, 9, 9]);
    world.pump_control(1);
    assert_eq!(world.ends[1].coordinator.phase(), Phase::Failed(ErrorKind::Protocol));
    assert_eq!(world.ends[1].log.last(), Some(&Action::WakeReader));
}
