use upgradable_channel::channel::{ReadPlan, Route, UpgradableChannel};

#[test]
fn fresh_facade_uses_the_primary_transport() {
    let mut channel = UpgradableChannel::new(7, "primary".to_string());
    assert_eq!(channel.id(), 7);
    assert_eq!(channel.label(), "primary");
    assert!(!channel.is_writer_upgraded());
    assert!(!channel.is_reader_upgraded());
    assert!(!channel.is_reader_parked());
    assert_eq!(channel.write_route(), Route::Primary);
    assert_eq!(channel.plan_read(16), ReadPlan::Primary);
    assert_eq!(channel.plan_read(0), ReadPlan::Primary);
}

#[test]
fn writes_follow_the_writer_slot() {
    let mut channel = UpgradableChannel::new(1, "a".to_string());
    channel.publish_writer();
    assert!(channel.is_writer_upgraded());
    assert_eq!(channel.write_route(), Route::Upgrade);
    // reads are not upgraded by the writer slot
    assert_eq!(channel.plan_read(8), ReadPlan::Primary);
    assert_eq!(channel.write_route(), Route::Upgrade);
}

#[test]
fn buffer_is_delivered_before_the_upgrade_transport_is_read() {
    let mut channel = UpgradableChannel::new(1, "a".to_string());
    channel.publish_reader(vec![1, 2, 3, 4, 5]);
    assert!(channel.is_reader_upgraded());
    assert_eq!(channel.write_route(), Route::Primary);
    assert_eq!(channel.plan_read(2), ReadPlan::Buffered(vec![1, 2]));
    assert_eq!(channel.plan_read(2), ReadPlan::Buffered(vec![3, 4]));
    assert_eq!(channel.plan_read(2), ReadPlan::Buffered(vec![5]));
    assert_eq!(channel.plan_read(2), ReadPlan::Upgrade);
    assert_eq!(channel.plan_read(2), ReadPlan::Upgrade);
    assert!(channel.is_reader_upgraded());
}

#[test]
fn read_larger_than_the_buffer_takes_all_of_it() {
    let mut channel = UpgradableChannel::new(1, "a".to_string());
    channel.publish_reader(vec![9, 8, 7]);
    assert_eq!(channel.plan_read(1024), ReadPlan::Buffered(vec![9, 8, 7]));
    assert_eq!(channel.plan_read(1024), ReadPlan::Upgrade);
}

#[test]
fn read_of_exactly_the_buffer_takes_all_of_it() {
    let mut channel = UpgradableChannel::new(1, "a".to_string());
    channel.publish_reader(vec![9, 8, 7]);
    assert_eq!(channel.plan_read(3), ReadPlan::Buffered(vec![9, 8, 7]));
    assert_eq!(channel.plan_read(3), ReadPlan::Upgrade);
}

#[test]
fn read_without_room_takes_nothing_from_the_buffer() {
    let mut channel = UpgradableChannel::new(1, "a".to_string());
    channel.publish_reader(vec![1]);
    assert_eq!(channel.plan_read(0), ReadPlan::Buffered(vec![]));
    assert_eq!(channel.plan_read(1), ReadPlan::Buffered(vec![1]));
}

#[test]
fn empty_buffer_goes_straight_to_the_upgrade_transport() {
    let mut channel = UpgradableChannel::new(1, "a".to_string());
    channel.publish_reader(vec![]);
    assert_eq!(channel.plan_read(4), ReadPlan::Upgrade);
}

#[test]
fn pending_read_parks_the_reader_until_it_is_woken() {
    let mut channel = UpgradableChannel::new(1, "a".to_string());
    assert!(!channel.take_parked_reader());
    assert!(channel.primary_read_polled(true));
    assert!(channel.is_reader_parked());
    assert!(channel.take_parked_reader());
    assert!(!channel.is_reader_parked());
    assert!(!channel.take_parked_reader());
}

#[test]
fn ready_read_unparks_the_reader() {
    let mut channel = UpgradableChannel::new(1, "a".to_string());
    channel.primary_read_polled(true);
    assert!(!channel.primary_read_polled(false));
    assert!(!channel.is_reader_parked());
    assert!(!channel.take_parked_reader());
}

#[test]
fn identity_is_stable_across_the_upgrade() {
    let mut channel = UpgradableChannel::new(65_535, "same".to_string());
    channel.publish_writer();
    channel.publish_reader(vec![1]);
    channel.plan_read(1);
    assert_eq!(channel.id(), 65_535);
    assert_eq!(channel.label(), "same");
}
