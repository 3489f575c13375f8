use inverter_control::channel::PhaseChannel;
use inverter_control::channel::SyncStatus;

#[test]
fn new_channel_holds_phase_zero_and_is_synced() {
    let channel = PhaseChannel::new();
    assert_eq!(channel.consume(), 0);
    assert_eq!(channel.status(), SyncStatus::Synced);
}

#[test]
fn consume_returns_the_published_phase() {
    let mut channel = PhaseChannel::new();
    channel.publish(123_456_789);
    assert_eq!(channel.consume(), 123_456_789);
    channel.publish(i32::MIN);
    assert_eq!(channel.consume(), i32::MIN);
}

#[test]
fn latest_publish_wins() {
    let mut channel = PhaseChannel::new();
    channel.publish(1);
    channel.publish(2);
    channel.publish(-3);
    assert_eq!(channel.consume(), -3);
}

#[test]
fn consume_without_publish_repeats_the_value() {
    let mut channel = PhaseChannel::new();
    channel.publish(42);
    let first = channel.consume();
    let second = channel.consume();
    let third = channel.consume();
    assert_eq!(first, 42);
    assert_eq!(second, first);
    assert_eq!(third, first);
}

#[test]
fn advance_returns_the_phase_and_then_steps_it() {
    let mut channel = PhaseChannel::new();
    channel.publish(100);
    assert_eq!(channel.advance(8947848), 100);
    assert_eq!(channel.consume(), 8947948);
    assert_eq!(channel.advance(8947848), 8947948);
    assert_eq!(channel.consume(), 17895796);
}

#[test]
fn advance_wraps() {
    let mut channel = PhaseChannel::new();
    channel.publish(i32::MAX);
    assert_eq!(channel.advance(1), i32::MAX);
    assert_eq!(channel.consume(), i32::MIN);
}

#[test]
fn status_persists_across_phase_writes() {
    let mut channel = PhaseChannel::new();
    channel.set_status(SyncStatus::Lost);
    channel.publish(7);
    channel.advance(3);
    assert_eq!(channel.status(), SyncStatus::Lost);
    assert_eq!(channel.consume(), 10);
    channel.set_status(SyncStatus::Synced);
    assert_eq!(channel.status(), SyncStatus::Synced);
    assert_eq!(channel.consume(), 10);
}
