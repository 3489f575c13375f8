use inverter_control::channel::PhaseChannel;
use inverter_control::channel::SyncStatus;
use inverter_control::zero_cross::watchdog_timeout;
use inverter_control::zero_cross::ZeroCrossSync;
use inverter_control::zero_cross::GRID_PERIOD_US;
use inverter_control::zero_cross::WATCHDOG_MARGIN_PERCENT;

#[test]
fn timeout_is_the_period_and_the_margin() {
    assert_eq!(watchdog_timeout(GRID_PERIOD_US, WATCHDOG_MARGIN_PERCENT), 21_000);
    assert_eq!(watchdog_timeout(20_000, 0), 20_000);
    assert_eq!(watchdog_timeout(0, 5), 0);
    assert_eq!(watchdog_timeout(19, 5), 19);
    assert_eq!(watchdog_timeout(20, 5), 21);
}

#[test]
fn timeout_fits_for_every_period_and_margin() {
    assert_eq!(watchdog_timeout(u32::MAX, u32::MAX), 184467444946163465);
}

#[test]
fn new_synchroniser_is_armed() {
    let sync = ZeroCrossSync::new(20_000, 5);
    assert_eq!(sync.timeout(), 21_000);
    assert_eq!(sync.remaining(), 21_000);
}

#[test]
fn edge_resets_phase_and_declares_sync() {
    let mut channel = PhaseChannel::new();
    let mut sync = ZeroCrossSync::new(20_000, 5);
    channel.publish(987_654_321);
    channel.set_status(SyncStatus::Lost);
    sync.on_elapsed(15_000, &mut channel);
    sync.on_edge(&mut channel);
    assert_eq!(channel.consume(), 0);
    assert_eq!(channel.status(), SyncStatus::Synced);
    assert_eq!(sync.remaining(), 21_000);
}

#[test]
fn watchdog_counts_down_without_an_edge() {
    let mut channel = PhaseChannel::new();
    let mut sync = ZeroCrossSync::new(20_000, 5);
    channel.publish(55);
    assert!(!sync.on_elapsed(20_000, &mut channel));
    assert_eq!(sync.remaining(), 1_000);
    assert_eq!(channel.status(), SyncStatus::Synced);
    assert!(!sync.on_elapsed(1_000, &mut channel));
    assert_eq!(sync.remaining(), 0);
    assert_eq!(channel.status(), SyncStatus::Synced);
    assert_eq!(channel.consume(), 55);
}

#[test]
fn watchdog_declares_loss_after_the_timeout() {
    let mut channel = PhaseChannel::new();
    let mut sync = ZeroCrossSync::new(20_000, 5);
    channel.publish(55);
    assert!(!sync.on_elapsed(21_000, &mut channel));
    assert!(sync.on_elapsed(1, &mut channel));
    assert_eq!(channel.status(), SyncStatus::Lost);
    assert_eq!(sync.remaining(), 0);
    assert_eq!(channel.consume(), 55);
}

#[test]
fn one_long_wait_declares_loss() {
    let mut channel = PhaseChannel::new();
    let mut sync = ZeroCrossSync::new(20_000, 5);
    assert!(sync.on_elapsed(21_001, &mut channel));
    assert_eq!(channel.status(), SyncStatus::Lost);
}

#[test]
fn loss_persists_until_the_next_edge() {
    let mut channel = PhaseChannel::new();
    let mut sync = ZeroCrossSync::new(20_000, 5);
    assert!(sync.on_elapsed(30_000, &mut channel));
    assert!(!sync.on_elapsed(0, &mut channel));
    assert_eq!(channel.status(), SyncStatus::Lost);
    assert!(sync.on_elapsed(10, &mut channel));
    assert_eq!(channel.status(), SyncStatus::Lost);
    sync.on_edge(&mut channel);
    assert_eq!(channel.status(), SyncStatus::Synced);
    assert!(!sync.on_elapsed(20_000, &mut channel));
    assert_eq!(channel.status(), SyncStatus::Synced);
}

#[test]
fn edges_in_time_keep_sync() {
    let mut channel = PhaseChannel::new();
    let mut sync = ZeroCrossSync::new(20_000, 5);
    for _ in 0..50 {
        assert!(!sync.on_elapsed(20_500, &mut channel));
        sync.on_edge(&mut channel);
        assert_eq!(channel.status(), SyncStatus::Synced);
    }
}
