use inverter_control::channel::PhaseChannel;
use inverter_control::channel::SyncStatus;
use inverter_control::drive::drive_command;
use inverter_control::drive::duty_from_sine;
use inverter_control::drive::duty_register;
use inverter_control::drive::DriveCommand;
use inverter_control::drive::PhaseSource;
use inverter_control::drive::SineDriveEngine;
use inverter_control::drive::DUTY_CEILING;
use inverter_control::phase::PHASE_CHANGE_PER_UPDATE;
use inverter_control::phase::WAVE_UPDATES_PER_SINE_PERIOD;

#[test]
fn duty_scales_with_the_sine_magnitude() {
    assert_eq!(duty_from_sine(0), 0);
    assert_eq!(duty_from_sine(1), 0);
    assert_eq!(duty_from_sine(8873899), 0);
    assert_eq!(duty_from_sine(8873900), 1);
    assert_eq!(duty_from_sine(1073741823), 120);
    assert_eq!(duty_from_sine(-1073741824), 121);
    assert_eq!(duty_from_sine(2147467264), 241);
}

#[test]
fn duty_reaches_the_ceiling_at_the_extremes_and_never_exceeds_it() {
    assert_eq!(duty_from_sine(i32::MAX), 242);
    assert_eq!(duty_from_sine(i32::MIN), 242);
    assert_eq!(duty_from_sine(-i32::MAX), 242);
    assert_eq!(DUTY_CEILING, 242);
}

#[test]
fn duty_register_holds_the_duty_above_four_fraction_bits() {
    assert_eq!(duty_register(0), 0);
    assert_eq!(duty_register(1), 16);
    assert_eq!(duty_register(242), 3872);
    assert_eq!(duty_register(0x1000_0001), 16);
}

#[test]
fn sign_of_the_sine_selects_the_side() {
    assert_eq!(
        drive_command(1073741823, SyncStatus::Synced),
        DriveCommand::HighSide { duty: 120 }
    );
    assert_eq!(
        drive_command(-1073741824, SyncStatus::Synced),
        DriveCommand::LowSide { duty: 121 }
    );
    assert_eq!(drive_command(i32::MAX, SyncStatus::Synced), DriveCommand::HighSide { duty: 242 });
    assert_eq!(drive_command(i32::MIN, SyncStatus::Synced), DriveCommand::LowSide { duty: 242 });
}

#[test]
fn zero_duty_is_still_written() {
    let at_zero = drive_command(0, SyncStatus::Synced);
    assert_eq!(at_zero, DriveCommand::LowSide { duty: 0 });
    assert_eq!(at_zero.duty(), Some(0));
    let just_above = drive_command(1, SyncStatus::Synced);
    assert_eq!(just_above, DriveCommand::HighSide { duty: 0 });
    assert_eq!(just_above.duty(), Some(0));
}

#[test]
fn lost_sync_disables_both_outputs() {
    for sine in [i32::MIN, -1073741824, -1, 0, 1, 1073741823, i32::MAX] {
        let command = drive_command(sine, SyncStatus::Lost);
        assert_eq!(command, DriveCommand::Disabled);
        assert!(!command.high_side_enabled());
        assert!(!command.low_side_enabled());
        assert_eq!(command.duty(), None);
    }
}

#[test]
fn command_enables_one_side_only() {
    let high = DriveCommand::HighSide { duty: 7 };
    assert!(high.high_side_enabled());
    assert!(!high.low_side_enabled());
    assert_eq!(high.duty(), Some(7));
    let low = DriveCommand::LowSide { duty: 9 };
    assert!(!low.high_side_enabled());
    assert!(low.low_side_enabled());
    assert_eq!(low.duty(), Some(9));
}

#[test]
fn only_a_tracked_phase_is_left_alone() {
    assert!(PhaseSource::FreeRunning.advances());
    assert!(PhaseSource::ZeroCrossSynced.advances());
    assert!(!PhaseSource::PllTracked.advances());
}

#[test]
fn engine_for_the_standard_frequencies() {
    let engine = SineDriveEngine::new(PhaseSource::FreeRunning);
    assert_eq!(engine.step(), PHASE_CHANGE_PER_UPDATE);
    assert_eq!(engine.source(), PhaseSource::FreeRunning);
}

#[test]
fn engine_for_given_frequencies() {
    let engine = SineDriveEngine::with_frequencies(PhaseSource::ZeroCrossSynced, 24_000, 60);
    assert!(engine.is_some());
    let engine = engine.unwrap();
    assert_eq!(engine.step(), 10737418);
    assert_eq!(engine.source(), PhaseSource::ZeroCrossSynced);
    assert!(SineDriveEngine::with_frequencies(PhaseSource::FreeRunning, 24_000, 0).is_none());
    assert!(SineDriveEngine::with_frequencies(PhaseSource::FreeRunning, 49, 50).is_none());
}

#[test]
fn tick_drives_the_high_side_at_the_positive_peak() {
    let engine = SineDriveEngine::new(PhaseSource::PllTracked);
    let mut channel = PhaseChannel::new();
    channel.publish(0x4000_0000);
    assert_eq!(engine.tick(&mut channel), DriveCommand::HighSide { duty: 241 });
}

#[test]
fn tick_drives_the_low_side_at_the_negative_peak() {
    let engine = SineDriveEngine::new(PhaseSource::PllTracked);
    let mut channel = PhaseChannel::new();
    channel.publish(-0x4000_0000);
    assert_eq!(engine.tick(&mut channel), DriveCommand::LowSide { duty: 241 });
}

#[test]
fn tick_follows_the_sine_of_the_library_primitive() {
    let engine = SineDriveEngine::new(PhaseSource::PllTracked);
    let mut channel = PhaseChannel::new();
    let mut phase = i32::MIN;
    for _ in 0..4096 {
        channel.publish(phase);
        let sine = idsp::cossin(phase).1;
        assert_eq!(engine.tick(&mut channel), drive_command(sine, SyncStatus::Synced));
        phase = phase.wrapping_add(0x0010_0000);
    }
}

#[test]
fn tick_takes_the_sine_and_not_the_cosine() {
    let engine = SineDriveEngine::new(PhaseSource::PllTracked);
    let mut channel = PhaseChannel::new();
    channel.publish(0x2000_0000);
    let at_eighth = engine.tick(&mut channel);
    channel.publish(0x6000_0000);
    let at_three_eighths = engine.tick(&mut channel);
    assert_eq!(at_eighth, at_three_eighths);
    assert_eq!(at_eighth, DriveCommand::HighSide { duty: 171 });
}

#[test]
fn tracked_phase_is_read_only() {
    let engine = SineDriveEngine::new(PhaseSource::PllTracked);
    let mut channel = PhaseChannel::new();
    channel.publish(1000);
    engine.tick(&mut channel);
    engine.tick(&mut channel);
    assert_eq!(channel.consume(), 1000);
}

#[test]
fn free_running_phase_advances_every_tick() {
    let engine = SineDriveEngine::new(PhaseSource::FreeRunning);
    let mut channel = PhaseChannel::new();
    engine.tick(&mut channel);
    assert_eq!(channel.consume(), 8947848);
    engine.tick(&mut channel);
    assert_eq!(channel.consume(), 17895696);
    for _ in 2..WAVE_UPDATES_PER_SINE_PERIOD {
        engine.tick(&mut channel);
    }
    assert_eq!(channel.consume(), -256);
}

#[test]
fn free_running_cycle_switches_each_side_for_half_the_period() {
    let engine = SineDriveEngine::new(PhaseSource::FreeRunning);
    let mut channel = PhaseChannel::new();
    let mut high = 0;
    let mut low = 0;
    for _ in 0..WAVE_UPDATES_PER_SINE_PERIOD {
        let command = engine.tick(&mut channel);
        assert!(!(command.high_side_enabled() && command.low_side_enabled()));
        let duty = command.duty();
        assert!(duty.is_some());
        assert!(duty.unwrap() <= DUTY_CEILING);
        if command.high_side_enabled() {
            high += 1;
        } else {
            low += 1;
        }
    }
    assert_eq!(high + low, 480);
    assert!(high >= 239 && high <= 241);
}

#[test]
fn lost_sync_holds_outputs_off_for_a_full_cycle() {
    let engine = SineDriveEngine::new(PhaseSource::FreeRunning);
    let mut channel = PhaseChannel::new();
    channel.set_status(SyncStatus::Lost);
    for _ in 0..WAVE_UPDATES_PER_SINE_PERIOD {
        let command = engine.tick(&mut channel);
        assert_eq!(command, DriveCommand::Disabled);
        assert!(!command.high_side_enabled());
        assert!(!command.low_side_enabled());
    }
    assert_eq!(channel.status(), SyncStatus::Lost);
    assert_eq!(channel.consume(), -256);
}
