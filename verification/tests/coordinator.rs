use contactor::StatusSnapshot;
use contactor::channel::ChannelState;
use contactor::coordinator::CoordCmd;
use contactor::coordinator::Coordinator;

#[test]
fn dual_channels_energize_on_the_same_tick() {
    // One shared sense line drives both channels: they move through
    // Debouncing, Energized and Holding together, never one alone.
    let mut c = Coordinator::new(255, 255, 60);
    assert_eq!(c.a.state, ChannelState::Idle);
    assert_eq!(c.b.state, ChannelState::Idle);

    let cmd = c.begin_tick(false, true);
    assert_eq!(cmd, CoordCmd::BeginDebounce);
    assert_eq!(c.a.state, ChannelState::Debouncing);
    assert_eq!(c.b.state, ChannelState::Debouncing);

    let cmd = c.confirm_debounce(true);
    assert_eq!(cmd, CoordCmd::Engage { duty_a: 255, duty_b: 255 });
    assert_eq!(c.a.state, ChannelState::Energized);
    assert_eq!(c.b.state, ChannelState::Energized);
    assert!(c.a.enabled && c.b.enabled);

    let cmd = c.finish_changeover();
    assert_eq!(cmd, CoordCmd::ApplyHold { duty_a: 60, duty_b: 60 });
    assert_eq!(c.a.state, ChannelState::Holding);
    assert_eq!(c.b.state, ChannelState::Holding);
}

#[test]
fn rejected_debounce_leaves_both_idle() {
    let mut c = Coordinator::new(255, 255, 60);
    c.begin_tick(false, true);
    let cmd = c.confirm_debounce(false);
    assert_eq!(cmd, CoordCmd::NoCommand);
    assert_eq!(c.a.state, ChannelState::Idle);
    assert_eq!(c.b.state, ChannelState::Idle);
    assert_eq!(c.snapshot(), StatusSnapshot { channel_a: false, channel_b: false });
}

#[test]
fn scenario_c_adaptive_hold_rate() {
    // Hold rate starts at 60; the auxiliary rate input is asserted for five
    // ticks, so the rate reaches 65 and the next hold duty reflects it.
    let mut c = Coordinator::new(255, 255, 60);
    for _ in 0..5 {
        let cmd = c.begin_tick(true, false);
        assert_eq!(cmd, CoordCmd::NoCommand);
    }
    assert_eq!(c.hold.rate, 65);

    c.begin_tick(false, true);
    c.confirm_debounce(true);
    let cmd = c.finish_changeover();
    assert_eq!(cmd, CoordCmd::ApplyHold { duty_a: 65, duty_b: 65 });
    assert_eq!(c.a.duty, 65);
    assert_eq!(c.b.duty, 65);
}

#[test]
fn adaptive_hold_rate_clamped_to_max_duty() {
    // With a 64-step actuator the rate saturates at the ceiling, so the
    // applied duty never exceeds it however long the input stays asserted.
    let mut c = Coordinator::new(64, 64, 60);
    for _ in 0..10 {
        c.begin_tick(true, false);
        assert!(c.hold.rate <= 64);
    }
    assert_eq!(c.hold.rate, 64);

    c.begin_tick(false, true);
    c.confirm_debounce(true);
    let cmd = c.finish_changeover();
    assert_eq!(cmd, CoordCmd::ApplyHold { duty_a: 64, duty_b: 64 });
    assert!(c.a.duty <= c.a.max_duty);
    assert!(c.b.duty <= c.b.max_duty);
}

#[test]
fn raised_rate_reaches_held_coils_live() {
    // While Holding, a tick with the auxiliary input asserted re-applies
    // the raised rate without releasing the contactors.
    let mut c = Coordinator::new(255, 255, 60);
    c.begin_tick(false, true);
    c.confirm_debounce(true);
    c.finish_changeover();

    let cmd = c.begin_tick(true, true);
    assert_eq!(cmd, CoordCmd::ApplyHold { duty_a: 61, duty_b: 61 });
    assert_eq!(c.a.state, ChannelState::Holding);
    assert_eq!(c.b.state, ChannelState::Holding);
    assert_eq!(c.a.duty, 61);
}

#[test]
fn release_returns_both_to_idle_despite_faults() {
    // Sense de-asserted while Holding: both channels are told to release,
    // and both reach Idle even when a disable command reports failure.
    let mut c = Coordinator::new(255, 255, 60);
    c.begin_tick(false, true);
    c.confirm_debounce(true);
    c.finish_changeover();
    assert_eq!(c.snapshot(), StatusSnapshot { channel_a: true, channel_b: true });

    let cmd = c.begin_tick(false, false);
    assert_eq!(cmd, CoordCmd::Release);
    let faults = c.deactivate(false, true);
    assert_eq!(faults, (true, false));
    assert_eq!(c.a.state, ChannelState::Idle);
    assert_eq!(c.b.state, ChannelState::Idle);
    assert!(!c.a.enabled && !c.b.enabled);
    assert_eq!(c.a.duty, 0);
    assert_eq!(c.b.duty, 0);
    assert_eq!(c.snapshot(), StatusSnapshot { channel_a: false, channel_b: false });
}

#[test]
fn initial_hold_rate_clamped_to_cap() {
    let c = Coordinator::new(255, 200, 300);
    assert_eq!(c.hold.cap, 200);
    assert_eq!(c.hold.rate, 200);

    let c = Coordinator::new(255, 255, 60);
    assert_eq!(c.hold.cap, 255);
    assert_eq!(c.hold.rate, 60);
}

#[test]
fn idle_ticks_do_nothing() {
    let mut c = Coordinator::new(255, 255, 60);
    for _ in 0..3 {
        let cmd = c.begin_tick(false, false);
        assert_eq!(cmd, CoordCmd::NoCommand);
        assert_eq!(c.a.state, ChannelState::Idle);
        assert_eq!(c.b.state, ChannelState::Idle);
    }
    assert_eq!(c.snapshot(), StatusSnapshot { channel_a: false, channel_b: false });
}
