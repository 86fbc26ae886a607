use contactor::DEBOUNCE_MS;
use contactor::channel::ChannelCmd;
use contactor::channel::ChannelController;
use contactor::channel::ChannelState;
use contactor::channel::hold_duty;

#[test]
fn scenario_a_energize_then_hold() {
    // Sense asserted for 150 ms with a 100 ms debounce: still asserted at
    // the re-read, so the channel energizes at full duty and then drops to
    // the hold rate after the changeover interval.
    let assertion_ms: u32 = 150;
    let mut c = ChannelController::new(255);
    let cmd = c.poll_sense(true, 60);
    assert_eq!(cmd, ChannelCmd::BeginDebounce);
    assert_eq!(c.state, ChannelState::Debouncing);

    let still_asserted = assertion_ms >= DEBOUNCE_MS;
    assert!(still_asserted);
    let cmd = c.confirm_debounce(still_asserted);
    assert_eq!(cmd, ChannelCmd::Engage { duty: 255 });
    assert_eq!(c.state, ChannelState::Energized);
    assert_eq!(c.duty, 255);
    assert!(c.enabled);

    let cmd = c.finish_changeover(60);
    assert_eq!(cmd, ChannelCmd::ApplyHold { duty: 60 });
    assert_eq!(c.state, ChannelState::Holding);
    assert_eq!(c.duty, 60);
    assert!(c.enabled);
}

#[test]
fn scenario_b_transient_rejected() {
    // Sense asserted for only 50 ms: gone at the debounce re-read, so the
    // channel returns to Idle and the actuator is never commanded.
    let assertion_ms: u32 = 50;
    let mut c = ChannelController::new(255);
    let cmd = c.poll_sense(true, 60);
    assert_eq!(cmd, ChannelCmd::BeginDebounce);

    let still_asserted = assertion_ms >= DEBOUNCE_MS;
    assert!(!still_asserted);
    let cmd = c.confirm_debounce(still_asserted);
    assert_eq!(cmd, ChannelCmd::NoCommand);
    assert_eq!(c.state, ChannelState::Idle);
    assert_eq!(c.duty, 0);
    assert!(!c.enabled);
}

#[test]
fn scenario_d_release_despite_disable_fault() {
    // While Holding, sense de-asserts: the owner is told to disable, and
    // even a failed disable leaves the channel Idle with the coil released.
    let mut c = ChannelController::new(255);
    c.poll_sense(true, 60);
    c.confirm_debounce(true);
    c.finish_changeover(60);
    assert_eq!(c.state, ChannelState::Holding);

    let cmd = c.poll_sense(false, 60);
    assert_eq!(cmd, ChannelCmd::Release);
    let fault = c.deactivate(false);
    assert!(fault);
    assert_eq!(c.state, ChannelState::Idle);
    assert_eq!(c.duty, 0);
    assert!(!c.enabled);
}

#[test]
fn release_without_fault_also_reaches_idle() {
    let mut c = ChannelController::new(255);
    c.poll_sense(true, 60);
    c.confirm_debounce(true);
    c.finish_changeover(60);

    assert_eq!(c.poll_sense(false, 60), ChannelCmd::Release);
    let fault = c.deactivate(true);
    assert!(!fault);
    assert_eq!(c.state, ChannelState::Idle);
    assert!(!c.enabled);
}

#[test]
fn holding_reasserted_never_reengages() {
    // Once Holding, repeated asserted polls only re-apply the hold duty;
    // the full-duty engage sequence is never issued again.
    let mut c = ChannelController::new(255);
    c.poll_sense(true, 60);
    c.confirm_debounce(true);
    c.finish_changeover(60);

    for rate in [60, 61, 62, 63, 64] {
        let cmd = c.poll_sense(true, rate);
        assert_eq!(cmd, ChannelCmd::ApplyHold { duty: rate });
        assert_eq!(c.state, ChannelState::Holding);
        assert_eq!(c.duty, rate);
    }
}

#[test]
fn idle_stays_idle_without_sense() {
    let mut c = ChannelController::new(255);
    let cmd = c.poll_sense(false, 60);
    assert_eq!(cmd, ChannelCmd::NoCommand);
    assert_eq!(c.state, ChannelState::Idle);
    assert_eq!(c.duty, 0);
    assert!(!c.enabled);
}

#[test]
fn hold_duty_clamped_to_max_duty() {
    assert_eq!(hold_duty(60, 255), 60);
    assert_eq!(hold_duty(255, 255), 255);
    assert_eq!(hold_duty(300, 255), 255);
    assert_eq!(hold_duty(0, 255), 0);

    // A hold rate above the actuator ceiling is clamped when applied.
    let mut c = ChannelController::new(64);
    c.poll_sense(true, 300);
    c.confirm_debounce(true);
    assert_eq!(c.duty, 64);
    let cmd = c.finish_changeover(300);
    assert_eq!(cmd, ChannelCmd::ApplyHold { duty: 64 });
    assert_eq!(c.duty, 64);
}
