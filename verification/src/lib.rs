//! Control logic for PWM-driven electromechanical contactors.
//!
//! Two contactor channels are energized and released together from a
//! debounced sense line.  Each channel engages at full duty, waits a
//! changeover interval so the contactor closes mechanically, then drops to a
//! reduced holding duty that an auxiliary sense input can raise at run time.
//! A status indicator renders a blink pattern from a snapshot of the channel
//! states.
//!
//! The library is pure decision logic: every transition is a function from
//! the current state and the polled inputs to the next state and a hardware
//! command.  The caller owns the peripherals, carries the commands out, and
//! reports outcomes back.

use vstd::prelude::*;

pub mod channel;
pub mod coordinator;
pub mod hold;
pub mod indicator;

verus! {

/// Steady-state polling period of the control loop, in milliseconds.
pub const TICK_MS: u32 = 500;

/// Interval to wait after a sense assertion before the line is read a second
/// time; shorter transients are rejected as noise.
pub const DEBOUNCE_MS: u32 = 100;

/// Interval between commanding full duty and reducing to the holding duty,
/// long enough for the contactor to close mechanically.
pub const CHANGEOVER_MS: u32 = 200;

/// Per-channel activity flags handed to the status indicator.
///
/// Only this copy crosses to the indicator; it never carries a handle to an
/// actuator.
#[derive(Clone, Copy, PartialEq, Eq, Structural, Debug)]
pub struct StatusSnapshot {
    /// Channel A is currently driving its coil.
    pub channel_a: bool,
    /// Channel B is currently driving its coil.
    pub channel_b: bool,
}

} // verus!
