//! The per-channel contactor state machine.
//!
//! A channel owns one PWM coil driver and one debounced sense input.  Each
//! control-loop tick the owner polls the sense line and hands the reading to
//! the controller; the controller answers with the command the coil driver
//! must carry out.  Energizing runs in three steps: a debounce re-read, full
//! duty with the output enabled, and, after the changeover interval, the
//! reduced holding duty.  Deactivation always reaches `Idle`, whatever the
//! disable command reports.

use vstd::prelude::*;

verus! {

/// Control state of one contactor channel.
#[derive(Clone, Copy, PartialEq, Eq, Structural, Debug)]
pub enum ChannelState {
    /// Coil released, sense line not asserted.
    Idle,
    /// A sense assertion was seen; waiting out the debounce interval before
    /// the line is read again.
    Debouncing,
    /// Coil driven at full duty while the contactor closes mechanically.
    Energized,
    /// Coil held at the reduced holding duty.
    Holding,
}

/// A command for the coil driver, produced by a transition and carried out
/// by the caller that owns the hardware.
#[derive(Clone, Copy, PartialEq, Eq, Structural, Debug)]
pub enum ChannelCmd {
    /// Nothing to drive this tick.
    NoCommand,
    /// Wait the debounce interval, read the sense line again, and report the
    /// reading through `confirm_debounce`.
    BeginDebounce,
    /// Set the coil to `duty` (the full resolution) and enable the output,
    /// then wait the changeover interval and call `finish_changeover`.
    Engage { duty: u32 },
    /// Set the coil to `duty`; the output stays enabled.
    ApplyHold { duty: u32 },
    /// Disable the output and report the outcome through `deactivate`.
    Release,
}

/// Controller for one contactor channel.
///
/// `duty` and `enabled` mirror the last state commanded to the coil driver,
/// so the contracts can speak about what the hardware was told to do.
#[derive(Clone, Copy, PartialEq, Eq, Structural, Debug)]
pub struct ChannelController {
    /// Current control state.
    pub state: ChannelState,
    /// Duty ceiling of the actuator (its PWM resolution).
    pub max_duty: u32,
    /// Duty most recently commanded to the actuator.
    pub duty: u32,
    /// Whether the actuator output is enabled.
    pub enabled: bool,
}

/// The holding duty derived from a hold rate: the rate itself, clamped to
/// the actuator's ceiling.
pub open spec fn spec_hold_duty(rate: u32, max_duty: u32) -> u32 {
    if rate <= max_duty {
        rate
    } else {
        max_duty
    }
}

impl ChannelController {
    /// Well-formedness: the commanded duty never exceeds the actuator's
    /// ceiling, the coil is released outside the energized states, and full
    /// duty is applied exactly while the contactor is closing.
    pub open spec fn wf(self) -> bool {
        &&& self.duty <= self.max_duty
        &&& (self.state is Idle ==> !self.enabled && self.duty == 0)
        &&& (self.state is Debouncing ==> !self.enabled && self.duty == 0)
        &&& (self.state is Energized ==> self.enabled && self.duty == self.max_duty)
        &&& (self.state is Holding ==> self.enabled)
    }

    /// The channel is driving its coil.
    pub open spec fn spec_active(self) -> bool {
        self.state is Energized || self.state is Holding
    }

    /// Transition for one steady-state poll of the sense line.
    pub open spec fn spec_poll(self, sense: bool, hold_rate: u32) -> (ChannelController, ChannelCmd) {
        match self.state {
            ChannelState::Idle => {
                if sense {
                    (ChannelController { state: ChannelState::Debouncing, ..self },
                        ChannelCmd::BeginDebounce)
                } else {
                    (self, ChannelCmd::NoCommand)
                }
            },
            ChannelState::Holding => {
                if sense {
                    let duty = spec_hold_duty(hold_rate, self.max_duty);
                    (ChannelController { duty, ..self }, ChannelCmd::ApplyHold { duty })
                } else {
                    (self, ChannelCmd::Release)
                }
            },
            _ => (self, ChannelCmd::NoCommand),
        }
    }

    /// Transition for the debounce re-read.
    pub open spec fn spec_confirm(self, sense: bool) -> (ChannelController, ChannelCmd) {
        if sense {
            (ChannelController {
                state: ChannelState::Energized,
                duty: self.max_duty,
                enabled: true,
                ..self
            }, ChannelCmd::Engage { duty: self.max_duty })
        } else {
            (ChannelController { state: ChannelState::Idle, ..self }, ChannelCmd::NoCommand)
        }
    }

    /// Transition for the end of the changeover interval.
    pub open spec fn spec_finish(self, hold_rate: u32) -> (ChannelController, ChannelCmd) {
        let duty = spec_hold_duty(hold_rate, self.max_duty);
        (ChannelController { state: ChannelState::Holding, duty, ..self },
            ChannelCmd::ApplyHold { duty })
    }

    /// Transition for deactivation: back to `Idle` with the coil released.
    /// The disable command's outcome is not an input: the state machine
    /// advances whether or not the hardware obeyed.
    pub open spec fn spec_deactivate(self) -> ChannelController {
        ChannelController { state: ChannelState::Idle, duty: 0, enabled: false, ..self }
    }

    /// Builds a released channel in `Idle` for an actuator with the given
    /// duty ceiling.
    pub fn new(max_duty: u32) -> (c: ChannelController)
        ensures
            c == (ChannelController {
                state: ChannelState::Idle,
                max_duty,
                duty: 0,
                enabled: false,
            }),
            c.wf(),
    {
        ChannelController { state: ChannelState::Idle, max_duty, duty: 0, enabled: false }
    }

    /// One steady-state poll of the sense line.
    ///
    /// From `Idle`, an asserted sense starts the debounce.  From `Holding`,
    /// an asserted sense re-applies the current hold rate, so a raised rate
    /// takes effect without releasing the contactor, and a de-asserted sense
    /// asks the owner to disable the coil and then call `deactivate`.
    pub fn poll_sense(&mut self, sense: bool, hold_rate: u32) -> (cmd: ChannelCmd)
        requires
            old(self).wf(),
            old(self).state is Idle || old(self).state is Holding,
        ensures
            (*final(self), cmd) == old(self).spec_poll(sense, hold_rate),
            final(self).wf(),
            final(self).max_duty == old(self).max_duty,
    {
        match self.state {
            ChannelState::Idle => {
                if sense {
                    self.state = ChannelState::Debouncing;
                    ChannelCmd::BeginDebounce
                } else {
                    ChannelCmd::NoCommand
                }
            },
            ChannelState::Holding => {
                if sense {
                    let duty = hold_duty(hold_rate, self.max_duty);
                    self.duty = duty;
                    ChannelCmd::ApplyHold { duty }
                } else {
                    ChannelCmd::Release
                }
            },
            _ => ChannelCmd::NoCommand,
        }
    }

    /// The debounce re-read.  A still-asserted sense energizes the coil at
    /// full duty; a de-asserted one rejects the assertion as noise and
    /// returns to `Idle` without any actuator command.
    pub fn confirm_debounce(&mut self, sense: bool) -> (cmd: ChannelCmd)
        requires
            old(self).wf(),
            old(self).state is Debouncing,
        ensures
            (*final(self), cmd) == old(self).spec_confirm(sense),
            final(self).wf(),
            final(self).max_duty == old(self).max_duty,
    {
        if sense {
            self.state = ChannelState::Energized;
            self.duty = self.max_duty;
            self.enabled = true;
            ChannelCmd::Engage { duty: self.max_duty }
        } else {
            self.state = ChannelState::Idle;
            ChannelCmd::NoCommand
        }
    }

    /// The end of the changeover interval: the contactor has closed, so the
    /// duty drops from full to the holding level.
    pub fn finish_changeover(&mut self, hold_rate: u32) -> (cmd: ChannelCmd)
        requires
            old(self).wf(),
            old(self).state is Energized,
        ensures
            (*final(self), cmd) == old(self).spec_finish(hold_rate),
            final(self).wf(),
            final(self).max_duty == old(self).max_duty,
    {
        let duty = hold_duty(hold_rate, self.max_duty);
        self.state = ChannelState::Holding;
        self.duty = duty;
        ChannelCmd::ApplyHold { duty }
    }

    /// Records the result of the disable command issued for `Release`.
    ///
    /// The channel reaches `Idle` with the coil released for both values of
    /// `disable_ok`: a failed disable is reported back for logging, never
    /// allowed to leave the state machine stuck energized.
    pub fn deactivate(&mut self, disable_ok: bool) -> (fault: bool)
        requires
            old(self).state is Holding || old(self).state is Energized,
        ensures
            *final(self) == old(self).spec_deactivate(),
            final(self).wf(),
            final(self).max_duty == old(self).max_duty,
            fault == !disable_ok,
    {
        self.state = ChannelState::Idle;
        self.duty = 0;
        self.enabled = false;
        !disable_ok
    }
}

/// Computes the holding duty for a hold rate, clamped to the actuator's
/// ceiling.
pub fn hold_duty(rate: u32, max_duty: u32) -> (d: u32)
    ensures
        d == spec_hold_duty(rate, max_duty),
{
    if rate <= max_duty {
        rate
    } else {
        max_duty
    }
}

/// Every duty level derived from a hold rate stays within the actuator's
/// ceiling, whatever value adaptive growth has reached.
pub proof fn lemma_hold_duty_bounded(rate: u32, max_duty: u32)
    ensures
        spec_hold_duty(rate, max_duty) <= max_duty,
{
}

/// A channel in `Holding` is stable under an asserted sense line: the poll
/// keeps it in `Holding` and only re-applies the holding duty; it never
/// issues the engage sequence or a new debounce.
pub proof fn lemma_holding_asserted_stable(c: ChannelController, hold_rate: u32)
    requires
        c.wf(),
        c.state is Holding,
    ensures
        ({
            let (c2, cmd) = c.spec_poll(true, hold_rate);
            &&& c2.state is Holding
            &&& c2.wf()
            &&& cmd == (ChannelCmd::ApplyHold { duty: spec_hold_duty(hold_rate, c.max_duty) })
            &&& !(cmd is Engage)
            &&& !(cmd is BeginDebounce)
        }),
{
}

/// Once in `Holding`, any number of consecutive asserted polls leaves the
/// channel in `Holding`: the full-duty engage sequence is never re-issued.
pub proof fn lemma_repeated_assert_idempotent(c: ChannelController, hold_rate: u32, n: nat)
    requires
        c.wf(),
        c.state is Holding,
    ensures
        spec_poll_asserted_n(c, hold_rate, n).state is Holding,
        spec_poll_asserted_n(c, hold_rate, n).wf(),
    decreases n,
{
    if n > 0 {
        lemma_repeated_assert_idempotent(c, hold_rate, (n - 1) as nat);
    }
}

/// The channel after `n` consecutive polls with the sense line asserted.
pub open spec fn spec_poll_asserted_n(c: ChannelController, hold_rate: u32, n: nat) -> ChannelController
    decreases n,
{
    if n == 0 {
        c
    } else {
        spec_poll_asserted_n(c, hold_rate, (n - 1) as nat).spec_poll(true, hold_rate).0
    }
}

/// A transient assertion is rejected by the debounce: seen at the poll but
/// gone at the re-read, it leaves the channel `Idle`, and neither step
/// commanded the actuator.
pub proof fn lemma_debounce_rejects_transient(c: ChannelController, hold_rate: u32)
    requires
        c.wf(),
        c.state is Idle,
    ensures
        ({
            let (c1, cmd1) = c.spec_poll(true, hold_rate);
            let (c2, cmd2) = c1.spec_confirm(false);
            &&& cmd1 is BeginDebounce
            &&& cmd2 is NoCommand
            &&& c2.state is Idle
            &&& c2.duty == 0
            &&& !c2.enabled
            &&& c2 == c
        }),
{
}

/// Deactivation reaches `Idle` with the coil released; `spec_deactivate`
/// takes no report from the hardware, so the outcome of the disable command
/// cannot change where the channel ends up.
pub proof fn lemma_deactivation_reaches_idle(c: ChannelController)
    ensures
        c.spec_deactivate().state is Idle,
        c.spec_deactivate().duty == 0,
        !c.spec_deactivate().enabled,
        c.spec_deactivate().wf(),
{
}

} // verus!
