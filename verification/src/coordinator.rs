//! The dual-channel coordinator.
//!
//! Both contactor channels are driven from one shared sense line and one
//! shared adaptive hold rate.  Every transition moves the two channels
//! together, so the well-formedness invariant can carry channel-state
//! equality: neither channel ever energizes or releases alone.  The per-tick
//! order is the control loop's: poll the auxiliary rate input, update the
//! hold rate, step both channels, then take the status snapshot.

use vstd::prelude::*;

use crate::StatusSnapshot;
use crate::channel::ChannelCmd;
use crate::channel::ChannelController;
use crate::channel::ChannelState;
use crate::channel::spec_hold_duty;
use crate::hold::HoldRate;

verus! {

/// A command for both coil drivers, carried out by the caller that owns the
/// hardware.
#[derive(Clone, Copy, PartialEq, Eq, Structural, Debug)]
pub enum CoordCmd {
    /// Nothing to drive this tick.
    NoCommand,
    /// Wait the debounce interval, read the shared sense line again, and
    /// report the reading through `confirm_debounce`.
    BeginDebounce,
    /// Set each coil to its full duty and enable both outputs, then wait the
    /// changeover interval and call `finish_changeover`.
    Engage { duty_a: u32, duty_b: u32 },
    /// Set each coil to its holding duty; the outputs stay enabled.
    ApplyHold { duty_a: u32, duty_b: u32 },
    /// Disable both outputs and report the outcomes through `deactivate`.
    Release,
}

/// Coordinator owning the two channel controllers and the shared hold rate.
#[derive(Clone, Copy, PartialEq, Eq, Structural, Debug)]
pub struct Coordinator {
    /// Channel A's controller.
    pub a: ChannelController,
    /// Channel B's controller.
    pub b: ChannelController,
    /// Holding duty shared by both channels.
    pub hold: HoldRate,
}

impl Coordinator {
    /// Well-formedness: both channels are well formed and in the same state,
    /// and the hold rate's cap keeps it within both duty ceilings.
    pub open spec fn wf(self) -> bool {
        &&& self.a.wf()
        &&& self.b.wf()
        &&& self.hold.wf()
        &&& self.a.state == self.b.state
        &&& self.hold.cap <= self.a.max_duty
        &&& self.hold.cap <= self.b.max_duty
    }

    /// Transition for one steady-state tick: adaptive hold-rate growth, then
    /// one poll of the shared sense line for both channels.
    pub open spec fn spec_begin_tick(self, aux_asserted: bool, sense: bool) -> (Coordinator, CoordCmd) {
        let hold = self.hold.spec_update(aux_asserted);
        let (a2, cmd_a) = self.a.spec_poll(sense, hold.rate);
        let (b2, cmd_b) = self.b.spec_poll(sense, hold.rate);
        let next = Coordinator { a: a2, b: b2, hold };
        let cmd = match (cmd_a, cmd_b) {
            (ChannelCmd::BeginDebounce, ChannelCmd::BeginDebounce) => CoordCmd::BeginDebounce,
            (ChannelCmd::ApplyHold { duty: duty_a }, ChannelCmd::ApplyHold { duty: duty_b }) =>
                CoordCmd::ApplyHold { duty_a, duty_b },
            (ChannelCmd::Release, ChannelCmd::Release) => CoordCmd::Release,
            _ => CoordCmd::NoCommand,
        };
        (next, cmd)
    }

    /// Transition for the debounce re-read on the shared sense line.
    pub open spec fn spec_confirm(self, sense: bool) -> (Coordinator, CoordCmd) {
        let next = Coordinator {
            a: self.a.spec_confirm(sense).0,
            b: self.b.spec_confirm(sense).0,
            ..self
        };
        let cmd = if sense {
            CoordCmd::Engage { duty_a: self.a.max_duty, duty_b: self.b.max_duty }
        } else {
            CoordCmd::NoCommand
        };
        (next, cmd)
    }

    /// Transition for the end of the changeover interval on both channels.
    pub open spec fn spec_finish(self) -> (Coordinator, CoordCmd) {
        let next = Coordinator {
            a: self.a.spec_finish(self.hold.rate).0,
            b: self.b.spec_finish(self.hold.rate).0,
            ..self
        };
        (next, CoordCmd::ApplyHold {
            duty_a: spec_hold_duty(self.hold.rate, self.a.max_duty),
            duty_b: spec_hold_duty(self.hold.rate, self.b.max_duty),
        })
    }

    /// Transition for deactivation of both channels.
    pub open spec fn spec_deactivate(self) -> Coordinator {
        Coordinator { a: self.a.spec_deactivate(), b: self.b.spec_deactivate(), ..self }
    }

    /// The snapshot the status indicator renders from.
    pub open spec fn spec_snapshot(self) -> StatusSnapshot {
        StatusSnapshot { channel_a: self.a.spec_active(), channel_b: self.b.spec_active() }
    }

    /// Builds a coordinator with both channels released in `Idle` and the
    /// initial hold rate clamped to the smaller duty ceiling.
    pub fn new(max_duty_a: u32, max_duty_b: u32, initial_hold: u32) -> (c: Coordinator)
        ensures
            c.wf(),
            c.a == (ChannelController {
                state: ChannelState::Idle,
                max_duty: max_duty_a,
                duty: 0,
                enabled: false,
            }),
            c.b == (ChannelController {
                state: ChannelState::Idle,
                max_duty: max_duty_b,
                duty: 0,
                enabled: false,
            }),
            c.hold.cap == if max_duty_a <= max_duty_b { max_duty_a as int } else { max_duty_b as int },
            c.hold.rate == if initial_hold <= c.hold.cap { initial_hold as int } else { c.hold.cap as int },
    {
        let cap = if max_duty_a <= max_duty_b { max_duty_a } else { max_duty_b };
        Coordinator {
            a: ChannelController::new(max_duty_a),
            b: ChannelController::new(max_duty_b),
            hold: HoldRate::new(initial_hold, cap),
        }
    }

    /// One steady-state tick: polls the auxiliary rate-increase input, grows
    /// the shared hold rate, and steps both channels from the shared sense
    /// reading.  A raised hold rate reaches both coils in the same tick.
    pub fn begin_tick(&mut self, aux_asserted: bool, sense: bool) -> (cmd: CoordCmd)
        requires
            old(self).wf(),
            old(self).a.state is Idle || old(self).a.state is Holding,
        ensures
            (*final(self), cmd) == old(self).spec_begin_tick(aux_asserted, sense),
            final(self).wf(),
    {
        self.hold.update(aux_asserted);
        let cmd_a = self.a.poll_sense(sense, self.hold.rate);
        let cmd_b = self.b.poll_sense(sense, self.hold.rate);
        match (cmd_a, cmd_b) {
            (ChannelCmd::BeginDebounce, ChannelCmd::BeginDebounce) => CoordCmd::BeginDebounce,
            (ChannelCmd::ApplyHold { duty: duty_a }, ChannelCmd::ApplyHold { duty: duty_b }) =>
                CoordCmd::ApplyHold { duty_a, duty_b },
            (ChannelCmd::Release, ChannelCmd::Release) => CoordCmd::Release,
            _ => CoordCmd::NoCommand,
        }
    }

    /// The debounce re-read on the shared sense line.  A still-asserted
    /// sense energizes both channels in this same call — neither can
    /// energize alone — while a de-asserted one returns both to `Idle`.
    pub fn confirm_debounce(&mut self, sense: bool) -> (cmd: CoordCmd)
        requires
            old(self).wf(),
            old(self).a.state is Debouncing,
        ensures
            (*final(self), cmd) == old(self).spec_confirm(sense),
            final(self).wf(),
            sense ==> final(self).a.state is Energized && final(self).b.state is Energized,
            !sense ==> final(self).a.state is Idle && final(self).b.state is Idle,
    {
        let cmd_a = self.a.confirm_debounce(sense);
        let cmd_b = self.b.confirm_debounce(sense);
        match (cmd_a, cmd_b) {
            (ChannelCmd::Engage { duty: duty_a }, ChannelCmd::Engage { duty: duty_b }) =>
                CoordCmd::Engage { duty_a, duty_b },
            _ => CoordCmd::NoCommand,
        }
    }

    /// The end of the changeover interval: both contactors have closed, so
    /// both coils drop from full duty to the shared holding duty.
    pub fn finish_changeover(&mut self) -> (cmd: CoordCmd)
        requires
            old(self).wf(),
            old(self).a.state is Energized,
        ensures
            (*final(self), cmd) == old(self).spec_finish(),
            final(self).wf(),
            final(self).a.state is Holding && final(self).b.state is Holding,
    {
        let rate = self.hold.rate;
        let cmd_a = self.a.finish_changeover(rate);
        let cmd_b = self.b.finish_changeover(rate);
        match (cmd_a, cmd_b) {
            (ChannelCmd::ApplyHold { duty: duty_a }, ChannelCmd::ApplyHold { duty: duty_b }) =>
                CoordCmd::ApplyHold { duty_a, duty_b },
            _ => CoordCmd::NoCommand,
        }
    }

    /// Records the results of the two disable commands issued for
    /// `Release`.  Both channels reach `Idle` with their coils released for
    /// every combination of outcomes; failures are only reported back for
    /// logging.
    pub fn deactivate(&mut self, disable_ok_a: bool, disable_ok_b: bool) -> (faults: (bool, bool))
        requires
            old(self).wf(),
            old(self).a.state is Holding || old(self).a.state is Energized,
        ensures
            *final(self) == old(self).spec_deactivate(),
            final(self).wf(),
            final(self).a.state is Idle && final(self).b.state is Idle,
            faults == (!disable_ok_a, !disable_ok_b),
    {
        let fault_a = self.a.deactivate(disable_ok_a);
        let fault_b = self.b.deactivate(disable_ok_b);
        (fault_a, fault_b)
    }

    /// Takes the status snapshot handed to the indicator: one activity flag
    /// per channel, by value, never a handle to an actuator.
    pub fn snapshot(&self) -> (s: StatusSnapshot)
        ensures
            s == self.spec_snapshot(),
            self.wf() ==> s.channel_a == s.channel_b,
    {
        let active_a = self.a.state == ChannelState::Energized || self.a.state
            == ChannelState::Holding;
        let active_b = self.b.state == ChannelState::Energized || self.b.state
            == ChannelState::Holding;
        StatusSnapshot { channel_a: active_a, channel_b: active_b }
    }
}

/// The two channels stay synchronized: from any well-formed coordinator,
/// every transition leaves both channels in the same state, and the debounce
/// re-read energizes both or neither.
pub proof fn lemma_channels_synchronized(c: Coordinator, aux_asserted: bool, sense: bool)
    requires
        c.wf(),
    ensures
        c.spec_begin_tick(aux_asserted, sense).0.a.state == c.spec_begin_tick(
            aux_asserted,
            sense,
        ).0.b.state,
        c.spec_confirm(sense).0.a.state == c.spec_confirm(sense).0.b.state,
        c.spec_finish().0.a.state == c.spec_finish().0.b.state,
        c.spec_deactivate().a.state == c.spec_deactivate().b.state,
{
}

/// Energizing is all-or-nothing: after the debounce re-read, channel A is
/// energized exactly when channel B is, and a still-asserted sense line
/// energizes both in that same transition.
pub proof fn lemma_energize_together(c: Coordinator, sense: bool)
    requires
        c.wf(),
        c.a.state is Debouncing,
    ensures
        ({
            let (c2, cmd) = c.spec_confirm(sense);
            &&& (c2.a.state is Energized <==> c2.b.state is Energized)
            &&& (sense ==> c2.a.state is Energized && c2.b.state is Energized)
            &&& (!sense ==> c2.a.state is Idle && c2.b.state is Idle)
        }),
{
}

} // verus!
