//! The status indicator.
//!
//! One rendering pass turns a status snapshot into a fixed blink sequence:
//! a short pulse for an active channel A, a double pulse for an active
//! channel B, and a rapid alternating heartbeat when both are inactive.
//! The pass is computed here as a plain list of levels and hold times; the
//! caller drives the output pin through it.  `RenderArbiter` keeps at most one
//! rendering pass in flight at a time.

use vstd::prelude::*;

use crate::StatusSnapshot;

verus! {

/// One step of a blink pattern: drive the status pin to `level` and hold it
/// for `hold_ms` milliseconds.
#[derive(Clone, Copy, PartialEq, Eq, Structural, Debug)]
pub struct LedStep {
    /// Pin level to drive (true = high).
    pub level: bool,
    /// How long to hold the level, in milliseconds.
    pub hold_ms: u32,
}

/// Opening of the pass: a short pulse when channel A is active, else a low
/// rest, followed in either case by a long low gap.
pub open spec fn spec_phase_a(active: bool) -> Seq<LedStep> {
    if active {
        seq![
            LedStep { level: true, hold_ms: 100 },
            LedStep { level: false, hold_ms: 100 },
            LedStep { level: false, hold_ms: 600 },
        ]
    } else {
        seq![
            LedStep { level: false, hold_ms: 200 },
            LedStep { level: false, hold_ms: 600 },
        ]
    }
}

/// Middle of the pass: a rapid double pulse when channel B is active, else
/// a low rest.
pub open spec fn spec_phase_b(active: bool) -> Seq<LedStep> {
    if active {
        seq![
            LedStep { level: true, hold_ms: 50 },
            LedStep { level: false, hold_ms: 50 },
            LedStep { level: true, hold_ms: 50 },
            LedStep { level: false, hold_ms: 50 },
        ]
    } else {
        seq![LedStep { level: false, hold_ms: 200 }]
    }
}

/// `n` cycles of the rapid idle heartbeat: 50 ms high, 50 ms low.
pub open spec fn spec_heartbeat(n: nat) -> Seq<LedStep>
    decreases n,
{
    if n == 0 {
        Seq::empty()
    } else {
        spec_heartbeat((n - 1) as nat) + seq![
            LedStep { level: true, hold_ms: 50 },
            LedStep { level: false, hold_ms: 50 },
        ]
    }
}

/// Close of the pass: twelve heartbeat cycles when both channels are
/// inactive, else a long low gap.
pub open spec fn spec_tail(active_a: bool, active_b: bool) -> Seq<LedStep> {
    if !active_a && !active_b {
        spec_heartbeat(12)
    } else {
        seq![LedStep { level: false, hold_ms: 600 }]
    }
}

/// The whole rendering pass for a snapshot.
pub open spec fn spec_pattern(s: StatusSnapshot) -> Seq<LedStep> {
    spec_phase_a(s.channel_a) + spec_phase_b(s.channel_b) + spec_tail(s.channel_a, s.channel_b)
}

/// Total duration of a blink sequence, in milliseconds.
pub open spec fn spec_duration(s: Seq<LedStep>) -> int
    decreases s.len(),
{
    if s.len() == 0 {
        0
    } else {
        s[0].hold_ms + spec_duration(s.subrange(1, s.len() as int))
    }
}

/// Computes the blink sequence the indicator renders for a snapshot.
pub fn render_pattern(snap: StatusSnapshot) -> (steps: Vec<LedStep>)
    ensures
        steps@ == spec_pattern(snap),
{
    let mut steps: Vec<LedStep> = Vec::new();
    if snap.channel_a {
        steps.push(LedStep { level: true, hold_ms: 100 });
        steps.push(LedStep { level: false, hold_ms: 100 });
    } else {
        steps.push(LedStep { level: false, hold_ms: 200 });
    }
    steps.push(LedStep { level: false, hold_ms: 600 });
    proof {
        assert(steps@ =~= spec_phase_a(snap.channel_a));
    }
    if snap.channel_b {
        steps.push(LedStep { level: true, hold_ms: 50 });
        steps.push(LedStep { level: false, hold_ms: 50 });
        steps.push(LedStep { level: true, hold_ms: 50 });
        steps.push(LedStep { level: false, hold_ms: 50 });
    } else {
        steps.push(LedStep { level: false, hold_ms: 200 });
    }
    proof {
        assert(steps@ =~= spec_phase_a(snap.channel_a) + spec_phase_b(snap.channel_b));
    }
    let ghost mid = steps@;
    if !snap.channel_a && !snap.channel_b {
        for i in 0..12u32
            invariant
                steps@ == mid + spec_heartbeat(i as nat),
        {
            steps.push(LedStep { level: true, hold_ms: 50 });
            steps.push(LedStep { level: false, hold_ms: 50 });
            proof {
                assert(steps@ =~= mid + spec_heartbeat((i + 1) as nat));
            }
        }
    } else {
        steps.push(LedStep { level: false, hold_ms: 600 });
    }
    proof {
        assert(steps@ =~= spec_pattern(snap));
    }
    steps
}

/// Arbiter keeping at most one rendering run in flight.
///
/// Each control-loop tick the owner reports whether the most recently
/// dispatched rendering run has finished, and the arbiter decides whether to
/// dispatch another.
#[derive(Clone, Copy, PartialEq, Eq, Structural, Debug)]
pub struct RenderArbiter {
    /// A rendering pass has been dispatched and not yet observed complete.
    pub in_flight: bool,
}

impl RenderArbiter {
    /// Builds an arbiter with nothing in flight.
    pub fn new() -> (g: RenderArbiter)
        ensures
            !g.in_flight,
    {
        RenderArbiter { in_flight: false }
    }

    /// One tick of the arbiter.  A rendering run is dispatched exactly when
    /// none is in flight or the one in flight has just finished — never
    /// while one is still running, so two runs never overlap.
    pub fn on_tick(&mut self, completed: bool) -> (dispatch: bool)
        ensures
            dispatch == (!old(self).in_flight || completed),
            final(self).in_flight == (old(self).in_flight || dispatch),
    {
        if !self.in_flight || completed {
            self.in_flight = true;
            true
        } else {
            false
        }
    }
}

/// Splitting a blink sequence splits its duration.
pub proof fn lemma_duration_concat(s1: Seq<LedStep>, s2: Seq<LedStep>)
    ensures
        spec_duration(s1 + s2) == spec_duration(s1) + spec_duration(s2),
    decreases s1.len(),
{
    if s1.len() == 0 {
        assert(s1 + s2 =~= s2);
    } else {
        lemma_duration_concat(s1.subrange(1, s1.len() as int), s2);
        assert((s1 + s2).subrange(1, (s1 + s2).len() as int) =~= s1.subrange(
            1,
            s1.len() as int,
        ) + s2);
    }
}

/// Each heartbeat cycle lasts 100 ms.
pub proof fn lemma_heartbeat_duration(n: nat)
    ensures
        spec_duration(spec_heartbeat(n)) == 100 * n,
    decreases n,
{
    reveal_with_fuel(spec_duration, 4);
    if n > 0 {
        lemma_heartbeat_duration((n - 1) as nat);
        let cycle = seq![
            LedStep { level: true, hold_ms: 50 },
            LedStep { level: false, hold_ms: 50 },
        ];
        lemma_duration_concat(spec_heartbeat((n - 1) as nat), cycle);
        assert(cycle.subrange(1, 2) =~= seq![LedStep { level: false, hold_ms: 50 }]);
        assert(seq![LedStep { level: false, hold_ms: 50 }].subrange(1, 1) =~= Seq::<
            LedStep,
        >::empty());
    }
}

/// A rendering pass has a fixed, bounded duration: 2200 ms when both
/// channels are inactive (the idle heartbeat), 1600 ms otherwise.
pub proof fn lemma_pattern_duration(s: StatusSnapshot)
    ensures
        spec_duration(spec_pattern(s)) == if !s.channel_a && !s.channel_b {
            2200int
        } else {
            1600int
        },
{
    reveal_with_fuel(spec_duration, 3);
    lemma_duration_concat(
        spec_phase_a(s.channel_a) + spec_phase_b(s.channel_b),
        spec_tail(s.channel_a, s.channel_b),
    );
    lemma_duration_concat(spec_phase_a(s.channel_a), spec_phase_b(s.channel_b));
    lemma_phase_a_duration(s.channel_a);
    lemma_phase_b_duration(s.channel_b);
    if !s.channel_a && !s.channel_b {
        lemma_heartbeat_duration(12);
    } else {
        assert(seq![LedStep { level: false, hold_ms: 600 }].subrange(1, 1) =~= Seq::<
            LedStep,
        >::empty());
    }
}

/// The opening phase lasts 800 ms whether or not channel A is active.
pub proof fn lemma_phase_a_duration(active: bool)
    ensures
        spec_duration(spec_phase_a(active)) == 800,
{
    reveal_with_fuel(spec_duration, 5);
    let s = spec_phase_a(active);
    if active {
        assert(s.subrange(1, 3) =~= seq![
            LedStep { level: false, hold_ms: 100 },
            LedStep { level: false, hold_ms: 600 },
        ]);
        assert(s.subrange(1, 3).subrange(1, 2) =~= seq![LedStep { level: false, hold_ms: 600 }]);
        assert(seq![LedStep { level: false, hold_ms: 600 }].subrange(1, 1) =~= Seq::<
            LedStep,
        >::empty());
    } else {
        assert(s.subrange(1, 2) =~= seq![LedStep { level: false, hold_ms: 600 }]);
        assert(seq![LedStep { level: false, hold_ms: 600 }].subrange(1, 1) =~= Seq::<
            LedStep,
        >::empty());
    }
}

/// The middle phase lasts 200 ms whether or not channel B is active.
pub proof fn lemma_phase_b_duration(active: bool)
    ensures
        spec_duration(spec_phase_b(active)) == 200,
{
    reveal_with_fuel(spec_duration, 6);
    let s = spec_phase_b(active);
    if active {
        assert(s.subrange(1, 4) =~= seq![
            LedStep { level: false, hold_ms: 50 },
            LedStep { level: true, hold_ms: 50 },
            LedStep { level: false, hold_ms: 50 },
        ]);
        assert(s.subrange(1, 4).subrange(1, 3) =~= seq![
            LedStep { level: true, hold_ms: 50 },
            LedStep { level: false, hold_ms: 50 },
        ]);
        assert(s.subrange(1, 4).subrange(1, 3).subrange(1, 2) =~= seq![
            LedStep { level: false, hold_ms: 50 },
        ]);
        assert(seq![LedStep { level: false, hold_ms: 50 }].subrange(1, 1) =~= Seq::<
            LedStep,
        >::empty());
    } else {
        assert(s.subrange(1, 1) =~= Seq::<LedStep>::empty());
    }
}

} // verus!
