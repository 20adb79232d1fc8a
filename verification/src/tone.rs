//! The software-timed tone: the speaker pin is driven high and low by hand,
//! with a delay after each edge. A fixed delay gives a steady tone; a delay
//! that sweeps up and down gives a wavering siren.

use vstd::prelude::*;
use vstd::arithmetic::div_mod::{
    lemma_add_mod_noop,
    lemma_mod_add_multiples_vanish,
    lemma_mod_bound,
    lemma_small_mod,
};

verus! {

/// One half of a square wave: the level to put on the pin, and how long to
/// hold it, in microseconds.
#[derive(Clone, Copy, Debug, PartialEq, Eq, Structural)]
pub struct PinStep {
    pub level_high: bool,
    pub hold_us: u32,
}

/// One cycle of the square wave: the pin goes high for `half_period_us`
/// microseconds, then low for as long.
pub fn make_sin_wave(half_period_us: u32) -> (cycle: [PinStep; 2])
    ensures
        cycle[0] == (PinStep { level_high: true, hold_us: half_period_us }),
        cycle[1] == (PinStep { level_high: false, hold_us: half_period_us }),
{
    [
        PinStep { level_high: true, hold_us: half_period_us },
        PinStep { level_high: false, hold_us: half_period_us },
    ]
}

/// A point of the sweep: the offset added to the half period, and the
/// direction in which it moves next.
pub struct SweepPoint {
    pub offset: int,
    pub increasing: bool,
}

/// Where every sweep starts: offset 0, going up.
pub open spec fn sweep_start() -> SweepPoint {
    SweepPoint { offset: 0, increasing: true }
}

/// The points that a sweep between 0 and `turn_at` passes through. The
/// offset stays within the two bounds, and at a bound the direction already
/// points away from it. With `turn_at == 0` the only point is the start.
pub open spec fn on_sweep(turn_at: int, point: SweepPoint) -> bool {
    &&& 0 <= point.offset <= turn_at
    &&& point.increasing ==> point.offset < turn_at || turn_at == 0
    &&& !point.increasing ==> point.offset > 0
}

/// One tick of the sweep: the offset moves by one in its direction, and the
/// direction flips where the offset reaches a bound.
pub open spec fn sweep_step(turn_at: int, point: SweepPoint) -> SweepPoint {
    if turn_at == 0 {
        point
    } else if point.increasing {
        SweepPoint { offset: point.offset + 1, increasing: point.offset + 1 < turn_at }
    } else {
        SweepPoint { offset: point.offset - 1, increasing: point.offset - 1 == 0 }
    }
}

/// The point reached after a number of ticks.
pub open spec fn sweep_after(turn_at: int, point: SweepPoint, ticks: nat) -> SweepPoint
    decreases ticks,
{
    if ticks == 0 {
        point
    } else {
        sweep_step(turn_at, sweep_after(turn_at, point, (ticks - 1) as nat))
    }
}

/// The triangle wave of height `turn_at` and period `2 * turn_at`.
pub open spec fn triangle_wave(turn_at: int, ticks: int) -> int {
    if turn_at <= 0 {
        0
    } else {
        let phase = ticks % (2 * turn_at);
        if phase <= turn_at {
            phase
        } else {
            2 * turn_at - phase
        }
    }
}

/// How far a point is into its period, counted from the start.
spec fn phase_of(turn_at: int, point: SweepPoint) -> int {
    if point.increasing {
        point.offset
    } else {
        2 * turn_at - point.offset
    }
}

/// The point that lies `phase` ticks into a period.
spec fn point_at(turn_at: int, phase: int) -> SweepPoint {
    if phase < turn_at {
        SweepPoint { offset: phase, increasing: true }
    } else {
        SweepPoint { offset: 2 * turn_at - phase, increasing: false }
    }
}

proof fn lemma_step_advances_phase(turn_at: int, phase: int)
    requires
        turn_at >= 1,
        0 <= phase < 2 * turn_at,
    ensures
        sweep_step(turn_at, point_at(turn_at, phase)) == point_at(
            turn_at,
            (phase + 1) % (2 * turn_at),
        ),
{
    if phase + 1 < 2 * turn_at {
        lemma_small_mod((phase + 1) as nat, (2 * turn_at) as nat);
    } else {
        lemma_mod_add_multiples_vanish(0, 2 * turn_at);
        lemma_small_mod(0, (2 * turn_at) as nat);
    }
}

proof fn lemma_ticks_advance_phase(turn_at: int, phase: int, ticks: nat)
    requires
        turn_at >= 1,
        0 <= phase < 2 * turn_at,
    ensures
        sweep_after(turn_at, point_at(turn_at, phase), ticks) == point_at(
            turn_at,
            (phase + ticks) % (2 * turn_at),
        ),
    decreases ticks,
{
    let period = 2 * turn_at;
    if ticks == 0 {
        lemma_small_mod(phase as nat, period as nat);
    } else {
        let earlier = (ticks - 1) as nat;
        lemma_ticks_advance_phase(turn_at, phase, earlier);
        let reached = (phase + earlier) % period;
        lemma_mod_bound(phase + earlier, period);
        lemma_step_advances_phase(turn_at, reached);
        lemma_add_mod_noop(phase + earlier, 1, period);
        lemma_small_mod(1, period as nat);
        lemma_small_mod(reached as nat, period as nat);
        assert((reached + 1) % period == (phase + ticks) % period) by {
            assert(phase + earlier + 1 == phase + ticks);
            assert(reached % period == reached);
        }
    }
}

/// A tick never leaves the sweep.
pub proof fn lemma_sweep_stays_in_range(turn_at: int, point: SweepPoint)
    requires
        on_sweep(turn_at, point),
    ensures
        on_sweep(turn_at, sweep_step(turn_at, point)),
{
}

/// From the start the offset follows the triangle wave, and it goes up in
/// the first half of each period: it rises for `turn_at` ticks, the
/// direction flips, it falls for `turn_at` ticks back to 0, and the
/// direction flips again.
pub proof fn lemma_sweep_is_triangle_wave(turn_at: int, ticks: nat)
    requires
        turn_at >= 0,
    ensures
        sweep_after(turn_at, sweep_start(), ticks).offset == triangle_wave(turn_at, ticks as int),
        turn_at >= 1 ==> (sweep_after(turn_at, sweep_start(), ticks).increasing <==> (ticks as int)
            % (2 * turn_at) < turn_at),
        turn_at == 0 ==> sweep_after(turn_at, sweep_start(), ticks) == sweep_start(),
    decreases ticks,
{
    if turn_at == 0 {
        if ticks > 0 {
            lemma_sweep_is_triangle_wave(turn_at, (ticks - 1) as nat);
        }
    } else {
        assert(point_at(turn_at, 0) == sweep_start());
        lemma_ticks_advance_phase(turn_at, 0, ticks);
        lemma_mod_bound(ticks as int, 2 * turn_at);
    }
}

/// The sweep is periodic: from any of its points, `2 * turn_at` ticks more
/// lead to the same point.
pub proof fn lemma_sweep_period(turn_at: int, point: SweepPoint, ticks: nat)
    requires
        on_sweep(turn_at, point),
    ensures
        sweep_after(turn_at, point, (ticks + 2 * turn_at) as nat) == sweep_after(
            turn_at,
            point,
            ticks,
        ),
{
    if turn_at >= 1 {
        let phase = phase_of(turn_at, point);
        assert(point_at(turn_at, phase) == point);
        lemma_ticks_advance_phase(turn_at, phase, ticks);
        lemma_ticks_advance_phase(turn_at, phase, (ticks + 2 * turn_at) as nat);
        lemma_mod_add_multiples_vanish(phase + ticks, 2 * turn_at);
    }
}

/// The swept tone: a half period that wavers between `base_us` and
/// `base_us + turn_at` microseconds.
#[derive(Clone, Copy, Debug)]
pub struct ToneSweep {
    base_us: u32,
    turn_at: u32,
    offset: u32,
    increasing: bool,
}

impl ToneSweep {
    #[verifier::type_invariant]
    spec fn well_formed(self) -> bool {
        &&& self.base_us + self.turn_at <= u32::MAX
        &&& on_sweep(
            self.turn_at as int,
            SweepPoint { offset: self.offset as int, increasing: self.increasing },
        )
    }

    /// The shortest half period, in microseconds.
    pub closed spec fn spec_base_us(&self) -> u32 {
        self.base_us
    }

    /// The upper bound of the offset.
    pub closed spec fn spec_turn_at(&self) -> u32 {
        self.turn_at
    }

    /// Where the sweep is.
    pub closed spec fn point(&self) -> SweepPoint {
        SweepPoint { offset: self.offset as int, increasing: self.increasing }
    }

    /// A sweep at its start. The longest half period, `base_us + turn_at`,
    /// has to fit 32 bits: a sweep that does not is refused.
    pub fn new(base_us: u32, turn_at: u32) -> (sweep: Option<ToneSweep>)
        ensures
            sweep is Some <==> base_us + turn_at <= u32::MAX,
            sweep matches Some(s) ==> s.spec_base_us() == base_us && s.spec_turn_at() == turn_at
                && s.point() == sweep_start(),
    {
        if turn_at <= u32::MAX - base_us {
            Some(ToneSweep { base_us, turn_at, offset: 0, increasing: true })
        } else {
            None
        }
    }

    /// The offset that is added to the half period. It lies between 0 and
    /// the upper bound.
    pub fn offset(&self) -> (offset: u32)
        ensures
            offset == self.point().offset,
            offset <= self.spec_turn_at(),
    {
        proof {
            use_type_invariant(self);
        }
        self.offset
    }

    /// Whether the offset moves up at the next tick.
    pub fn increasing(&self) -> (increasing: bool)
        ensures
            increasing == self.point().increasing,
    {
        self.increasing
    }

    /// The upper bound of the offset.
    pub fn turn_at(&self) -> (turn_at: u32)
        ensures
            turn_at == self.spec_turn_at(),
    {
        self.turn_at
    }

    /// The delay after each edge of the pin, in microseconds: the base plus
    /// the offset.
    pub fn half_period_us(&self) -> (us: u32)
        ensures
            us == self.spec_base_us() + self.point().offset,
    {
        proof {
            use_type_invariant(self);
        }
        self.base_us + self.offset
    }

    /// One tick of the sweep.
    pub fn advance(&mut self)
        ensures
            final(self).spec_base_us() == old(self).spec_base_us(),
            final(self).spec_turn_at() == old(self).spec_turn_at(),
            final(self).point() == sweep_step(old(self).spec_turn_at() as int, old(self).point()),
            on_sweep(final(self).spec_turn_at() as int, final(self).point()),
    {
        proof {
            use_type_invariant(&*self);
        }
        if self.turn_at == 0 {
            return ;
        }
        let (offset, increasing): (u32, bool) = if self.increasing {
            (self.offset + 1, self.offset + 1 < self.turn_at)
        } else {
            (self.offset - 1, self.offset - 1 == 0)
        };
        *self = ToneSweep { base_us: self.base_us, turn_at: self.turn_at, offset, increasing };
    }
}

} // verus!
