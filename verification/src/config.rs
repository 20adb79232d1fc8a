//! The tunable parameter set of the alarm controller. The values are fixed
//! when the program is built.

use vstd::prelude::*;

verus! {

/// Alarm ticks per second: how often the periodic alarm interrupt fires.
pub const TICK: u32 = 64;

/// Base tone of the speaker. For the tone generator it is a frequency in
/// hertz; for the software-timed tone it is the shortest half period, in
/// microseconds.
pub const BASE_FREQ: u32 = 100;

/// Duty cycle of the speaker waveform, in percent of the largest duty.
pub const DUTY: u32 = 25;

/// Fall threshold, in g: a sample counts as a fall where its magnitude is
/// above it.
pub const GEES: u32 = 2;

/// Upper bound of the offset that the swept tone adds to its half period,
/// in microseconds. The lower bound is 0.
pub const OFFSET_TURN_AT: u32 = 100;

/// The largest duty that the tone generator is set up with.
pub const MAX_DUTY: u16 = 32767;

/// Frequency of the clock that drives the periodic timer, in hertz.
pub const TIMER_CLOCK_HZ: u32 = 32768;

/// The largest prescaler that the periodic timer takes.
pub const MAX_PRESCALER: u32 = 4095;

/// The prescaler for a tick rate: the timer ticks once every
/// `prescaler + 1` cycles of its clock, so a rate of `tick_hz` takes
/// `TIMER_CLOCK_HZ / tick_hz - 1`.
pub open spec fn prescaler_for(tick_hz: int) -> int {
    TIMER_CLOCK_HZ as int / tick_hz - 1
}

/// The tick rates that the timer can be set to.
pub open spec fn tick_rate_in_range(tick_hz: int) -> bool {
    tick_hz >= 1 && 0 <= prescaler_for(tick_hz) <= MAX_PRESCALER
}

/// The prescaler of the periodic timer for a tick rate of `tick_hz` ticks
/// per second, or `None` where the timer cannot be set to that rate.
pub fn rtc_prescaler(tick_hz: u32) -> (prescaler: Option<u32>)
    ensures
        prescaler is Some <==> tick_rate_in_range(tick_hz as int),
        prescaler matches Some(p) ==> p == prescaler_for(tick_hz as int),
{
    if tick_hz == 0 {
        return None;
    }
    let cycles: u32 = TIMER_CLOCK_HZ / tick_hz;
    if cycles >= 1 && cycles - 1 <= MAX_PRESCALER {
        Some(cycles - 1)
    } else {
        None
    }
}

/// The timer can be set to the rates from 8 to 32768 ticks per second, and
/// to no others.
pub proof fn lemma_tick_rates_in_range(tick_hz: int)
    ensures
        tick_rate_in_range(tick_hz) <==> 8 <= tick_hz <= 32768,
{
    if tick_hz >= 1 {
        let cycles: int = 32768int / tick_hz;
        assert(cycles * tick_hz <= 32768 < (cycles + 1) * tick_hz) by (nonlinear_arith)
            requires
                tick_hz >= 1,
                cycles == 32768int / tick_hz,
        ;
        if tick_hz > 32768 {
            assert(cycles <= 0) by (nonlinear_arith)
                requires
                    cycles * tick_hz <= 32768,
                    tick_hz > 32768,
            ;
        } else {
            assert(cycles >= 1) by (nonlinear_arith)
                requires
                    32768 < (cycles + 1) * tick_hz,
                    1 <= tick_hz <= 32768,
            ;
        }
        if tick_hz >= 8 {
            assert(cycles <= 4096) by (nonlinear_arith)
                requires
                    cycles * tick_hz <= 32768,
                    tick_hz >= 8,
            ;
        } else {
            assert(cycles > 4096) by (nonlinear_arith)
                requires
                    32768 < (cycles + 1) * tick_hz,
                    1 <= tick_hz < 8,
            ;
        }
    }
}

} // verus!
