//! What the speaker is told on each alarm tick: the tone while the alarm is
//! active, silence while it is not, and a duty cycle that never reaches
//! either end of its range.

use vstd::prelude::*;

verus! {

/// What to do with the tone generator of the speaker.
#[derive(Clone, Copy, Debug, PartialEq, Eq, Structural)]
pub enum ToneCommand {
    /// Set the tone to `period_hz` hertz and switch the generator on.
    Enable { period_hz: u32 },
    /// Switch the generator off.
    Disable,
}

/// The duty that the configured percentage asks for, before it is clamped:
/// `duty_percent` hundredths of `max_duty`, rounded down.
pub open spec fn raw_duty(duty_percent: int, max_duty: int) -> int {
    duty_percent * max_duty / 100
}

/// A value clamped into `low ..= high`.
pub open spec fn clamp_to(value: int, low: int, high: int) -> int {
    if value < low {
        low
    } else if value > high {
        high
    } else {
        value
    }
}

/// The duty that is applied: the raw duty, clamped into `1 ..= max_duty / 2`.
pub open spec fn clamped_duty(duty_percent: int, max_duty: int) -> int {
    clamp_to(raw_duty(duty_percent, max_duty), 1, max_duty / 2)
}

/// The fixed tone of the alarm: a base frequency and a duty cycle.
#[derive(Clone, Copy, Debug)]
pub struct SpeakerConfig {
    base_freq_hz: u32,
    duty_percent: u32,
}

impl SpeakerConfig {
    #[verifier::type_invariant]
    spec fn well_formed(self) -> bool {
        self.base_freq_hz > 0
    }

    /// The frequency of the tone, in hertz.
    pub closed spec fn spec_base_freq_hz(&self) -> u32 {
        self.base_freq_hz
    }

    /// The duty cycle, in percent of the maximum duty.
    pub closed spec fn spec_duty_percent(&self) -> u32 {
        self.duty_percent
    }

    /// A tone of `base_freq_hz` hertz at `duty_percent` percent. A frequency
    /// of zero is no tone, and is refused.
    pub fn new(base_freq_hz: u32, duty_percent: u32) -> (config: Option<SpeakerConfig>)
        ensures
            config is Some <==> base_freq_hz > 0,
            config matches Some(c) ==> c.spec_base_freq_hz() == base_freq_hz
                && c.spec_duty_percent() == duty_percent,
    {
        if base_freq_hz > 0 {
            Some(SpeakerConfig { base_freq_hz, duty_percent })
        } else {
            None
        }
    }

    /// The frequency of the tone, in hertz. It is never zero.
    pub fn base_freq_hz(&self) -> (hz: u32)
        ensures
            hz == self.spec_base_freq_hz(),
            hz > 0,
    {
        proof {
            use_type_invariant(self);
        }
        self.base_freq_hz
    }

    /// The duty cycle, in percent of the maximum duty.
    pub fn duty_percent(&self) -> (percent: u32)
        ensures
            percent == self.spec_duty_percent(),
    {
        self.duty_percent
    }

    /// The state that a tick asserts on the tone generator: the tone while
    /// the alarm is active, off while it is not.
    pub fn tone_command(&self, alarm_active: bool) -> (command: ToneCommand)
        ensures
            command == (if alarm_active {
                ToneCommand::Enable { period_hz: self.spec_base_freq_hz() }
            } else {
                ToneCommand::Disable
            }),
            command matches ToneCommand::Enable { period_hz } ==> period_hz > 0,
    {
        proof {
            use_type_invariant(self);
        }
        if alarm_active {
            ToneCommand::Enable { period_hz: self.base_freq_hz }
        } else {
            ToneCommand::Disable
        }
    }

    /// The duty that a tick applies, given the largest duty that the
    /// generator takes: the configured percentage of `max_duty`, clamped into
    /// `1 ..= max_duty / 2`. It is never 0 and never `max_duty`, so that the
    /// speaker is neither silent nor stuck on.
    pub fn applied_duty(&self, max_duty: u16) -> (duty: u16)
        requires
            max_duty >= 2,
        ensures
            duty == clamped_duty(self.spec_duty_percent() as int, max_duty as int),
            1 <= duty <= max_duty / 2,
            duty != 0,
            duty != max_duty,
    {
        let percent: u64 = self.duty_percent as u64;
        let top: u64 = max_duty as u64;
        assert(percent * top <= 0xffff_ffff * 0xffff) by (nonlinear_arith)
            requires
                percent <= 0xffff_ffff,
                top <= 0xffff,
        ;
        let raw: u64 = percent * top / 100;
        let high: u64 = (max_duty / 2) as u64;
        if raw < 1 {
            1
        } else if raw > high {
            max_duty / 2
        } else {
            raw as u16
        }
    }
}

} // verus!
