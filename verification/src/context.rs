//! The shared hardware context: the state that the foreground loop and the
//! alarm tick both reach. It has one cell for each shared peripheral, empty
//! until the peripheral is handed in, and the alarm-active flag.
//!
//! The foreground loop executes alarm commands: they write the display and
//! the flag, and nothing else does. The alarm tick reads the flag and
//! asserts the state of the speaker anew on every tick, so that the speaker
//! follows the flag within one tick whatever happened to it before.

use vstd::prelude::*;
use microbit::display::nonblocking::GreyscaleImage;
use crate::glyph::{
    alarm_face,
    alarm_rows,
    blank_face,
    blank_rows,
    displayable,
    get_default_grayscale_image,
    image_pixels,
    pixels_of,
};
use crate::machine::AlarmCommand;
use crate::speaker::{clamped_duty, SpeakerConfig, ToneCommand};

verus! {

/// What the caller has to do with the display driver after a command.
#[derive(Clone, Copy, Debug)]
pub enum DisplayAction {
    /// Show this image.
    Show(GreyscaleImage),
    /// Clear the display.
    Clear,
}

/// What the caller has to do with the speaker on a tick.
#[derive(Clone, Copy, Debug, PartialEq, Eq, Structural)]
pub struct TickAction {
    /// The state of the tone generator.
    pub tone: ToneCommand,
    /// The duty to apply.
    pub duty: u16,
}

/// The state of the tone generator of the speaker.
#[derive(Clone, Copy, Debug, PartialEq, Eq, Structural)]
pub struct SpeakerState {
    pub enabled: bool,
    pub period_hz: u32,
    pub duty: u16,
}

/// The state of the periodic timer: whether its tick event is raised.
#[derive(Clone, Copy, Debug, PartialEq, Eq, Structural)]
pub struct TimerState {
    pub tick_event: bool,
}

/// The context as contracts see it. A cell is `None` until its peripheral
/// has been handed in. The display cell holds the pixels that the driver
/// has latched.
#[verifier::ext_equal]
pub struct ContextView {
    pub display: Option<Seq<Seq<u8>>>,
    pub speaker: Option<SpeakerState>,
    pub timer: Option<TimerState>,
    pub alarm_active: bool,
}

/// The context after a command. `Fall` shows the alarm face and sets the
/// flag, `Stop` clears the display and the flag; speaker and timer are not
/// touched.
pub open spec fn after_command(before: ContextView, command: AlarmCommand) -> ContextView {
    ContextView {
        display: Some(
            match command {
                AlarmCommand::Fall => alarm_face(),
                AlarmCommand::Stop => blank_face(),
            },
        ),
        alarm_active: command is Fall,
        ..before
    }
}

/// The speaker after a tick. It is on exactly if the flag is set, and it
/// has the clamped duty. The tone is set anew only while the alarm is
/// active.
pub open spec fn speaker_after_tick(
    before: SpeakerState,
    alarm_active: bool,
    config: SpeakerConfig,
    max_duty: u16,
) -> SpeakerState {
    SpeakerState {
        enabled: alarm_active,
        period_hz: if alarm_active {
            config.spec_base_freq_hz()
        } else {
            before.period_hz
        },
        duty: clamped_duty(config.spec_duty_percent() as int, max_duty as int) as u16,
    }
}

/// Whether a tick finds the peripherals it works on.
pub open spec fn tick_is_served(before: ContextView) -> bool {
    before.speaker is Some && before.timer is Some
}

/// The context after a tick. Where speaker and timer are both there, the
/// speaker is set from the flag and the tick event is cleared. Where one is
/// missing nothing happens. Display and flag are never touched.
pub open spec fn after_tick(before: ContextView, config: SpeakerConfig, max_duty: u16) -> ContextView {
    if tick_is_served(before) {
        ContextView {
            speaker: Some(
                speaker_after_tick(before.speaker->0, before.alarm_active, config, max_duty),
            ),
            timer: Some(TimerState { tick_event: false }),
            ..before
        }
    } else {
        before
    }
}

/// The shared hardware context.
#[derive(Clone, Copy, Debug)]
pub struct SharedContext {
    display: Option<[[u8; 5]; 5]>,
    speaker: Option<SpeakerState>,
    timer: Option<TimerState>,
    alarm_active: bool,
}

impl View for SharedContext {
    type V = ContextView;

    closed spec fn view(&self) -> ContextView {
        ContextView {
            display: match self.display {
                Some(rows) => Some(pixels_of(rows)),
                None => None,
            },
            speaker: self.speaker,
            timer: self.timer,
            alarm_active: self.alarm_active,
        }
    }
}

impl SharedContext {
    #[verifier::type_invariant]
    spec fn well_formed(self) -> bool {
        self.display matches Some(rows) ==> displayable(pixels_of(rows))
    }

    /// A context before bring-up: every cell empty, the alarm not active.
    pub fn new() -> (context: SharedContext)
        ensures
            context@ == (ContextView {
                display: None,
                speaker: None,
                timer: None,
                alarm_active: false,
            }),
    {
        SharedContext { display: None, speaker: None, timer: None, alarm_active: false }
    }

    /// Hands the display in. It starts cleared. The display cell is filled
    /// once: a second display is not taken.
    pub fn install_display(&mut self)
        requires
            old(self)@.display is None,
        ensures
            final(self)@ == (ContextView { display: Some(blank_face()), ..old(self)@ }),
    {
        self.display = Some(blank_rows());
    }

    /// Hands the speaker in, in the state that bring-up left it in.
    pub fn install_speaker(&mut self, state: SpeakerState)
        ensures
            final(self)@ == (ContextView { speaker: Some(state), ..old(self)@ }),
    {
        proof {
            use_type_invariant(&*self);
        }
        self.speaker = Some(state);
    }

    /// Hands the timer in, in the state that bring-up left it in.
    pub fn install_timer(&mut self, state: TimerState)
        ensures
            final(self)@ == (ContextView { timer: Some(state), ..old(self)@ }),
    {
        proof {
            use_type_invariant(&*self);
        }
        self.timer = Some(state);
    }

    /// The alarm-active flag.
    pub fn alarm_active(&self) -> (active: bool)
        ensures
            active == self@.alarm_active,
    {
        self.alarm_active
    }

    /// The rows that the display has latched, top first, if the display has
    /// been handed in. Every pixel is a brightness from 0 to 9.
    pub fn display_rows(&self) -> (rows: Option<[[u8; 5]; 5]>)
        ensures
            rows is Some <==> self@.display is Some,
            rows matches Some(r) ==> self@.display == Some(pixels_of(r)) && displayable(
                pixels_of(r),
            ),
    {
        proof {
            use_type_invariant(self);
        }
        self.display
    }

    /// The state of the speaker, if the speaker has been handed in.
    pub fn speaker(&self) -> (state: Option<SpeakerState>)
        ensures
            state == self@.speaker,
    {
        self.speaker
    }

    /// The state of the timer, if the timer has been handed in.
    pub fn timer(&self) -> (state: Option<TimerState>)
        ensures
            state == self@.timer,
    {
        self.timer
    }

    /// Executes an alarm command, in the foreground. `Fall` shows the alarm
    /// face and sets the flag; `Stop` clears the display and the flag. The
    /// result says what to do with the display driver. The display has to
    /// have been handed in.
    pub fn execute(&mut self, command: AlarmCommand) -> (action: DisplayAction)
        requires
            old(self)@.display is Some,
        ensures
            final(self)@ == after_command(old(self)@, command),
            match command {
                AlarmCommand::Fall => action matches DisplayAction::Show(image) && image_pixels(
                    image,
                ) == alarm_face(),
                AlarmCommand::Stop => action is Clear,
            },
    {
        match command {
            AlarmCommand::Fall => {
                *self = SharedContext {
                    display: Some(alarm_rows()),
                    speaker: self.speaker,
                    timer: self.timer,
                    alarm_active: true,
                };
                DisplayAction::Show(get_default_grayscale_image())
            },
            AlarmCommand::Stop => {
                *self = SharedContext {
                    display: Some(blank_rows()),
                    speaker: self.speaker,
                    timer: self.timer,
                    alarm_active: false,
                };
                DisplayAction::Clear
            },
        }
    }

    /// Serves one alarm tick. `max_duty` is the largest duty that the tone
    /// generator takes. Where speaker and timer have both been handed in,
    /// the state of the speaker is asserted from the flag and the tick event
    /// is cleared, and the result says what to do with the tone generator.
    /// Where one of them is missing, nothing happens and the result is
    /// `None`.
    pub fn alarm_tick(&mut self, config: &SpeakerConfig, max_duty: u16) -> (action: Option<
        TickAction,
    >)
        requires
            tick_is_served(old(self)@) ==> max_duty >= 2,
        ensures
            final(self)@ == after_tick(old(self)@, *config, max_duty),
            action is Some <==> tick_is_served(old(self)@),
            action matches Some(a) ==> a.tone == (if old(self)@.alarm_active {
                ToneCommand::Enable { period_hz: config.spec_base_freq_hz() }
            } else {
                ToneCommand::Disable
            }) && a.duty == clamped_duty(config.spec_duty_percent() as int, max_duty as int),
    {
        proof {
            use_type_invariant(&*self);
        }
        match (self.speaker, self.timer) {
            (Some(speaker), Some(_)) => {
                let tone = config.tone_command(self.alarm_active);
                let duty = config.applied_duty(max_duty);
                let period_hz = match tone {
                    ToneCommand::Enable { period_hz } => period_hz,
                    ToneCommand::Disable => speaker.period_hz,
                };
                *self = SharedContext {
                    display: self.display,
                    speaker: Some(SpeakerState { enabled: self.alarm_active, period_hz, duty }),
                    timer: Some(TimerState { tick_event: false }),
                    alarm_active: self.alarm_active,
                };
                Some(TickAction { tone, duty })
            },
            _ => None,
        }
    }
}

/// Executing the same command twice in a row is the same as executing it
/// once. After `Stop` the display is cleared and the flag is down, after
/// `Fall` the alarm face is shown and the flag is up, whatever the context
/// was before.
pub proof fn lemma_command_is_idempotent(before: ContextView, command: AlarmCommand)
    ensures
        after_command(after_command(before, command), command) == after_command(before, command),
        after_command(before, AlarmCommand::Stop).display == Some(blank_face()),
        !after_command(before, AlarmCommand::Stop).alarm_active,
        after_command(before, AlarmCommand::Fall).display == Some(alarm_face()),
        after_command(before, AlarmCommand::Fall).alarm_active,
{
}

/// A tick heals the speaker: whatever state the speaker was left in, after
/// the tick it is on exactly if the alarm is active and has the clamped
/// duty, which is never 0 and never more than half the largest duty. While
/// the alarm is active nothing of the earlier state is left.
pub proof fn lemma_tick_heals_speaker(
    before: ContextView,
    disturbed: SpeakerState,
    config: SpeakerConfig,
    max_duty: u16,
)
    requires
        tick_is_served(before),
        max_duty >= 2,
    ensures
        ({
            let healed = after_tick(
                ContextView { speaker: Some(disturbed), ..before },
                config,
                max_duty,
            );
            &&& healed.speaker is Some
            &&& healed.speaker->0.enabled == before.alarm_active
            &&& 1 <= healed.speaker->0.duty <= max_duty / 2
            &&& healed.speaker->0.duty == after_tick(before, config, max_duty).speaker->0.duty
            &&& before.alarm_active ==> healed == after_tick(before, config, max_duty)
        }),
{
}

/// The speaker is never more than one tick behind the flag: after a
/// command, the next tick that is served brings the speaker in line with
/// it. A second tick changes nothing more.
pub proof fn lemma_speaker_follows_command_within_one_tick(
    before: ContextView,
    command: AlarmCommand,
    config: SpeakerConfig,
    max_duty: u16,
)
    requires
        tick_is_served(before),
    ensures
        ({
            let ticked = after_tick(after_command(before, command), config, max_duty);
            &&& ticked.alarm_active == (command is Fall)
            &&& ticked.speaker->0.enabled == (command is Fall)
            &&& ticked.display == after_command(before, command).display
            &&& after_tick(ticked, config, max_duty) == ticked
        }),
{
}


} // verus!
