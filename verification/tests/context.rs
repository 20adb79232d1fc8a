use fall_alarm::config::{BASE_FREQ, DUTY, MAX_DUTY};
use fall_alarm::context::{DisplayAction, SharedContext, SpeakerState, TickAction, TimerState};
use fall_alarm::machine::AlarmCommand;
use fall_alarm::speaker::{SpeakerConfig, ToneCommand};
use tiny_led_matrix::Render;

const FACE: [[u8; 5]; 5] = [
    [0, 1, 9, 1, 0],
    [0, 1, 9, 1, 0],
    [0, 1, 9, 1, 0],
    [0, 1, 1, 1, 0],
    [0, 1, 9, 1, 0],
];

const BLANK: [[u8; 5]; 5] = [[0; 5]; 5];

const QUIET: SpeakerState = SpeakerState { enabled: false, period_hz: 100, duty: 16383 };

fn brought_up() -> SharedContext {
    let mut context = SharedContext::new();
    context.install_display();
    context.install_speaker(QUIET);
    context.install_timer(TimerState { tick_event: false });
    context
}

fn config() -> SpeakerConfig {
    SpeakerConfig::new(BASE_FREQ, DUTY).unwrap()
}

#[test]
fn context_starts_empty_and_inert() {
    let context = SharedContext::new();
    assert_eq!(context.display_rows(), None);
    assert_eq!(context.speaker(), None);
    assert_eq!(context.timer(), None);
    assert!(!context.alarm_active());
}

#[test]
fn display_starts_cleared() {
    let mut context = SharedContext::new();
    context.install_display();
    assert_eq!(context.display_rows(), Some(BLANK));
    assert_eq!(context.speaker(), None);
    assert_eq!(context.timer(), None);
    assert!(!context.alarm_active());
}

#[test]
fn peripherals_are_handed_in_as_they_are() {
    let mut context = SharedContext::new();
    let speaker = SpeakerState { enabled: true, period_hz: 7, duty: 3 };
    context.install_speaker(speaker);
    assert_eq!(context.speaker(), Some(speaker));
    assert_eq!(context.timer(), None);
    context.install_timer(TimerState { tick_event: true });
    assert_eq!(context.timer(), Some(TimerState { tick_event: true }));
    assert_eq!(context.speaker(), Some(speaker));
    assert_eq!(context.display_rows(), None);
}

#[test]
fn fall_shows_the_face_and_sets_the_flag() {
    let mut context = brought_up();
    match context.execute(AlarmCommand::Fall) {
        DisplayAction::Show(image) => {
            for y in 0..5 {
                for x in 0..5 {
                    assert_eq!(image.brightness_at(x, y), FACE[y][x]);
                }
            }
        }
        DisplayAction::Clear => panic!("the display was cleared on a fall"),
    }
    assert!(context.alarm_active());
    assert_eq!(context.display_rows(), Some(FACE));
}

#[test]
fn stop_clears_the_display_and_the_flag() {
    let mut context = brought_up();
    context.execute(AlarmCommand::Fall);
    assert!(matches!(context.execute(AlarmCommand::Stop), DisplayAction::Clear));
    assert!(!context.alarm_active());
    assert_eq!(context.display_rows(), Some(BLANK));
}

#[test]
fn stop_twice_is_stop_once() {
    let mut context = brought_up();
    context.execute(AlarmCommand::Fall);
    assert!(matches!(context.execute(AlarmCommand::Stop), DisplayAction::Clear));
    let once = (context.display_rows(), context.alarm_active(), context.speaker(), context.timer());
    assert!(matches!(context.execute(AlarmCommand::Stop), DisplayAction::Clear));
    let twice = (context.display_rows(), context.alarm_active(), context.speaker(), context.timer());
    assert_eq!(once, twice);
    assert_eq!(twice.0, Some(BLANK));
    assert!(!twice.1);
}

#[test]
fn stop_without_a_fall_before_it() {
    let mut context = brought_up();
    assert!(matches!(context.execute(AlarmCommand::Stop), DisplayAction::Clear));
    assert!(!context.alarm_active());
    assert_eq!(context.display_rows(), Some(BLANK));
}

#[test]
fn fall_twice_is_fall_once() {
    let mut context = brought_up();
    context.execute(AlarmCommand::Fall);
    let once = (context.display_rows(), context.alarm_active(), context.speaker(), context.timer());
    assert!(matches!(context.execute(AlarmCommand::Fall), DisplayAction::Show(_)));
    let twice = (context.display_rows(), context.alarm_active(), context.speaker(), context.timer());
    assert_eq!(once, twice);
}

#[test]
fn commands_leave_speaker_and_timer_alone() {
    let mut context = SharedContext::new();
    context.install_display();
    let speaker = SpeakerState { enabled: true, period_hz: 7, duty: 3 };
    context.install_speaker(speaker);
    context.install_timer(TimerState { tick_event: true });
    context.execute(AlarmCommand::Fall);
    assert_eq!(context.speaker(), Some(speaker));
    assert_eq!(context.timer(), Some(TimerState { tick_event: true }));
    context.execute(AlarmCommand::Stop);
    assert_eq!(context.speaker(), Some(speaker));
    assert_eq!(context.timer(), Some(TimerState { tick_event: true }));
}

#[test]
fn commands_work_without_speaker_and_timer() {
    let mut context = SharedContext::new();
    context.install_display();
    context.execute(AlarmCommand::Fall);
    assert!(context.alarm_active());
    assert_eq!(context.display_rows(), Some(FACE));
    assert_eq!(context.speaker(), None);
    assert_eq!(context.timer(), None);
}

#[test]
fn tick_while_quiet_switches_the_speaker_off() {
    let mut context = brought_up();
    context.install_speaker(SpeakerState { enabled: true, period_hz: 440, duty: 9 });
    context.install_timer(TimerState { tick_event: true });
    let action = context.alarm_tick(&config(), MAX_DUTY);
    assert_eq!(action, Some(TickAction { tone: ToneCommand::Disable, duty: 8191 }));
    // The tone is not set anew while the alarm is quiet.
    assert_eq!(
        context.speaker(),
        Some(SpeakerState { enabled: false, period_hz: 440, duty: 8191 })
    );
    assert_eq!(context.timer(), Some(TimerState { tick_event: false }));
}

#[test]
fn tick_while_active_sounds_the_tone() {
    let mut context = brought_up();
    context.execute(AlarmCommand::Fall);
    context.install_timer(TimerState { tick_event: true });
    let action = context.alarm_tick(&config(), MAX_DUTY);
    assert_eq!(
        action,
        Some(TickAction { tone: ToneCommand::Enable { period_hz: 100 }, duty: 8191 })
    );
    assert_eq!(
        context.speaker(),
        Some(SpeakerState { enabled: true, period_hz: 100, duty: 8191 })
    );
    assert_eq!(context.timer(), Some(TimerState { tick_event: false }));
}

#[test]
fn tick_leaves_display_and_flag_alone() {
    let mut context = brought_up();
    context.execute(AlarmCommand::Fall);
    context.alarm_tick(&config(), MAX_DUTY);
    assert!(context.alarm_active());
    assert_eq!(context.display_rows(), Some(FACE));
    context.execute(AlarmCommand::Stop);
    context.alarm_tick(&config(), MAX_DUTY);
    assert!(!context.alarm_active());
    assert_eq!(context.display_rows(), Some(BLANK));
}

#[test]
fn tick_clamps_the_duty() {
    let mut context = brought_up();
    let loud = SpeakerConfig::new(BASE_FREQ, 1000).unwrap();
    let action = context.alarm_tick(&loud, 32767).unwrap();
    assert_eq!(action.duty, 16383);
    assert_eq!(context.speaker().unwrap().duty, 16383);
    let silent = SpeakerConfig::new(BASE_FREQ, 0).unwrap();
    let action = context.alarm_tick(&silent, 32767).unwrap();
    assert_eq!(action.duty, 1);
    assert_eq!(context.speaker().unwrap().duty, 1);
}

#[test]
fn tick_heals_a_disturbed_speaker() {
    let mut context = brought_up();
    context.execute(AlarmCommand::Fall);
    context.alarm_tick(&config(), MAX_DUTY);
    let healthy = context.speaker();
    for disturbed in [
        SpeakerState { enabled: false, period_hz: 0, duty: 0 },
        SpeakerState { enabled: false, period_hz: 100, duty: 8191 },
        SpeakerState { enabled: true, period_hz: 9999, duty: 65535 },
    ] {
        context.install_speaker(disturbed);
        context.alarm_tick(&config(), MAX_DUTY);
        assert_eq!(context.speaker(), healthy);
    }
}

#[test]
fn speaker_follows_the_flag_within_one_tick() {
    let mut context = brought_up();
    for command in [
        AlarmCommand::Fall,
        AlarmCommand::Stop,
        AlarmCommand::Stop,
        AlarmCommand::Fall,
        AlarmCommand::Fall,
        AlarmCommand::Stop,
    ] {
        context.execute(command);
        context.alarm_tick(&config(), MAX_DUTY);
        assert_eq!(context.speaker().unwrap().enabled, command == AlarmCommand::Fall);
        assert_eq!(context.speaker().unwrap().enabled, context.alarm_active());
        let settled = context.speaker();
        context.alarm_tick(&config(), MAX_DUTY);
        assert_eq!(context.speaker(), settled);
    }
}

#[test]
fn tick_without_a_speaker_does_nothing() {
    let mut context = SharedContext::new();
    context.install_display();
    context.install_timer(TimerState { tick_event: true });
    context.execute(AlarmCommand::Fall);
    assert_eq!(context.alarm_tick(&config(), MAX_DUTY), None);
    assert_eq!(context.speaker(), None);
    // The event is not cleared either.
    assert_eq!(context.timer(), Some(TimerState { tick_event: true }));
    assert!(context.alarm_active());
    assert_eq!(context.display_rows(), Some(FACE));
}

#[test]
fn tick_without_a_timer_does_nothing() {
    let mut context = SharedContext::new();
    let speaker = SpeakerState { enabled: true, period_hz: 7, duty: 3 };
    context.install_speaker(speaker);
    assert_eq!(context.alarm_tick(&config(), MAX_DUTY), None);
    assert_eq!(context.speaker(), Some(speaker));
    assert_eq!(context.timer(), None);
}

#[test]
fn tick_before_bring_up_does_nothing() {
    let mut context = SharedContext::new();
    // Nothing is served, so even a useless largest duty is taken.
    assert_eq!(context.alarm_tick(&config(), 0), None);
    assert_eq!(context.display_rows(), None);
    assert_eq!(context.speaker(), None);
    assert_eq!(context.timer(), None);
    assert!(!context.alarm_active());
}
