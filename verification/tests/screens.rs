use clock_firmware::app_state::clock::{ClockState, EditField as ClockField};
use clock_firmware::app_state::stopwatch::StopwatchState;
use clock_firmware::app_state::timer::{
    EditField as TimerField, TimerInternalState, TimerState, MAX_TIMER_COUNTDOWN,
};
use clock_firmware::app_state::{
    split_milliseconds, split_seconds, AppState, AppStateHolder, Effect,
};
use clock_firmware::displayinfo::TimeOfDay;
use clock_firmware::joystick::{AccessoryShieldJoystick, Button, Joystick, JoystickButton};

struct Never;

impl Button for Never {
    fn pressed(&self) -> bool {
        false
    }
}

type Pad = AccessoryShieldJoystick<Never, Never, Never, Never, Never>;

fn pad() -> Pad {
    AccessoryShieldJoystick::new(Never, Never, Never, Never, Never)
}

fn time(hours: u8, minutes: u8, seconds: u8) -> TimeOfDay {
    TimeOfDay { hours, minutes, seconds }
}

/// Lets go of the joystick, then presses the button once.
fn click(joystick: &mut Pad, button: JoystickButton) {
    joystick.advance(None);
    joystick.advance(Some(button));
    assert!(joystick.clicked());
}

#[test]
fn timer_field_steps() {
    assert_eq!(TimerField::Hours.next(), TimerField::Minutes);
    assert_eq!(TimerField::Minutes.next(), TimerField::Seconds);
    assert_eq!(TimerField::Seconds.next(), TimerField::Hours);
    assert_eq!(TimerField::Hours.prev(), TimerField::Seconds);
    assert_eq!(TimerField::Minutes.prev(), TimerField::Hours);
    assert_eq!(TimerField::Seconds.prev(), TimerField::Minutes);
    assert_eq!(TimerField::Hours.edit_amount(), 3600);
    assert_eq!(TimerField::Minutes.edit_amount(), 60);
    assert_eq!(TimerField::Seconds.edit_amount(), 1);
}

#[test]
fn countdown_stays_between_zero_and_its_largest() {
    assert_eq!(MAX_TIMER_COUNTDOWN, 99 * 3600 + 59 * 60 + 59);
    assert_eq!(TimerField::Seconds.countdown_add(0), 1);
    assert_eq!(TimerField::Minutes.countdown_add(30), 90);
    assert_eq!(TimerField::Hours.countdown_add(59), 3659);
    assert_eq!(TimerField::Seconds.countdown_add(359_997), 359_998);
    assert_eq!(TimerField::Seconds.countdown_add(359_998), 359_999);
    assert_eq!(TimerField::Seconds.countdown_add(359_999), 359_999);
    assert_eq!(TimerField::Hours.countdown_add(356_398), 359_998);
    assert_eq!(TimerField::Hours.countdown_add(356_399), 359_999);
    assert_eq!(TimerField::Hours.countdown_add(356_400), 359_999);
    assert_eq!(TimerField::Seconds.countdown_sub(0), 0);
    assert_eq!(TimerField::Seconds.countdown_sub(1), 0);
    assert_eq!(TimerField::Seconds.countdown_sub(2), 1);
    assert_eq!(TimerField::Minutes.countdown_sub(60), 0);
    assert_eq!(TimerField::Minutes.countdown_sub(61), 1);
    assert_eq!(TimerField::Hours.countdown_sub(3599), 0);
    assert_eq!(TimerField::Hours.countdown_sub(7200), 3600);
}

#[test]
fn timer_from_choice_to_stop() {
    let mut joystick = pad();
    let mut timer = TimerState::new(false);
    assert_eq!(timer.internal_state(), TimerInternalState::TimerEnd);
    assert_eq!(timer.edit_field(), TimerField::Seconds);
    assert_eq!(timer.countdown_to_draw(77), 0);

    // Nothing pressed, and directions that mean nothing here.
    assert_eq!(timer.handle_input(&joystick), None);
    click(&mut joystick, JoystickButton::Up);
    assert_eq!(timer.handle_input(&joystick), None);
    assert_eq!(timer.internal_state(), TimerInternalState::TimerEnd);

    click(&mut joystick, JoystickButton::Left);
    assert_eq!(timer.handle_input(&joystick), Some(Effect::ChangeState(false)));
    click(&mut joystick, JoystickButton::Right);
    assert_eq!(timer.handle_input(&joystick), Some(Effect::ChangeState(true)));

    click(&mut joystick, JoystickButton::Center);
    assert_eq!(timer.handle_input(&joystick), None);
    assert_eq!(timer.internal_state(), TimerInternalState::Edit);
    // Still held: no second click.
    joystick.advance(Some(JoystickButton::Center));
    assert_eq!(timer.handle_input(&joystick), None);
    assert_eq!(timer.internal_state(), TimerInternalState::Edit);

    click(&mut joystick, JoystickButton::Up);
    assert_eq!(timer.handle_input(&joystick), None);
    assert_eq!(timer.countdown_to_draw(77), 1);
    click(&mut joystick, JoystickButton::Left);
    assert_eq!(timer.handle_input(&joystick), None);
    assert_eq!(timer.edit_field(), TimerField::Minutes);
    assert_eq!(timer.selector_column(), 64);
    click(&mut joystick, JoystickButton::Up);
    timer.handle_input(&joystick);
    click(&mut joystick, JoystickButton::Up);
    timer.handle_input(&joystick);
    assert_eq!(timer.countdown_to_draw(77), 121);
    click(&mut joystick, JoystickButton::Left);
    timer.handle_input(&joystick);
    assert_eq!(timer.edit_field(), TimerField::Hours);
    assert_eq!(timer.selector_column(), 36);
    click(&mut joystick, JoystickButton::Down);
    timer.handle_input(&joystick);
    assert_eq!(timer.countdown_to_draw(77), 0);
    click(&mut joystick, JoystickButton::Right);
    timer.handle_input(&joystick);
    click(&mut joystick, JoystickButton::Right);
    timer.handle_input(&joystick);
    assert_eq!(timer.edit_field(), TimerField::Seconds);
    assert_eq!(timer.selector_column(), 92);
    click(&mut joystick, JoystickButton::Up);
    timer.handle_input(&joystick);
    click(&mut joystick, JoystickButton::Up);
    timer.handle_input(&joystick);

    click(&mut joystick, JoystickButton::Center);
    assert_eq!(timer.handle_input(&joystick), Some(Effect::StartCountdown(2)));
    assert_eq!(timer.internal_state(), TimerInternalState::TimerStarted);
    assert_eq!(timer.countdown_to_draw(77), 77);

    click(&mut joystick, JoystickButton::Up);
    assert_eq!(timer.handle_input(&joystick), None);
    click(&mut joystick, JoystickButton::Left);
    assert_eq!(timer.handle_input(&joystick), Some(Effect::ChangeState(false)));
    click(&mut joystick, JoystickButton::Right);
    assert_eq!(timer.handle_input(&joystick), Some(Effect::ChangeState(true)));
    assert_eq!(timer.internal_state(), TimerInternalState::TimerStarted);
    click(&mut joystick, JoystickButton::Center);
    assert_eq!(timer.handle_input(&joystick), Some(Effect::StopCountdown));
    assert_eq!(timer.internal_state(), TimerInternalState::TimerEnd);
    assert_eq!(timer.countdown_to_draw(77), 0);
}

#[test]
fn timer_screen_comes_up_on_a_running_countdown() {
    let timer = TimerState::new(true);
    assert_eq!(timer.internal_state(), TimerInternalState::TimerStarted);
    assert_eq!(timer.countdown_to_draw(42), 42);
}

#[test]
fn held_direction_repeats_faster_and_faster() {
    let mut joystick = pad();
    let mut timer = TimerState::new(false);
    click(&mut joystick, JoystickButton::Center);
    timer.handle_input(&joystick);
    click(&mut joystick, JoystickButton::Up);
    assert_eq!(joystick.hold_time(), 0);
    timer.handle_input(&joystick);
    let mut seen = vec![(0, timer.countdown_to_draw(0))];
    for _ in 0..40 {
        joystick.advance(Some(JoystickButton::Up));
        assert_eq!(timer.handle_input(&joystick), None);
        seen.push((joystick.hold_time(), timer.countdown_to_draw(0)));
    }
    let steps: Vec<u32> = seen.windows(2).filter(|w| w[0].1 != w[1].1).map(|w| w[1].0).collect();
    assert_eq!(steps, vec![10, 18, 25, 32, 38]);
    assert_eq!(seen[40], (40, 6));

    // Letting go sets the pace back: the first repeat takes as long as before.
    click(&mut joystick, JoystickButton::Down);
    timer.handle_input(&joystick);
    assert_eq!(timer.countdown_to_draw(0), 5);
    for hold in 1..=10 {
        joystick.advance(Some(JoystickButton::Down));
        timer.handle_input(&joystick);
        assert_eq!(timer.countdown_to_draw(0), if hold < 10 { 5 } else { 4 });
    }
}

#[test]
fn held_left_moves_nothing() {
    let mut joystick = pad();
    let mut timer = TimerState::new(false);
    click(&mut joystick, JoystickButton::Center);
    timer.handle_input(&joystick);
    click(&mut joystick, JoystickButton::Left);
    timer.handle_input(&joystick);
    assert_eq!(timer.edit_field(), TimerField::Minutes);
    for _ in 0..30 {
        joystick.advance(Some(JoystickButton::Left));
        assert_eq!(timer.handle_input(&joystick), None);
    }
    assert_eq!(timer.edit_field(), TimerField::Minutes);
    assert_eq!(timer.countdown_to_draw(0), 0);
}

#[test]
fn stopwatch_buttons() {
    let mut joystick = pad();
    let stopwatch = StopwatchState::new();
    assert_eq!(stopwatch.handle_input(&joystick, false), None);
    click(&mut joystick, JoystickButton::Center);
    assert_eq!(stopwatch.handle_input(&joystick, false), Some(Effect::StartStopwatch));
    assert_eq!(stopwatch.handle_input(&joystick, true), Some(Effect::PauseStopwatch));
    joystick.advance(Some(JoystickButton::Center));
    assert_eq!(stopwatch.handle_input(&joystick, true), None);
    click(&mut joystick, JoystickButton::Down);
    assert_eq!(stopwatch.handle_input(&joystick, true), Some(Effect::StopStopwatch));
    assert_eq!(stopwatch.handle_input(&joystick, false), Some(Effect::StopStopwatch));
    click(&mut joystick, JoystickButton::Left);
    assert_eq!(stopwatch.handle_input(&joystick, false), Some(Effect::ChangeState(false)));
    click(&mut joystick, JoystickButton::Right);
    assert_eq!(stopwatch.handle_input(&joystick, true), Some(Effect::ChangeState(true)));
    click(&mut joystick, JoystickButton::Up);
    assert_eq!(stopwatch.handle_input(&joystick, true), None);
    joystick.advance(None);
    assert!(joystick.just_unpressed());
    assert_eq!(stopwatch.handle_input(&joystick, true), None);
}

#[test]
fn clock_field_steps() {
    assert_eq!(ClockField::Hours.next(), ClockField::Minutes);
    assert_eq!(ClockField::Minutes.next(), ClockField::Hours);
    assert_eq!(ClockField::Hours.prev(), ClockField::Minutes);
    assert_eq!(ClockField::Minutes.prev(), ClockField::Hours);
    assert_eq!(ClockField::Hours.edit_duration(), 3600);
    assert_eq!(ClockField::Minutes.edit_duration(), 60);
    assert_eq!(ClockField::Hours.time_add(time(23, 10, 5)), time(0, 10, 5));
    assert_eq!(ClockField::Hours.time_sub(time(0, 10, 5)), time(23, 10, 5));
    assert_eq!(ClockField::Minutes.time_add(time(9, 59, 5)), time(10, 0, 5));
    assert_eq!(ClockField::Minutes.time_sub(time(0, 0, 5)), time(23, 59, 5));
}

#[test]
fn clock_ticks_unless_it_is_being_set() {
    let mut joystick = pad();
    let mut clock = ClockState::new();
    assert_eq!(clock.display_time(), time(0, 0, 0));
    assert!(!clock.edit_mode());
    assert_eq!(clock.edit_field(), ClockField::Minutes);
    clock.enter(time(23, 59, 58));
    clock.tick();
    assert_eq!(clock.display_time(), time(23, 59, 59));
    clock.tick();
    assert_eq!(clock.display_time(), time(0, 0, 0));
    clock.tick();
    click(&mut joystick, JoystickButton::Center);
    assert_eq!(clock.handle_input(&joystick), None);
    assert!(clock.edit_mode());
    assert_eq!(clock.display_time(), time(0, 0, 0));
    clock.tick();
    clock.tick();
    assert_eq!(clock.display_time(), time(0, 0, 0));
}

#[test]
fn clock_from_showing_to_setting_and_back() {
    let mut joystick = pad();
    let mut clock = ClockState::new();
    clock.enter(time(12, 34, 56));

    assert_eq!(clock.handle_input(&joystick), None);
    click(&mut joystick, JoystickButton::Up);
    assert_eq!(clock.handle_input(&joystick), None);
    click(&mut joystick, JoystickButton::Down);
    assert_eq!(clock.handle_input(&joystick), None);
    assert_eq!(clock.display_time(), time(12, 34, 56));
    click(&mut joystick, JoystickButton::Left);
    assert_eq!(clock.handle_input(&joystick), Some(Effect::ChangeState(false)));
    click(&mut joystick, JoystickButton::Right);
    assert_eq!(clock.handle_input(&joystick), Some(Effect::ChangeState(true)));
    assert!(!clock.edit_mode());

    click(&mut joystick, JoystickButton::Center);
    assert_eq!(clock.handle_input(&joystick), None);
    assert!(clock.edit_mode());
    assert_eq!(clock.display_time(), time(12, 34, 0));

    click(&mut joystick, JoystickButton::Up);
    assert_eq!(clock.handle_input(&joystick), None);
    assert_eq!(clock.display_time(), time(12, 35, 0));
    assert_eq!(clock.selector_column(), 64);
    click(&mut joystick, JoystickButton::Left);
    assert_eq!(clock.handle_input(&joystick), None);
    assert_eq!(clock.edit_field(), ClockField::Hours);
    assert_eq!(clock.selector_column(), 36);
    click(&mut joystick, JoystickButton::Down);
    assert_eq!(clock.handle_input(&joystick), None);
    assert_eq!(clock.display_time(), time(11, 35, 0));
    click(&mut joystick, JoystickButton::Right);
    assert_eq!(clock.handle_input(&joystick), None);
    assert_eq!(clock.edit_field(), ClockField::Minutes);
    joystick.advance(None);
    assert_eq!(clock.handle_input(&joystick), None);

    click(&mut joystick, JoystickButton::Center);
    assert_eq!(clock.handle_input(&joystick), Some(Effect::SetTime(time(11, 35, 0))));
    assert!(!clock.edit_mode());
    clock.tick();
    assert_eq!(clock.display_time(), time(11, 35, 1));
}

#[test]
fn held_direction_sets_the_clock_faster_and_faster() {
    let mut joystick = pad();
    let mut clock = ClockState::new();
    clock.enter(time(0, 0, 30));
    click(&mut joystick, JoystickButton::Center);
    clock.handle_input(&joystick);
    click(&mut joystick, JoystickButton::Down);
    clock.handle_input(&joystick);
    assert_eq!(clock.display_time(), time(23, 59, 0));
    let mut steps = Vec::new();
    let mut before = clock.display_time();
    for _ in 0..40 {
        joystick.advance(Some(JoystickButton::Down));
        assert_eq!(clock.handle_input(&joystick), None);
        if clock.display_time() != before {
            steps.push(joystick.hold_time());
            before = clock.display_time();
        }
    }
    // Holding counts from the eleventh update on.
    assert_eq!(steps, vec![18, 26, 33, 40]);
    assert_eq!(clock.display_time(), time(23, 55, 0));
}

#[test]
fn screens_go_round() {
    let mut holder =
        AppStateHolder::new(ClockState::new(), TimerState::new(false), StopwatchState::new(), time(8, 0, 0));
    assert_eq!(holder.state(), AppState::Clock);
    assert_eq!(holder.clock().display_time(), time(8, 0, 0));
    assert!(!holder.next());
    assert_eq!(holder.state(), AppState::Stopwatch);
    assert!(!holder.next());
    assert_eq!(holder.state(), AppState::Timer);
    assert!(holder.next());
    assert_eq!(holder.state(), AppState::Clock);
    assert!(!holder.prev());
    assert_eq!(holder.state(), AppState::Timer);
    assert!(!holder.prev());
    assert_eq!(holder.state(), AppState::Stopwatch);
    assert!(holder.prev());
    assert_eq!(holder.state(), AppState::Clock);
    holder.enter(time(9, 30, 0));
    assert_eq!(holder.clock().display_time(), time(9, 30, 0));
}

#[test]
fn only_the_screen_on_show_gets_ticks_and_input() {
    let mut joystick = pad();
    let mut holder =
        AppStateHolder::new(ClockState::new(), TimerState::new(false), StopwatchState::new(), time(8, 0, 0));
    holder.tick();
    assert_eq!(holder.clock().display_time(), time(8, 0, 1));

    holder.next();
    holder.tick();
    assert_eq!(holder.clock().display_time(), time(8, 0, 1));
    click(&mut joystick, JoystickButton::Center);
    assert_eq!(holder.handle_input(&joystick, false), Some(Effect::StartStopwatch));
    assert_eq!(holder.handle_input(&joystick, true), Some(Effect::PauseStopwatch));
    assert!(!holder.clock().edit_mode());
    assert_eq!(holder.timer().internal_state(), TimerInternalState::TimerEnd);

    holder.next();
    assert_eq!(holder.handle_input(&joystick, false), None);
    assert_eq!(holder.timer().internal_state(), TimerInternalState::Edit);
    assert!(!holder.clock().edit_mode());
    holder.tick();
    assert_eq!(holder.clock().display_time(), time(8, 0, 1));

    holder.next();
    assert_eq!(holder.handle_input(&joystick, false), None);
    assert!(holder.clock().edit_mode());
    assert_eq!(holder.clock().display_time(), time(8, 0, 0));
    click(&mut joystick, JoystickButton::Center);
    assert_eq!(holder.handle_input(&joystick, false), Some(Effect::SetTime(time(8, 0, 0))));
    click(&mut joystick, JoystickButton::Right);
    assert_eq!(holder.handle_input(&joystick, false), Some(Effect::ChangeState(true)));
}

#[test]
fn seconds_and_milliseconds_in_parts() {
    assert_eq!(split_seconds(0), (0, 0, 0));
    assert_eq!(split_seconds(59), (0, 0, 59));
    assert_eq!(split_seconds(3_661), (1, 1, 1));
    assert_eq!(split_seconds(359_999), (99, 59, 59));
    assert_eq!(split_seconds(4_294_967_295), (1_193_046, 28, 15));
    assert_eq!(split_milliseconds(0), (0, 0, 0, 0));
    assert_eq!(split_milliseconds(99), (0, 0, 0, 0));
    assert_eq!(split_milliseconds(3_723_400), (1, 2, 3, 4));
    assert_eq!(split_milliseconds(4_294_967_295), (1_193, 2, 47, 2));
}
