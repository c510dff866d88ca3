use padbind::input::{Axis, Button, ControllerInput, KeyDirection};
use padbind::profile::Profile;
use padbind::session::{AnalogState, Event, Mode, Output, Session};

fn profile(base: u32, actions: usize) -> Profile<u32> {
    let names = ["Punch", "Kick", "Slash", "Heavy Slash", "Original Action", "Special Action", "Pause"];
    Profile {
        actions: (0..actions).map(|i| (names[i % 7].to_string(), base + 10 + i as u32)).collect(),
        up: base + 1,
        down: base + 2,
        left: base + 3,
        right: base + 4,
    }
}

fn session() -> Session<u32> {
    Session::new(profile(100, 2), profile(200, 2))
}

fn press(k: u32) -> Output<u32> {
    Output::Key { key: k, direction: KeyDirection::Press }
}

fn release(k: u32) -> Output<u32> {
    Output::Key { key: k, direction: KeyDirection::Release }
}

fn down(which: u32, button: Button) -> Event {
    Event::ButtonDown { which, button }
}

fn axis(which: u32, axis: Axis, value: i16) -> Event {
    Event::AxisMotion { which, axis, value }
}

/// Binds player `p` on controller `c` with buttons A then B.
fn bind_player(s: &mut Session<u32>, p: i32, c: u32) {
    assert_eq!(
        s.step(Event::PlayerChosen { code: p }),
        vec![Output::BindingStarted { player: p as usize }, Output::AskForAction { player: p as usize, index: 0 }]
    );
    assert_eq!(s.step(down(c, Button::A)), vec![Output::AskForAction { player: p as usize, index: 1 }]);
    assert_eq!(s.step(down(c, Button::B)), vec![Output::BindingFinished, Output::AskForPlayer]);
}

#[test]
fn new_session_is_idle_and_empty() {
    let s = session();
    assert_eq!(s.mode(), Mode::Idle);
    assert_eq!(s.analog_state(0), None);
    assert_eq!(s.bindings().lookup(0, 0, ControllerInput::Digital(Button::A)), None);
}

#[test]
fn binding_round_binds_actions_and_dpad() {
    let mut s = session();
    s.step(Event::ControllerOpened { id: 4 });
    bind_player(&mut s, 0, 4);
    assert_eq!(s.mode(), Mode::Idle);
    let b = s.bindings();
    assert_eq!(b.lookup(0, 4, ControllerInput::Digital(Button::A)), Some(110));
    assert_eq!(b.lookup(0, 4, ControllerInput::Digital(Button::B)), Some(111));
    assert_eq!(b.lookup(0, 4, ControllerInput::Digital(Button::DPadUp)), Some(101));
    assert_eq!(b.lookup(0, 4, ControllerInput::Digital(Button::DPadDown)), Some(102));
    assert_eq!(b.lookup(0, 4, ControllerInput::Digital(Button::DPadLeft)), Some(103));
    assert_eq!(b.lookup(0, 4, ControllerInput::Digital(Button::DPadRight)), Some(104));
    assert_eq!(s.step(down(4, Button::A)), vec![press(110)]);
    assert_eq!(s.step(Event::ButtonUp { which: 4, button: Button::A }), vec![release(110)]);
    assert_eq!(s.step(down(5, Button::A)), vec![]);
}

#[test]
fn both_players_on_one_input_press_first_player_first() {
    let mut s = session();
    bind_player(&mut s, 1, 2);
    bind_player(&mut s, 0, 2);
    assert_eq!(s.step(down(2, Button::A)), vec![press(110), press(210)]);
}

#[test]
fn taken_input_does_not_advance_binding() {
    let mut s = session();
    s.step(Event::PlayerChosen { code: 0 });
    s.step(down(1, Button::X));
    assert_eq!(s.step(down(1, Button::X)), vec![]);
    assert_eq!(s.mode(), Mode::Binding { player: 0, next: 1, controller: 1 });
    assert_eq!(s.step(down(1, Button::Y)), vec![Output::BindingFinished, Output::AskForPlayer]);
    assert_eq!(s.bindings().lookup(0, 1, ControllerInput::Digital(Button::X)), Some(110));
    assert_eq!(s.bindings().lookup(0, 1, ControllerInput::Digital(Button::Y)), Some(111));
}

#[test]
fn choosing_a_player_again_forgets_that_players_bindings() {
    let mut s = session();
    bind_player(&mut s, 0, 3);
    bind_player(&mut s, 1, 3);
    s.step(Event::PlayerChosen { code: 0 });
    assert_eq!(s.bindings().lookup(0, 3, ControllerInput::Digital(Button::A)), None);
    assert_eq!(s.bindings().lookup(0, 3, ControllerInput::Digital(Button::DPadUp)), None);
    assert_eq!(s.bindings().lookup(1, 3, ControllerInput::Digital(Button::A)), Some(210));
}

#[test]
fn player_number_above_two_asks_again() {
    let mut s = session();
    assert_eq!(s.step(Event::PlayerChosen { code: 2 }), vec![Output::AskForPlayer]);
    assert_eq!(s.step(Event::PlayerChosen { code: 41 }), vec![Output::AskForPlayer]);
    assert_eq!(s.mode(), Mode::Idle);
}

#[test]
fn negative_player_code_is_not_accepted() {
    let s = session();
    assert!(!s.accepts(&Event::PlayerChosen { code: -1 }));
    assert!(s.accepts(&Event::PlayerChosen { code: 0 }));
    assert!(s.accepts(&Event::PlayerChosen { code: 5 }));
}

#[test]
fn axis_of_unopened_controller_is_not_accepted() {
    let mut s = session();
    assert!(!s.accepts(&axis(9, Axis::TriggerLeft, 30000)));
    assert!(!s.accepts(&axis(9, Axis::LeftX, 30000)));
    assert!(s.accepts(&axis(9, Axis::RightX, 30000)));
    s.step(Event::ControllerOpened { id: 9 });
    assert!(s.accepts(&axis(9, Axis::TriggerLeft, 30000)));
}

#[test]
fn trigger_presses_on_push_and_releases_on_let_go() {
    let mut s = session();
    s.step(Event::ControllerOpened { id: 1 });
    s.step(Event::PlayerChosen { code: 0 });
    assert_eq!(s.step(axis(1, Axis::TriggerRight, 32767)), vec![Output::AskForAction { player: 0, index: 1 }]);
    assert_eq!(s.step(axis(1, Axis::TriggerRight, 0)), vec![]);
    s.step(down(1, Button::B));
    assert_eq!(s.step(axis(1, Axis::TriggerRight, 20000)), vec![press(110)]);
    assert_eq!(s.step(axis(1, Axis::TriggerRight, 25000)), vec![]);
    assert_eq!(s.step(axis(1, Axis::TriggerRight, 16383)), vec![release(110)]);
    assert_eq!(s.step(axis(1, Axis::TriggerRight, 100)), vec![]);
}

#[test]
fn stick_presses_dpad_direction_and_releases_both() {
    let mut s = session();
    s.step(Event::ControllerOpened { id: 1 });
    bind_player(&mut s, 0, 1);
    assert_eq!(s.step(axis(1, Axis::LeftX, 30000)), vec![press(104)]);
    assert_eq!(s.analog_state(1).unwrap().stick_x, true);
    assert_eq!(s.step(axis(1, Axis::LeftX, 0)), vec![release(104), release(103)]);
    assert_eq!(s.step(axis(1, Axis::LeftX, -30000)), vec![press(103)]);
    assert_eq!(s.step(axis(1, Axis::LeftX, -100)), vec![release(104), release(103)]);
    assert_eq!(s.step(axis(1, Axis::LeftY, 30000)), vec![press(102)]);
    assert_eq!(s.step(axis(1, Axis::LeftY, 5)), vec![release(102), release(101)]);
    assert_eq!(s.step(axis(1, Axis::LeftY, -16384)), vec![press(101)]);
}

#[test]
fn stick_reversal_without_center_keeps_first_direction() {
    let mut s = session();
    s.step(Event::ControllerOpened { id: 1 });
    bind_player(&mut s, 0, 1);
    assert_eq!(s.step(axis(1, Axis::LeftX, 30000)), vec![press(104)]);
    assert_eq!(s.step(axis(1, Axis::LeftX, -30000)), vec![]);
}

#[test]
fn right_stick_is_ignored() {
    let mut s = session();
    s.step(Event::ControllerOpened { id: 1 });
    assert_eq!(s.step(axis(1, Axis::RightX, 30000)), vec![]);
    assert_eq!(s.step(axis(1, Axis::RightY, -30000)), vec![]);
    assert_eq!(s.analog_state(1), Some(AnalogState::released()));
}

#[test]
fn binding_ignores_stick_button_up_and_player_choice() {
    let mut s = session();
    s.step(Event::ControllerOpened { id: 1 });
    s.step(Event::PlayerChosen { code: 1 });
    assert_eq!(s.step(axis(1, Axis::LeftX, 30000)), vec![]);
    assert_eq!(s.analog_state(1).unwrap().stick_x, false);
    assert_eq!(s.step(Event::ButtonUp { which: 1, button: Button::A }), vec![]);
    assert_eq!(s.step(Event::PlayerChosen { code: 0 }), vec![]);
    assert_eq!(s.mode(), Mode::Binding { player: 1, next: 0, controller: 0 });
}

#[test]
fn trigger_binding_keeps_last_button_controller_for_dpad() {
    let mut s = session();
    s.step(Event::ControllerOpened { id: 6 });
    s.step(Event::PlayerChosen { code: 0 });
    s.step(down(5, Button::A));
    assert_eq!(s.step(axis(6, Axis::TriggerLeft, -32768)), vec![Output::BindingFinished, Output::AskForPlayer]);
    assert_eq!(s.bindings().lookup(0, 6, ControllerInput::Analog(Axis::TriggerLeft)), Some(111));
    assert_eq!(s.bindings().lookup(0, 5, ControllerInput::Digital(Button::DPadUp)), Some(101));
    assert_eq!(s.bindings().lookup(0, 6, ControllerInput::Digital(Button::DPadUp)), None);
}

#[test]
fn dpad_binding_skips_buttons_already_bound() {
    let mut s = session();
    s.step(Event::PlayerChosen { code: 0 });
    s.step(down(2, Button::DPadUp));
    s.step(down(2, Button::B));
    assert_eq!(s.bindings().lookup(0, 2, ControllerInput::Digital(Button::DPadUp)), Some(110));
    assert_eq!(s.bindings().lookup(0, 2, ControllerInput::Digital(Button::DPadDown)), Some(102));
}

#[test]
fn empty_profile_finishes_at_once_on_controller_zero() {
    let mut s = Session::new(profile(100, 0), profile(200, 1));
    assert_eq!(
        s.step(Event::PlayerChosen { code: 0 }),
        vec![Output::BindingStarted { player: 0 }, Output::BindingFinished, Output::AskForPlayer]
    );
    assert_eq!(s.bindings().lookup(0, 0, ControllerInput::Digital(Button::DPadRight)), Some(104));
}

#[test]
fn removed_and_reopened_controller_starts_released() {
    let mut s = session();
    s.step(Event::ControllerOpened { id: 3 });
    s.step(axis(3, Axis::TriggerLeft, 30000));
    assert_eq!(s.analog_state(3).unwrap().left_trigger, true);
    s.step(Event::ControllerRemoved { which: 3 });
    assert_eq!(s.analog_state(3), None);
    s.step(Event::ControllerOpened { id: 3 });
    assert_eq!(s.analog_state(3), Some(AnalogState::released()));
}

#[test]
fn quit_asks_to_stop_in_any_mode() {
    let mut s = session();
    assert_eq!(s.step(Event::Quit), vec![Output::Quit]);
    s.step(Event::PlayerChosen { code: 1 });
    assert_eq!(s.step(Event::Quit), vec![Output::Quit]);
}

#[test]
fn binding_player_sends_no_keys_while_other_bound() {
    let mut s = session();
    bind_player(&mut s, 1, 2);
    s.step(Event::PlayerChosen { code: 0 });
    assert_eq!(s.step(down(2, Button::A)), vec![Output::AskForAction { player: 0, index: 1 }]);
    assert_eq!(s.bindings().lookup(1, 2, ControllerInput::Digital(Button::A)), Some(210));
}

#[test]
fn session_keeps_action_names_of_its_profiles() {
    let s = Session::new(profile(100, 3), profile(200, 1));
    assert_eq!(s.profile(0).action_count(), 3);
    assert_eq!(s.profile(0).action_name(0), "Punch");
    assert_eq!(s.profile(0).action_name(2), "Slash");
    assert_eq!(s.profile(1).action_name(0), "Punch");
}
