use padbind::bindings::{bind, press, BindingTable};
use padbind::input::{axis_pushed, Axis, Button, ControllerInput};

fn a() -> ControllerInput {
    ControllerInput::Digital(Button::A)
}

#[test]
fn bind_on_free_slot_succeeds() {
    let mut t: BindingTable<char> = BindingTable::new();
    assert!(bind(&mut t, 0, 3, a(), 'a'));
    assert_eq!(t.lookup(0, 3, a()), Some('a'));
    assert_eq!(t.lookup(1, 3, a()), None);
    assert_eq!(t.lookup(0, 4, a()), None);
}

#[test]
fn bind_on_taken_slot_fails_and_keeps_first_key() {
    let mut t: BindingTable<char> = BindingTable::new();
    assert!(bind(&mut t, 1, 3, a(), 'a'));
    assert!(!bind(&mut t, 1, 3, a(), 'b'));
    assert_eq!(t.lookup(1, 3, a()), Some('a'));
}

#[test]
fn bind_keeps_axis_and_button_apart() {
    let mut t: BindingTable<char> = BindingTable::new();
    assert!(bind(&mut t, 0, 0, ControllerInput::Analog(Axis::TriggerLeft), 'x'));
    assert!(bind(&mut t, 0, 0, ControllerInput::Digital(Button::LeftShoulder), 'y'));
    assert_eq!(t.lookup(0, 0, ControllerInput::Analog(Axis::TriggerLeft)), Some('x'));
    assert_eq!(t.lookup(0, 0, ControllerInput::Digital(Button::LeftShoulder)), Some('y'));
}

#[test]
fn press_lists_first_player_then_second() {
    let mut t: BindingTable<char> = BindingTable::new();
    assert!(bind(&mut t, 1, 7, a(), 's'));
    assert!(bind(&mut t, 0, 7, a(), 'f'));
    assert_eq!(press(&t, 7, a()), vec!['f', 's']);
}

#[test]
fn press_of_unbound_input_is_empty() {
    let mut t: BindingTable<char> = BindingTable::new();
    assert!(bind(&mut t, 0, 7, a(), 'f'));
    assert_eq!(press(&t, 7, ControllerInput::Digital(Button::B)), Vec::<char>::new());
    assert_eq!(press(&t, 8, a()), Vec::<char>::new());
}

#[test]
fn bind_then_press_gives_bound_key() {
    let mut t: BindingTable<u32> = BindingTable::new();
    assert!(bind(&mut t, 1, 2, ControllerInput::Analog(Axis::TriggerRight), 99));
    assert_eq!(press(&t, 2, ControllerInput::Analog(Axis::TriggerRight)), vec![99]);
}

#[test]
fn clear_player_keeps_other_player() {
    let mut t: BindingTable<char> = BindingTable::new();
    assert!(bind(&mut t, 0, 1, a(), 'p'));
    assert!(bind(&mut t, 1, 1, a(), 'q'));
    t.clear_player(0);
    assert_eq!(t.lookup(0, 1, a()), None);
    assert_eq!(t.lookup(1, 1, a()), Some('q'));
    assert!(bind(&mut t, 0, 1, a(), 'r'));
    assert_eq!(press(&t, 1, a()), vec!['r', 'q']);
}

#[test]
fn input_codes_are_distinct() {
    let axes = [Axis::LeftX, Axis::LeftY, Axis::RightX, Axis::RightY, Axis::TriggerLeft, Axis::TriggerRight];
    let buttons = [
        Button::A, Button::B, Button::X, Button::Y, Button::Back, Button::Guide, Button::Start,
        Button::LeftStick, Button::RightStick, Button::LeftShoulder, Button::RightShoulder,
        Button::DPadUp, Button::DPadDown, Button::DPadLeft, Button::DPadRight, Button::Misc1,
        Button::Paddle1, Button::Paddle2, Button::Paddle3, Button::Paddle4, Button::Touchpad,
    ];
    let mut codes: Vec<u32> = axes.iter().map(|x| ControllerInput::Analog(*x).code()).collect();
    codes.extend(buttons.iter().map(|b| ControllerInput::Digital(*b).code()));
    let mut sorted = codes.clone();
    sorted.sort();
    sorted.dedup();
    assert_eq!(sorted.len(), 27);
    assert_eq!(ControllerInput::Analog(Axis::LeftX).code(), 0);
    assert_eq!(ControllerInput::Digital(Button::Touchpad).code(), 26);
}

#[test]
fn axis_threshold_is_half_of_i16_max() {
    assert!(!axis_pushed(0));
    assert!(!axis_pushed(16383));
    assert!(axis_pushed(16384));
    assert!(!axis_pushed(-16383));
    assert!(axis_pushed(-16384));
    assert!(axis_pushed(i16::MAX));
    assert!(axis_pushed(i16::MIN));
}
