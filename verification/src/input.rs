//! Controller inputs as the binder sees them.

use vstd::prelude::*;

verus! {

/// An analog axis of a game controller.
#[derive(Clone, Copy, Debug, PartialEq, Eq, Structural)]
pub enum Axis {
    LeftX,
    LeftY,
    RightX,
    RightY,
    TriggerLeft,
    TriggerRight,
}

/// A digital button of a game controller.
#[derive(Clone, Copy, Debug, PartialEq, Eq, Structural)]
pub enum Button {
    A,
    B,
    X,
    Y,
    Back,
    Guide,
    Start,
    LeftStick,
    RightStick,
    LeftShoulder,
    RightShoulder,
    DPadUp,
    DPadDown,
    DPadLeft,
    DPadRight,
    Misc1,
    Paddle1,
    Paddle2,
    Paddle3,
    Paddle4,
    Touchpad,
}

/// Something on a controller that can be bound to a keyboard key: a whole
/// analog axis (used for the triggers) or a digital button.
#[derive(Clone, Copy, Debug, PartialEq, Eq, Structural)]
pub enum ControllerInput {
    Analog(Axis),
    Digital(Button),
}

/// Whether a keyboard key goes down or comes back up.
#[derive(Clone, Copy, Debug, PartialEq, Eq, Structural)]
pub enum KeyDirection {
    Press,
    Release,
}

pub open spec fn axis_index(a: Axis) -> u32 {
    match a {
        Axis::LeftX => 0,
        Axis::LeftY => 1,
        Axis::RightX => 2,
        Axis::RightY => 3,
        Axis::TriggerLeft => 4,
        Axis::TriggerRight => 5,
    }
}

pub open spec fn button_index(b: Button) -> u32 {
    match b {
        Button::A => 0,
        Button::B => 1,
        Button::X => 2,
        Button::Y => 3,
        Button::Back => 4,
        Button::Guide => 5,
        Button::Start => 6,
        Button::LeftStick => 7,
        Button::RightStick => 8,
        Button::LeftShoulder => 9,
        Button::RightShoulder => 10,
        Button::DPadUp => 11,
        Button::DPadDown => 12,
        Button::DPadLeft => 13,
        Button::DPadRight => 14,
        Button::Misc1 => 15,
        Button::Paddle1 => 16,
        Button::Paddle2 => 17,
        Button::Paddle3 => 18,
        Button::Paddle4 => 19,
        Button::Touchpad => 20,
    }
}

/// The number by which an input is filed in a binding table: axes take
/// 0 to 5, buttons 6 to 26.
pub open spec fn input_code(i: ControllerInput) -> u32 {
    match i {
        ControllerInput::Analog(a) => axis_index(a),
        ControllerInput::Digital(b) => (6 + button_index(b)) as u32,
    }
}

/// Two different inputs never share a code.
pub proof fn lemma_input_code_injective(i: ControllerInput, j: ControllerInput)
    ensures
        input_code(i) == input_code(j) <==> i == j,
{
}

impl ControllerInput {
    pub fn code(&self) -> (c: u32)
        ensures
            c == input_code(*self),
    {
        match self {
            ControllerInput::Analog(a) => match a {
                Axis::LeftX => 0,
                Axis::LeftY => 1,
                Axis::RightX => 2,
                Axis::RightY => 3,
                Axis::TriggerLeft => 4,
                Axis::TriggerRight => 5,
            },
            ControllerInput::Digital(b) => match b {
                Button::A => 6,
                Button::B => 7,
                Button::X => 8,
                Button::Y => 9,
                Button::Back => 10,
                Button::Guide => 11,
                Button::Start => 12,
                Button::LeftStick => 13,
                Button::RightStick => 14,
                Button::LeftShoulder => 15,
                Button::RightShoulder => 16,
                Button::DPadUp => 17,
                Button::DPadDown => 18,
                Button::DPadLeft => 19,
                Button::DPadRight => 20,
                Button::Misc1 => 21,
                Button::Paddle1 => 22,
                Button::Paddle2 => 23,
                Button::Paddle3 => 24,
                Button::Paddle4 => 25,
                Button::Touchpad => 26,
            },
        }
    }
}

/// The deflection beyond which an axis counts as pushed: half of `i16::MAX`,
/// rounded down.
pub const AXIS_THRESHOLD: i16 = 16383;

/// An axis reading counts as pushed when its magnitude is beyond the
/// threshold, in either direction.
pub open spec fn is_pushed(value: i16) -> bool {
    value > 16383 || value < -16383
}

pub fn axis_pushed(value: i16) -> (r: bool)
    ensures
        r == is_pushed(value),
{
    value > AXIS_THRESHOLD || value < -AXIS_THRESHOLD
}

} // verus!
