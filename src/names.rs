//! Controller axes and buttons, and their display names.
use vstd::prelude::*;

verus! {

/// An analog axis of a game controller.
#[derive(Clone, Copy, Debug, PartialEq, Eq, Hash)]
pub enum Axis {
    LeftX,
    LeftY,
    RightX,
    RightY,
    TriggerLeft,
    TriggerRight,
}

/// A digital button of a game controller.
#[derive(Clone, Copy, Debug, PartialEq, Eq, Hash)]
pub enum Button {
    A,
    B,
    X,
    Y,
    Back,
    Guide,
    Start,
    LeftStick,
    RightStick,
    LeftShoulder,
    RightShoulder,
    DPadUp,
    DPadDown,
    DPadLeft,
    DPadRight,
}

/// The display name of an axis.
pub open spec fn axis_name(axis: Axis) -> Seq<char> {
    match axis {
        Axis::LeftX => "LeftX"@,
        Axis::LeftY => "LeftY"@,
        Axis::RightX => "RightX"@,
        Axis::RightY => "RightY"@,
        Axis::TriggerLeft => "TriggerLeft"@,
        Axis::TriggerRight => "TriggerRight"@,
    }
}

/// The display name of a button.
pub open spec fn button_name(button: Button) -> Seq<char> {
    match button {
        Button::A => "A"@,
        Button::B => "B"@,
        Button::X => "X"@,
        Button::Y => "Y"@,
        Button::Back => "Back"@,
        Button::Guide => "Guide"@,
        Button::Start => "Start"@,
        Button::LeftStick => "LeftStick"@,
        Button::RightStick => "RightStick"@,
        Button::LeftShoulder => "LeftShoulder"@,
        Button::RightShoulder => "RightShoulder"@,
        Button::DPadUp => "DPadUp"@,
        Button::DPadDown => "DPadDown"@,
        Button::DPadLeft => "DPadLeft"@,
        Button::DPadRight => "DPadRight"@,
    }
}

pub fn get_axis_name(axis: Axis) -> (r: &'static str)
    ensures
        r@ == axis_name(axis),
{
    match axis {
        Axis::LeftX => "LeftX",
        Axis::LeftY => "LeftY",
        Axis::RightX => "RightX",
        Axis::RightY => "RightY",
        Axis::TriggerLeft => "TriggerLeft",
        Axis::TriggerRight => "TriggerRight",
    }
}

pub fn get_button_name(button: Button) -> (r: &'static str)
    ensures
        r@ == button_name(button),
{
    match button {
        Button::A => "A",
        Button::B => "B",
        Button::X => "X",
        Button::Y => "Y",
        Button::Back => "Back",
        Button::Guide => "Guide",
        Button::Start => "Start",
        Button::LeftStick => "LeftStick",
        Button::RightStick => "RightStick",
        Button::LeftShoulder => "LeftShoulder",
        Button::RightShoulder => "RightShoulder",
        Button::DPadUp => "DPadUp",
        Button::DPadDown => "DPadDown",
        Button::DPadLeft => "DPadLeft",
        Button::DPadRight => "DPadRight",
    }
}

/// Every axis has a non-empty name, and no two axes share one.
pub proof fn lemma_axis_names_distinct(a: Axis, b: Axis)
    ensures
        axis_name(a).len() > 0,
        axis_name(a) == axis_name(b) ==> a == b,
{
    reveal_strlit("LeftX");
    reveal_strlit("LeftY");
    reveal_strlit("RightX");
    reveal_strlit("RightY");
    reveal_strlit("TriggerLeft");
    reveal_strlit("TriggerRight");
    if axis_name(a) == axis_name(b) && a != b {
        assert(axis_name(a) =~= axis_name(b));
        assert(false) by {
            let n = axis_name(a).len();
            assert(axis_name(a)[n - 1] == axis_name(b)[n - 1]);
            assert(axis_name(a)[0] == axis_name(b)[0]);
        }
    }
}

/// Every button has a non-empty name, and no two buttons share one.
pub proof fn lemma_button_names_distinct(a: Button, b: Button)
    ensures
        button_name(a).len() > 0,
        button_name(a) == button_name(b) ==> a == b,
{
    reveal_strlit("A");
    reveal_strlit("B");
    reveal_strlit("X");
    reveal_strlit("Y");
    reveal_strlit("Back");
    reveal_strlit("Guide");
    reveal_strlit("Start");
    reveal_strlit("LeftStick");
    reveal_strlit("RightStick");
    reveal_strlit("LeftShoulder");
    reveal_strlit("RightShoulder");
    reveal_strlit("DPadUp");
    reveal_strlit("DPadDown");
    reveal_strlit("DPadLeft");
    reveal_strlit("DPadRight");
    if button_name(a) == button_name(b) && a != b {
        assert(false) by {
            let n = button_name(a).len();
            assert(button_name(a)[0] == button_name(b)[0]);
            assert(button_name(a)[1] == button_name(b)[1]);
            assert(button_name(a)[n - 1] == button_name(b)[n - 1]);
            assert(button_name(a)[n - 2] == button_name(b)[n - 2]);
        }
    }
}

} // verus!
