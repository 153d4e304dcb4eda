//! Physical inputs of a game controller: the closed set of digital buttons
//! and the closed set of analog stick axes.

use vstd::prelude::*;

verus! {

/// A digital button on a controller.
///
/// This is the closed enumeration of inputs that can carry a binding:
/// the four face buttons, the D-pad, shoulder and trigger buttons,
/// stick-press buttons, start/select/mode, and two vendor-specific
/// buttons.
#[derive(Clone, Copy, PartialEq, Eq, Structural, Debug)]
pub enum Button {
    South,
    East,
    North,
    West,
    C,
    Z,
    LeftTrigger,
    LeftTrigger2,
    RightTrigger,
    RightTrigger2,
    Select,
    Start,
    Mode,
    LeftThumb,
    RightThumb,
    DPadUp,
    DPadDown,
    DPadLeft,
    DPadRight,
}

impl Button {
    /// Every digital button, in the order the editing surface lists
    /// them within their groups and persistence walks them.
    pub fn all() -> (r: Vec<Button>)
        ensures
            r@ =~= seq![
                Button::South,
                Button::East,
                Button::North,
                Button::West,
                Button::C,
                Button::Z,
                Button::LeftTrigger,
                Button::LeftTrigger2,
                Button::RightTrigger,
                Button::RightTrigger2,
                Button::Select,
                Button::Start,
                Button::Mode,
                Button::LeftThumb,
                Button::RightThumb,
                Button::DPadUp,
                Button::DPadDown,
                Button::DPadLeft,
                Button::DPadRight,
            ],
    {
        let mut r: Vec<Button> = Vec::new();
        r.push(Button::South);
        r.push(Button::East);
        r.push(Button::North);
        r.push(Button::West);
        r.push(Button::C);
        r.push(Button::Z);
        r.push(Button::LeftTrigger);
        r.push(Button::LeftTrigger2);
        r.push(Button::RightTrigger);
        r.push(Button::RightTrigger2);
        r.push(Button::Select);
        r.push(Button::Start);
        r.push(Button::Mode);
        r.push(Button::LeftThumb);
        r.push(Button::RightThumb);
        r.push(Button::DPadUp);
        r.push(Button::DPadDown);
        r.push(Button::DPadLeft);
        r.push(Button::DPadRight);
        r
    }
}

/// An analog stick axis. Axes never carry a binding; they drive cursor
/// motion when the owning stick is wired to the mouse.
#[derive(Clone, Copy, PartialEq, Eq, Structural, Debug)]
pub enum StickAxis {
    LeftStickX,
    LeftStickY,
    RightStickX,
    RightStickY,
}

/// One of the two analog sticks, used to select which stick drives the
/// mouse.
#[derive(Clone, Copy, PartialEq, Eq, Structural, Debug)]
pub enum Joystick {
    Left,
    Right,
}

} // verus!
