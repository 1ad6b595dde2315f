//! The physical controls of the source device, and the abstract input
//! events the device layer hands to the translation core.
//!
//! The sets of buttons and axes are the fixed, finite vocabulary of the
//! gamepad abstraction. Analog readings arrive as fixed-point integers
//! scaled by [`crate::normalize::ANALOG_ONE`]; the device layer performs
//! that scaling before an event enters the core.

use vstd::prelude::*;

verus! {

/// One digital or analog button on the gamepad.
#[derive(Clone, Copy, Debug, PartialEq, Eq, Structural)]
pub enum Button {
    South,
    East,
    North,
    West,
    C,
    Z,
    LeftTrigger,
    LeftTrigger2,
    RightTrigger,
    RightTrigger2,
    Select,
    Start,
    Mode,
    LeftThumb,
    RightThumb,
    DPadUp,
    DPadDown,
    DPadLeft,
    DPadRight,
    Unknown,
}

/// One analog stick or pad axis on the gamepad.
#[derive(Clone, Copy, Debug, PartialEq, Eq, Structural)]
pub enum Axis {
    LeftStickX,
    LeftStickY,
    LeftZ,
    RightStickX,
    RightStickY,
    RightZ,
    DPadX,
    DPadY,
    Unknown,
}

/// One abstract input event, read-only to the core.
///
/// Analog payloads are fixed-point raw samples scaled by
/// [`crate::normalize::ANALOG_ONE`]. Events that carry no musical meaning
/// for the translation (connections, drops, and the like) arrive as
/// `Other`.
#[derive(Clone, Copy, Debug, PartialEq, Eq, Structural)]
pub enum InputEvent {
    ButtonPressed(Button),
    ButtonReleased(Button),
    ButtonChanged(Button, i32),
    AxisChanged(Axis, i32),
    Other,
}

} // verus!
