//! User-input events and the mode they select.
//!
//! Button presses arrive from outside as discrete events. Each selects an
//! operating mode; what the modes do is an open extension point — nothing
//! beyond the selection itself is defined here.

use vstd::prelude::*;

verus! {

/// A discrete press of one of the three user buttons.
#[derive(Clone, Copy, PartialEq, Eq, Structural, Debug)]
pub enum ButtonPress {
    Button1,
    Button2,
    Button3,
}

/// The operating mode a press selects. The modes' behaviour is deliberately
/// left open: an extension point, not yet given any meaning.
#[derive(Clone, Copy, PartialEq, Eq, Structural, Debug)]
pub enum Mode {
    Mode1,
    Mode2,
    Mode3,
}

pub open spec fn spec_mode_for(press: ButtonPress) -> Mode {
    match press {
        ButtonPress::Button1 => Mode::Mode1,
        ButtonPress::Button2 => Mode::Mode2,
        ButtonPress::Button3 => Mode::Mode3,
    }
}

/// The mode a button press selects: button and mode correspond one to one.
pub fn mode_for(press: &ButtonPress) -> (m: Mode)
    ensures
        m == spec_mode_for(*press),
{
    match press {
        ButtonPress::Button1 => Mode::Mode1,
        ButtonPress::Button2 => Mode::Mode2,
        ButtonPress::Button3 => Mode::Mode3,
    }
}

} // verus!
