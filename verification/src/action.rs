//! The kinds of command a toy understands.

use vstd::prelude::*;

verus! {

/// The highest strength that any action accepts.
pub const MAX_STRENGTH: u8 = 20;

/// The highest strength that `Action::Pump` accepts.
pub const MAX_PUMP_STRENGTH: u8 = 3;

/// The kind of motion that a command asks for.
#[derive(Clone, Copy, Debug, PartialEq, Eq, Structural)]
pub enum Action {
    Vibrate,
    Rotate,
    Pump,
    Thrusting,
    Fingering,
    Suction,
    All,
}

/// The action type under its longer name.
pub type LovenseAction = Action;

impl Action {
    /// The name of the action as it is written on the wire.
    pub open spec fn name(self) -> Seq<char> {
        match self {
            Action::Vibrate => "Vibrate"@,
            Action::Rotate => "Rotate"@,
            Action::Pump => "Pump"@,
            Action::Thrusting => "Thrusting"@,
            Action::Fingering => "Fingering"@,
            Action::Suction => "Suction"@,
            Action::All => "All"@,
        }
    }

    /// The highest strength that the action accepts: 3 for `Pump`, 20 for
    /// every other action.
    pub open spec fn cap(self) -> int {
        if self == Action::Pump {
            3
        } else {
            20
        }
    }

    /// Writes the action's name.
    pub fn to_string(&self) -> (r: String)
        ensures
            r@ == self.name(),
    {
        match self {
            Action::Vibrate => String::from_str("Vibrate"),
            Action::Rotate => String::from_str("Rotate"),
            Action::Pump => String::from_str("Pump"),
            Action::Thrusting => String::from_str("Thrusting"),
            Action::Fingering => String::from_str("Fingering"),
            Action::Suction => String::from_str("Suction"),
            Action::All => String::from_str("All"),
        }
    }

    /// The highest strength that the action accepts.
    pub fn max_strength(&self) -> (r: u8)
        ensures
            r == self.cap(),
    {
        match self {
            Action::Pump => MAX_PUMP_STRENGTH,
            _ => MAX_STRENGTH,
        }
    }
}

} // verus!
