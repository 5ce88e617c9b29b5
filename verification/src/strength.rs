//! The intensity of a command.

use vstd::prelude::*;
use crate::action::Action;
use crate::error::ValidationError;

verus! {

/// The strength that goes on the wire when `raw` is asked of `action`: `raw`
/// itself up to the action's cap, the cap above it.
pub open spec fn clamped(action: Action, raw: int) -> int {
    if raw > action.cap() {
        action.cap()
    } else {
        raw
    }
}

/// An intensity level between 0 and 20.
#[derive(Clone, Copy, Debug, PartialEq, Eq)]
pub struct Strength {
    level: u8,
}

impl View for Strength {
    type V = int;

    closed spec fn view(&self) -> int {
        self.level as int
    }
}

impl Strength {
    #[verifier::type_invariant]
    spec fn in_range(self) -> bool {
        self.level <= 20
    }

    /// Fits the strength `raw` to what `action` accepts. A strength above the
    /// action's cap becomes the cap; a strength below zero is refused.
    pub fn clamp(action: Action, raw: i32) -> (r: Result<Strength, ValidationError>)
        ensures
            raw < 0 ==> r == Err::<Strength, ValidationError>(ValidationError::NegativeStrength),
            raw >= 0 ==> r is Ok && r->Ok_0@ == clamped(action, raw as int),
            action != Action::Pump && 0 <= raw <= 20 ==> r is Ok && r->Ok_0@ == raw,
            action != Action::Pump && raw > 20 ==> r is Ok && r->Ok_0@ == 20,
            action == Action::Pump && 0 <= raw <= 3 ==> r is Ok && r->Ok_0@ == raw,
            action == Action::Pump && raw > 3 ==> r is Ok && r->Ok_0@ == 3,
    {
        if raw < 0 {
            return Err(ValidationError::NegativeStrength);
        }
        let cap: u8 = action.max_strength();
        let level: u8 = if raw > cap as i32 {
            cap
        } else {
            raw as u8
        };
        Ok(Strength { level })
    }

    /// The level, which is at most 20.
    pub fn level(&self) -> (r: u8)
        ensures
            r == self@,
            r <= 20,
    {
        proof {
            use_type_invariant(self);
        }
        self.level
    }
}

} // verus!
