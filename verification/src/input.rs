//! One frame's snapshot of the control keys.

use vstd::prelude::*;

verus! {

/// The boolean state of the four control keys, sampled once per frame.
#[derive(Clone, Copy, PartialEq, Eq, Structural, Debug)]
pub struct InputSnapshot {
    pub accelerate: bool,
    pub brake: bool,
    pub turn_left: bool,
    pub turn_right: bool,
}

impl InputSnapshot {
    /// At least one control key is down.
    pub open spec fn any_pressed(self) -> bool {
        self.accelerate || self.brake || self.turn_left || self.turn_right
    }
}

/// The snapshot of a frame in which no control key is down.
pub fn released_input() -> (i: InputSnapshot)
    ensures
        !i.any_pressed(),
{
    InputSnapshot { accelerate: false, brake: false, turn_left: false, turn_right: false }
}

} // verus!
