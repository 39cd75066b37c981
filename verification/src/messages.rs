use vstd::prelude::*;

verus! {

/// The one-shot actions and the sprint toggle that a player asks for in one
/// message to the server.
#[derive(Debug, Clone, Copy, PartialEq, Eq, Structural)]
pub struct ActionRequest {
    pub attack: bool,
    pub drink: bool,
    pub interact: bool,
    pub jump: bool,
    pub sprint: bool,
}

/// A direction on the ground plane given by the movement keys, each
/// coordinate in `-1..=1`.
#[derive(Debug, Clone, Copy, PartialEq, Eq, Structural)]
pub struct Direction {
    pub x: i8,
    pub y: i8,
}

impl ActionRequest {
    /// Whether the request asks for anything at all.
    pub open spec fn asks_anything(self) -> bool {
        self.attack || self.drink || self.interact || self.jump || self.sprint
    }
}

impl Direction {
    /// Whether both coordinates lie in `-1..=1`.
    pub open spec fn is_unit_step(self) -> bool {
        -1 <= self.x <= 1 && -1 <= self.y <= 1
    }

    /// Whether this is the zero direction.
    pub open spec fn is_zero(self) -> bool {
        self.x == 0 && self.y == 0
    }
}

} // verus!
