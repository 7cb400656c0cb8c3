use vstd::prelude::*;

verus! {

/// Spin rate of the player: nanoradians per nanosecond, that is radians per second.
pub const SPIN_RATE: u64 = 1;

/// Camera speed: nanometres per nanosecond, that is units per second.
pub const CAMERA_SPEED: u64 = 5;

/// Which of the four movement keys are held this frame.
#[derive(Clone, Copy, Debug, PartialEq, Eq, Structural)]
pub struct MoveKeys {
    /// W
    pub forward: bool,
    /// S
    pub backward: bool,
    /// A
    pub left: bool,
    /// D
    pub right: bool,
}

/// The movement asked for, as multiples of the camera's own forward and
/// right unit vectors; each is -1, 0 or 1.
#[derive(Clone, Copy, Debug, PartialEq, Eq, Structural)]
pub struct MoveAxes {
    pub forward: i64,
    pub right: i64,
}

/// One key adds its axis, the opposite key takes it away again.
pub open spec fn axis(plus: bool, minus: bool) -> int {
    (if plus { 1int } else { 0int }) - (if minus { 1int } else { 0int })
}

impl MoveKeys {
    /// Weight of the forward vector: W adds it, S takes it away.
    pub open spec fn forward_axis(self) -> int {
        axis(self.forward, self.backward)
    }

    /// Weight of the right vector: D adds it, A takes it away.
    pub open spec fn right_axis(self) -> int {
        axis(self.right, self.left)
    }
}

impl MoveAxes {
    pub open spec fn wf(self) -> bool {
        -1 <= self.forward <= 1 && -1 <= self.right <= 1
    }
}

/// The movement that the held keys add up to: W adds the forward vector, S
/// takes it away, D adds the right vector, A takes it away. The sum is not
/// normalised, so two perpendicular keys give a longer vector.
pub fn movement_axes(keys: MoveKeys) -> (r: MoveAxes)
    ensures
        r.forward == keys.forward_axis(),
        r.right == keys.right_axis(),
        r.wf(),
{
    let mut forward: i64 = 0;
    let mut right: i64 = 0;
    if keys.forward {
        forward = forward + 1;
    }
    if keys.backward {
        forward = forward - 1;
    }
    if keys.left {
        right = right - 1;
    }
    if keys.right {
        right = right + 1;
    }
    MoveAxes { forward, right }
}

} // verus!
