use crate::fixed::Fixed;
use vstd::prelude::*;

verus! {

/// Which way a pair of opposed keys points: 1, -1, or 0 where both or
/// neither are held.
pub open spec fn axis(toward: bool, away: bool) -> int {
    (if toward { 1int } else { 0int }) - (if away { 1int } else { 0int })
}

/// `along` with the sign of `side`.
pub open spec fn signed(side: int, along: Fixed) -> Fixed {
    if side > 0 {
        along
    } else if side < 0 {
        along.neg()
    } else {
        Fixed::zero()
    }
}

/// What a pair of opposed keys asks for: `along` toward the one held alone,
/// zero where both or neither are held.
pub fn lean(toward: bool, away: bool, along: Fixed) -> (r: Fixed)
    ensures
        r == signed(axis(toward, away), along),
{
    if toward && !away {
        along
    } else if away && !toward {
        along.neg()
    } else {
        Fixed::zero()
    }
}

/// What the driver saw during one frame.
#[derive(Clone, Copy, Debug, PartialEq, Eq, Structural)]
pub struct InputSnapshot {
    /// The forward key is held.
    pub forward: bool,
    /// The backward key is held.
    pub backward: bool,
    /// The strafe-left key is held.
    pub left: bool,
    /// The strafe-right key is held.
    pub right: bool,
    /// The look-up key is held.
    pub look_up: bool,
    /// The look-down key is held.
    pub look_down: bool,
    /// The look-left key is held.
    pub look_left: bool,
    /// The look-right key is held.
    pub look_right: bool,
    /// The jump key went down during this frame.
    pub jump_pressed: bool,
    /// The jump key is held.
    pub jump_held: bool,
    /// Horizontal mouse motion summed over the frame, in pixels.
    pub mouse_dx: Fixed,
    /// Vertical mouse motion summed over the frame, in pixels.
    pub mouse_dy: Fixed,
    /// Time since the previous frame, in nanoseconds.
    pub dt_nanos: u64,
}

impl InputSnapshot {
    pub open spec fn spec_idle(dt_nanos: u64) -> InputSnapshot {
        InputSnapshot {
            forward: false,
            backward: false,
            left: false,
            right: false,
            look_up: false,
            look_down: false,
            look_left: false,
            look_right: false,
            jump_pressed: false,
            jump_held: false,
            mouse_dx: Fixed::zero(),
            mouse_dy: Fixed::zero(),
            dt_nanos,
        }
    }

    /// Whether a movement key is held.
    pub open spec fn spec_moving(&self) -> bool {
        self.forward || self.backward || self.left || self.right
    }

    /// Whether a look key is held or the mouse moved.
    pub open spec fn spec_looking(&self) -> bool {
        self.look_up || self.look_down || self.look_left || self.look_right
            || !self.mouse_dx.is_zero() || !self.mouse_dy.is_zero()
    }

    /// Frame time in seconds.
    pub open spec fn spec_dt(&self) -> Fixed {
        Fixed::from_nanos(self.dt_nanos)
    }

    /// A frame of `dt_nanos` nanoseconds with no key held and no mouse
    /// motion.
    #[verifier::when_used_as_spec(spec_idle)]
    pub fn idle(dt_nanos: u64) -> (r: InputSnapshot)
        ensures
            r == InputSnapshot::spec_idle(dt_nanos),
    {
        InputSnapshot {
            forward: false,
            backward: false,
            left: false,
            right: false,
            look_up: false,
            look_down: false,
            look_left: false,
            look_right: false,
            jump_pressed: false,
            jump_held: false,
            mouse_dx: Fixed::zero(),
            mouse_dy: Fixed::zero(),
            dt_nanos,
        }
    }

    /// Whether a movement key is held.
    #[verifier::when_used_as_spec(spec_moving)]
    pub fn moving(&self) -> (r: bool)
        ensures
            r == self.spec_moving(),
    {
        self.forward || self.backward || self.left || self.right
    }

    /// Whether a look key is held or the mouse moved.
    #[verifier::when_used_as_spec(spec_looking)]
    pub fn looking(&self) -> (r: bool)
        ensures
            r == self.spec_looking(),
    {
        self.look_up || self.look_down || self.look_left || self.look_right
            || !self.mouse_dx.is_zero() || !self.mouse_dy.is_zero()
    }

    /// Frame time in seconds.
    #[verifier::when_used_as_spec(spec_dt)]
    pub fn dt(&self) -> (r: Fixed)
        ensures
            r == self.spec_dt(),
    {
        Fixed::from_nanos(self.dt_nanos)
    }
}

} // verus!
