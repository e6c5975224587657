//! Player movement: the movement state machine's transition rule and the
//! movement axes read from the four direction keys.

use vstd::prelude::*;

verus! {

/// The player's movement state.
#[derive(Clone, Copy, Debug, PartialEq, Eq, Structural, Hash)]
pub enum MovementState {
    Idle,
    Walking,
    Running,
    Sprinting,
    Crouching,
    Proning,
    Sliding,
    Diving,
    Climbing,
    Mantling,
    Vaulting,
    Leaning,
}

impl Default for MovementState {
    fn default() -> (r: MovementState)
        ensures
            r == MovementState::Idle,
    {
        MovementState::Idle
    }
}

/// The state that the player's input asks for: idle when not moving,
/// sprinting when moving with the sprint key held, walking otherwise.
pub open spec fn movement_target(is_moving: bool, sprint_held: bool) -> MovementState {
    if !is_moving {
        MovementState::Idle
    } else if sprint_held {
        MovementState::Sprinting
    } else {
        MovementState::Walking
    }
}

/// Decides one step of the movement state machine: the state to switch to,
/// or `None` when the current state already is the one the input asks for.
pub fn next_movement_state(is_moving: bool, sprint_held: bool, current: MovementState) -> (next:
    Option<MovementState>)
    ensures
        next == if current == movement_target(is_moving, sprint_held) {
            None
        } else {
            Some(movement_target(is_moving, sprint_held))
        },
{
    let target = if !is_moving {
        MovementState::Idle
    } else if sprint_held {
        MovementState::Sprinting
    } else {
        MovementState::Walking
    };
    if current == target {
        None
    } else {
        Some(target)
    }
}

/// The value of one axis driven by two opposing keys: `1` for the positive key
/// alone, `-1` for the negative key alone, `0` for both or neither.
pub open spec fn key_axis(negative: bool, positive: bool) -> int {
    (if positive {
        1int
    } else {
        0int
    }) - (if negative {
        1int
    } else {
        0int
    })
}

/// The movement direction asked for by the forward, back, left and right keys,
/// before normalisation: `(right - left, forward - back)`.
pub fn movement_axes(forward: bool, back: bool, left: bool, right: bool) -> (r: (i8, i8))
    ensures
        r.0 == key_axis(left, right),
        r.1 == key_axis(back, forward),
{
    let mut x: i8 = 0;
    let mut y: i8 = 0;
    if forward {
        y = y + 1;
    }
    if back {
        y = y - 1;
    }
    if left {
        x = x - 1;
    }
    if right {
        x = x + 1;
    }
    (x, y)
}

} // verus!
