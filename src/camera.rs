//! The camera's perspective and how the toggle key switches it.

use vstd::prelude::*;

verus! {

/// Whether the camera orbits behind the player or sits at its eyes.
#[derive(Clone, Copy, Debug, PartialEq, Eq, Structural, Hash)]
pub enum CameraPerspective {
    ThirdPerson,
    FirstPerson,
}

/// The other perspective.
pub open spec fn toggled(p: CameraPerspective) -> CameraPerspective {
    match p {
        CameraPerspective::ThirdPerson => CameraPerspective::FirstPerson,
        CameraPerspective::FirstPerson => CameraPerspective::ThirdPerson,
    }
}

impl Default for CameraPerspective {
    fn default() -> (r: CameraPerspective)
        ensures
            r == CameraPerspective::ThirdPerson,
    {
        CameraPerspective::ThirdPerson
    }
}

impl CameraPerspective {
    /// The other perspective.
    pub fn toggled(self) -> (r: CameraPerspective)
        ensures
            r == toggled(self),
    {
        match self {
            CameraPerspective::ThirdPerson => CameraPerspective::FirstPerson,
            CameraPerspective::FirstPerson => CameraPerspective::ThirdPerson,
        }
    }
}

/// The perspective to switch to in this step: the other one when the toggle
/// key was just pressed, none otherwise.
pub fn next_camera_perspective(toggle_just_pressed: bool, current: CameraPerspective) -> (r:
    Option<CameraPerspective>)
    ensures
        r == if toggle_just_pressed {
            Some(toggled(current))
        } else {
            None
        },
{
    if toggle_just_pressed {
        Some(current.toggled())
    } else {
        None
    }
}

/// Toggling twice gives back the perspective one started from.
pub proof fn lemma_toggle_twice(p: CameraPerspective)
    ensures
        toggled(toggled(p)) == p,
{
}

} // verus!
