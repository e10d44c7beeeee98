//! Camera movement commands.
//!
//! The camera itself is floating-point geometry and lives outside the
//! verified core; what is fixed here is the mapping from a movement
//! command to the basis vector it scales and the direction it is applied
//! in.

use vstd::prelude::*;

verus! {

/// A movement command from the input handler.
#[derive(Clone, Copy, PartialEq, Eq, Structural, Debug)]
pub enum CameraMovement {
    FORWARD,
    BACKWARD,
    LEFT,
    RIGHT,
    UP,
    DOWN,
}

/// The camera basis vector a movement scales.
#[derive(Clone, Copy, PartialEq, Eq, Structural, Debug)]
pub enum CameraAxis {
    /// The viewing direction.
    At,
    /// The right-hand direction.
    Right,
    /// The world's up direction.
    WorldUp,
}

/// Which basis vector a movement applies, and whether it is added
/// (`true`) or subtracted (`false`) from the eye position.
pub fn movement_axis(direction: &CameraMovement) -> (r: (CameraAxis, bool))
    ensures
        r == (match direction {
            CameraMovement::FORWARD => (CameraAxis::At, false),
            CameraMovement::BACKWARD => (CameraAxis::At, true),
            CameraMovement::LEFT => (CameraAxis::Right, false),
            CameraMovement::RIGHT => (CameraAxis::Right, true),
            CameraMovement::UP => (CameraAxis::WorldUp, true),
            CameraMovement::DOWN => (CameraAxis::WorldUp, false),
        }),
{
    match direction {
        CameraMovement::FORWARD => (CameraAxis::At, false),
        CameraMovement::BACKWARD => (CameraAxis::At, true),
        CameraMovement::LEFT => (CameraAxis::Right, false),
        CameraMovement::RIGHT => (CameraAxis::Right, true),
        CameraMovement::UP => (CameraAxis::WorldUp, true),
        CameraMovement::DOWN => (CameraAxis::WorldUp, false),
    }
}

} // verus!
