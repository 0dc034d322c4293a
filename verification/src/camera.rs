//! Camera movement commands and the direction decisions they stand for.
//!
//! The camera itself works on floating-point vectors and so lives outside
//! the verified library; what is decided here is which axis of the camera
//! frame a command moves along and in which direction.

use vstd::prelude::*;

verus! {

/// A camera movement command, abstracted away from any window system's
/// input representation.
#[derive(Clone, Copy, PartialEq, Eq, Structural, Debug)]
pub enum CameraMovement {
    Forward,
    Backward,
    Left,
    Right,
}

/// An axis of the camera's own frame along which a movement command acts.
#[derive(Clone, Copy, PartialEq, Eq, Structural, Debug)]
pub enum MoveAxis {
    Front,
    Right,
}

/// The axis of the camera frame that a movement command displaces the
/// position along: forward and backward movement follow the front vector,
/// strafing follows the right vector.
pub fn movement_axis(m: CameraMovement) -> (a: MoveAxis)
    ensures
        a == (match m {
            CameraMovement::Forward | CameraMovement::Backward => MoveAxis::Front,
            CameraMovement::Left | CameraMovement::Right => MoveAxis::Right,
        }),
{
    match m {
        CameraMovement::Forward => MoveAxis::Front,
        CameraMovement::Backward => MoveAxis::Front,
        CameraMovement::Left => MoveAxis::Right,
        CameraMovement::Right => MoveAxis::Right,
    }
}

/// Whether a movement command goes along its axis (forward, strafe right)
/// rather than against it (backward, strafe left).
pub fn movement_is_positive(m: CameraMovement) -> (b: bool)
    ensures
        b == (m == CameraMovement::Forward || m == CameraMovement::Right),
{
    match m {
        CameraMovement::Forward => true,
        CameraMovement::Backward => false,
        CameraMovement::Left => false,
        CameraMovement::Right => true,
    }
}

} // verus!
