//! The frame of reference of a camera rotation.

use vstd::prelude::*;

verus! {

/// The space in which a rotation axis is given.
#[derive(Clone, Copy, PartialEq, Eq, Structural, Debug)]
pub enum TransformSpace {
    /// The camera's own rotated frame: the axis is used as it is.
    Local,
    /// The fixed global frame: the axis is first brought into the camera's
    /// frame by the inverse of the camera's current orientation.
    World,
}

} // verus!
