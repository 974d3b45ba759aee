//! Camera kinds.  The projection math itself is floating-point work that
//! lives outside the core; the core only distinguishes how a camera is
//! driven.

use vstd::prelude::*;

verus! {

/// How a camera is driven.
#[derive(Clone, Copy, Debug, Hash, PartialEq, Eq, Structural)]
pub enum CameraType {
    /// The camera sits at a point and looks where it is turned.
    FirstPerson,
    /// The camera orbits and looks at a target.
    LookAt,
}

impl Default for CameraType {
    /// First-person.
    fn default() -> (c: CameraType)
        ensures
            c == CameraType::FirstPerson,
    {
        CameraType::FirstPerson
    }
}

} // verus!
