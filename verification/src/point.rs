//! A labeled position value, distinct from the arithmetic vector types.

use vstd::prelude::*;
use crate::fpbits::ZERO_BITS;

verus! {

/// A plain (x, y, z) position. It carries no arithmetic operators; it is a
/// labeled value handed to the renderer.
#[derive(Clone, Debug)]
pub struct Point3D {
    pub x: u32,
    pub y: u32,
    pub z: u32,
}

impl Point3D {
    /// The origin.
    pub fn new() -> (r: Point3D)
        ensures
            r == (Point3D { x: ZERO_BITS, y: ZERO_BITS, z: ZERO_BITS }),
    {
        Point3D { x: ZERO_BITS, y: ZERO_BITS, z: ZERO_BITS }
    }
}

impl From<[u32; 3]> for Point3D {
    /// A point with the components of a flat 3-element scalar sequence.
    fn from(value: [u32; 3]) -> (r: Point3D) {
        Point3D { x: value[0], y: value[1], z: value[2] }
    }
}

impl vstd::std_specs::convert::FromSpecImpl<[u32; 3]> for Point3D {
    open spec fn obeys_from_spec() -> bool {
        true
    }

    open spec fn from_spec(value: [u32; 3]) -> Point3D {
        Point3D { x: value[0], y: value[1], z: value[2] }
    }
}

} // verus!
