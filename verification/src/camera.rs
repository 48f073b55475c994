use vstd::prelude::*;
use crate::color::{NEG_ONE_BITS, ONE_BITS, ZERO_BITS};

verus! {

/// A 4x4 view transform, the value the interactive layer hands to the
/// producer. Entry `mRC` sits at row `R`, column `C`; a translation keeps its
/// offsets in the last column. As with pixels, every entry is the raw 32-bit
/// encoding of a single-precision value, carried verbatim: the core only
/// stores, forwards and compares transforms, it never does matrix math.
#[derive(Clone, Copy, Debug, PartialEq, Eq, Structural)]
pub struct CameraState {
    pub m00: u32,
    pub m01: u32,
    pub m02: u32,
    pub m03: u32,
    pub m10: u32,
    pub m11: u32,
    pub m12: u32,
    pub m13: u32,
    pub m20: u32,
    pub m21: u32,
    pub m22: u32,
    pub m23: u32,
    pub m30: u32,
    pub m31: u32,
    pub m32: u32,
    pub m33: u32,
}

/// The identity transform, the camera channel's initial value.
pub open spec fn identity_spec() -> CameraState {
    CameraState {
        m00: ONE_BITS,
        m01: ZERO_BITS,
        m02: ZERO_BITS,
        m03: ZERO_BITS,
        m10: ZERO_BITS,
        m11: ONE_BITS,
        m12: ZERO_BITS,
        m13: ZERO_BITS,
        m20: ZERO_BITS,
        m21: ZERO_BITS,
        m22: ONE_BITS,
        m23: ZERO_BITS,
        m30: ZERO_BITS,
        m31: ZERO_BITS,
        m32: ZERO_BITS,
        m33: ONE_BITS,
    }
}

/// The identity transform with the given offsets in its last column.
pub open spec fn translation_spec(x: u32, y: u32, z: u32) -> CameraState {
    CameraState { m03: x, m13: y, m23: z, ..identity_spec() }
}

/// The translation by -1 along the z axis that a render context starts from.
pub open spec fn initial_view_spec() -> CameraState {
    translation_spec(ZERO_BITS, ZERO_BITS, NEG_ONE_BITS)
}

impl CameraState {
    pub fn identity() -> (c: CameraState)
        ensures
            c == identity_spec(),
    {
        CameraState {
            m00: ONE_BITS,
            m01: ZERO_BITS,
            m02: ZERO_BITS,
            m03: ZERO_BITS,
            m10: ZERO_BITS,
            m11: ONE_BITS,
            m12: ZERO_BITS,
            m13: ZERO_BITS,
            m20: ZERO_BITS,
            m21: ZERO_BITS,
            m22: ONE_BITS,
            m23: ZERO_BITS,
            m30: ZERO_BITS,
            m31: ZERO_BITS,
            m32: ZERO_BITS,
            m33: ONE_BITS,
        }
    }

    /// The identity transform translated by the given encoded offsets.
    pub fn translation(x: u32, y: u32, z: u32) -> (c: CameraState)
        ensures
            c == translation_spec(x, y, z),
    {
        let mut c = CameraState::identity();
        c.m03 = x;
        c.m13 = y;
        c.m23 = z;
        c
    }
}

} // verus!
