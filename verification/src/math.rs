//! Numbers and small vectors as the library carries them.
//!
//! The library never computes with real numbers. It holds each one by the
//! bit pattern of its IEEE 754 single-precision encoding, compares patterns,
//! orders them, and hands them on unchanged.

use vstd::prelude::*;

verus! {

/// The pattern's sign bit.
pub const SIGN_BIT: u32 = 0x8000_0000;

/// The pattern of the number one.
pub const ONE_BITS: u32 = 0x3f80_0000;

/// A single-precision number, held by its bit pattern.
#[derive(Clone, Copy, Debug, PartialEq, Eq, Hash, Structural)]
pub struct Scalar {
    pub bits: u32,
}

impl Scalar {
    /// The integer by which numbers are ordered.
    ///
    /// The encoding is sign and magnitude, so the key is the magnitude with
    /// the sign applied. For two numbers that are not NaN, the smaller number
    /// has the smaller key and equal numbers have equal keys; the two zeros
    /// share the key 0. A NaN lies beyond the infinity of its sign.
    pub open spec fn order_key(self) -> int {
        if self.bits >= SIGN_BIT {
            -(self.bits - SIGN_BIT)
        } else {
            self.bits as int
        }
    }

    /// The number with the given bit pattern.
    pub fn from_bits(bits: u32) -> (scalar: Scalar)
        ensures
            scalar.bits == bits,
    {
        Scalar { bits }
    }

    /// The bit pattern of the number.
    pub fn to_bits(self) -> (bits: u32)
        ensures
            bits == self.bits,
    {
        self.bits
    }

    /// The number zero.
    pub fn zero() -> (scalar: Scalar)
        ensures
            scalar.bits == 0,
    {
        Scalar { bits: 0 }
    }

    /// The number one.
    pub fn one() -> (scalar: Scalar)
        ensures
            scalar.bits == ONE_BITS,
    {
        Scalar { bits: ONE_BITS }
    }

    /// The integer by which numbers are ordered.
    pub fn key(self) -> (key: i64)
        ensures
            key == self.order_key(),
    {
        if self.bits >= SIGN_BIT {
            let magnitude: u32 = self.bits - SIGN_BIT;
            -(magnitude as i64)
        } else {
            self.bits as i64
        }
    }
}

/// Two patterns have the same key only if they are the same or are the two
/// zeros.
pub proof fn lemma_order_key_separates(a: Scalar, b: Scalar)
    requires
        a.order_key() == b.order_key(),
    ensures
        a == b || (a.order_key() == 0 && (a.bits == 0 || a.bits == SIGN_BIT) && (b.bits == 0
            || b.bits == SIGN_BIT)),
{
}

/// A point or an extent in the plane.
#[derive(Clone, Copy, Debug, PartialEq, Eq, Hash, Structural)]
pub struct Vec2 {
    pub x: Scalar,
    pub y: Scalar,
}

impl Vec2 {
    /// The vector with the given components.
    pub fn new(x: Scalar, y: Scalar) -> (v: Vec2)
        ensures
            v.x == x,
            v.y == y,
    {
        Vec2 { x, y }
    }

    /// The vector whose components are zero.
    pub fn zero() -> (v: Vec2)
        ensures
            v.x.bits == 0,
            v.y.bits == 0,
    {
        Vec2 { x: Scalar::zero(), y: Scalar::zero() }
    }
}

/// A point or an extent in space.
#[derive(Clone, Copy, Debug, PartialEq, Eq, Hash, Structural)]
pub struct Vec3 {
    pub x: Scalar,
    pub y: Scalar,
    pub z: Scalar,
}

/// A rectangle given by two opposite corners.
#[derive(Clone, Copy, Debug, PartialEq, Eq, Hash, Structural)]
pub struct Rect {
    /// The corner with the smaller coordinates.
    pub min: Vec2,
    /// The corner with the larger coordinates.
    pub max: Vec2,
}

/// The pose of an entity in the world: an affine map, given by the images
/// of the three axes and of the origin.
#[derive(Clone, Copy, Debug, PartialEq, Eq, Hash, Structural)]
pub struct GlobalTransform {
    pub x_axis: Vec3,
    pub y_axis: Vec3,
    pub z_axis: Vec3,
    pub translation: Vec3,
}

impl GlobalTransform {
    /// The depth at which the entity lies.
    pub open spec fn depth(self) -> Scalar {
        self.translation.z
    }
}

} // verus!
