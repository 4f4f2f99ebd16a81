//! The 3D and 4D vector collaborator types.
//!
//! Both share the quaternion's lane layout: each component is a 32-bit lane
//! holding the binary32 bit pattern of one single-precision value. Only the
//! operations the rotation kernel consumes are offered: lane splat, dot and
//! cross products, component truncation, and lane-wise sums, differences and
//! products.

use vstd::prelude::*;
use crate::fbits::{
    f32_add, f32_mul, f32_sub, add_fact, mul_fact, sub_fact, is_zero_bits, is_finite_bits,
    is_clean_bits, lane_add, lane_mul, lane_sub,
};

verus! {

/// A 3D vector of three 32-bit lanes (x, y, z).
#[derive(Clone, Copy, PartialEq, Eq, Structural, Debug)]
pub struct Vec3 {
    pub x: u32,
    pub y: u32,
    pub z: u32,
}

/// A 4D vector of four 32-bit lanes (x, y, z, w), laid out exactly as a
/// quaternion.
#[derive(Clone, Copy, PartialEq, Eq, Structural, Debug)]
pub struct Vec4 {
    pub x: u32,
    pub y: u32,
    pub z: u32,
    pub w: u32,
}

/// All three lanes encode zeros (of either sign).
pub open spec fn is_zero3(v: Vec3) -> bool {
    is_zero_bits(v.x) && is_zero_bits(v.y) && is_zero_bits(v.z)
}

/// All three lanes encode finite values.
pub open spec fn is_finite3(v: Vec3) -> bool {
    is_finite_bits(v.x) && is_finite_bits(v.y) && is_finite_bits(v.z)
}

/// All three lanes encode finite values other than minus zero.
pub open spec fn is_clean3(v: Vec3) -> bool {
    is_clean_bits(v.x) && is_clean_bits(v.y) && is_clean_bits(v.z)
}

/// The binary32 dot product of two 3D vectors, summed left to right:
/// `(a.x b.x + a.y b.y) + a.z b.z`.
pub open spec fn dot3(a: Vec3, b: Vec3) -> u32 {
    f32_add(f32_add(f32_mul(a.x, b.x), f32_mul(a.y, b.y)), f32_mul(a.z, b.z))
}

/// Lane x of the binary32 cross product `a` cross `b`.
pub open spec fn cross_x(a: Vec3, b: Vec3) -> u32 {
    f32_sub(f32_mul(a.y, b.z), f32_mul(a.z, b.y))
}

/// Lane y of the binary32 cross product `a` cross `b`.
pub open spec fn cross_y(a: Vec3, b: Vec3) -> u32 {
    f32_sub(f32_mul(a.z, b.x), f32_mul(a.x, b.z))
}

/// Lane z of the binary32 cross product `a` cross `b`.
pub open spec fn cross_z(a: Vec3, b: Vec3) -> u32 {
    f32_sub(f32_mul(a.x, b.y), f32_mul(a.y, b.x))
}

impl Vec3 {
    /// Builds a 3D vector from three lanes.
    pub fn new(x: u32, y: u32, z: u32) -> (r: Vec3)
        ensures
            r == (Vec3 { x, y, z }),
    {
        Vec3 { x, y, z }
    }

    /// Broadcasts one lane to all three lanes.
    pub fn splat(v: u32) -> (r: Vec3)
        ensures
            r == (Vec3 { x: v, y: v, z: v }),
    {
        Vec3 { x: v, y: v, z: v }
    }

    /// The binary32 dot product of `self` and `o`. A dot product with the
    /// zero vector is a zero lane.
    pub fn dot(self, o: Vec3) -> (r: u32)
        ensures
            r == dot3(self, o),
            is_zero3(o) && is_finite3(self) ==> is_zero_bits(r),
            is_zero3(self) && is_finite3(o) ==> is_zero_bits(r),
    {
        lane_add(lane_add(lane_mul(self.x, o.x), lane_mul(self.y, o.y)), lane_mul(self.z, o.z))
    }

    /// The binary32 cross product of `self` and `o`. A cross product whose
    /// left operand is the zero vector is made of zero lanes.
    pub fn cross(self, o: Vec3) -> (r: Vec3)
        ensures
            r.x == cross_x(self, o),
            r.y == cross_y(self, o),
            r.z == cross_z(self, o),
            is_zero3(self) && is_finite3(o) ==> is_zero3(r),
    {
        Vec3 {
            x: lane_sub(lane_mul(self.y, o.z), lane_mul(self.z, o.y)),
            y: lane_sub(lane_mul(self.z, o.x), lane_mul(self.x, o.z)),
            z: lane_sub(lane_mul(self.x, o.y), lane_mul(self.y, o.x)),
        }
    }

    /// Lane-wise binary32 product.
    pub fn mul_lanes(self, o: Vec3) -> (r: Vec3)
        ensures
            r.x == f32_mul(self.x, o.x),
            r.y == f32_mul(self.y, o.y),
            r.z == f32_mul(self.z, o.z),
            mul_fact(self.x, o.x, r.x),
            mul_fact(self.y, o.y, r.y),
            mul_fact(self.z, o.z, r.z),
    {
        Vec3 { x: lane_mul(self.x, o.x), y: lane_mul(self.y, o.y), z: lane_mul(self.z, o.z) }
    }

    /// Lane-wise binary32 sum.
    pub fn add_lanes(self, o: Vec3) -> (r: Vec3)
        ensures
            r.x == f32_add(self.x, o.x),
            r.y == f32_add(self.y, o.y),
            r.z == f32_add(self.z, o.z),
            add_fact(self.x, o.x, r.x),
            add_fact(self.y, o.y, r.y),
            add_fact(self.z, o.z, r.z),
    {
        Vec3 { x: lane_add(self.x, o.x), y: lane_add(self.y, o.y), z: lane_add(self.z, o.z) }
    }

    /// Lane-wise binary32 difference.
    pub fn sub_lanes(self, o: Vec3) -> (r: Vec3)
        ensures
            r.x == f32_sub(self.x, o.x),
            r.y == f32_sub(self.y, o.y),
            r.z == f32_sub(self.z, o.z),
            sub_fact(self.x, o.x, r.x),
            sub_fact(self.y, o.y, r.y),
            sub_fact(self.z, o.z, r.z),
    {
        Vec3 { x: lane_sub(self.x, o.x), y: lane_sub(self.y, o.y), z: lane_sub(self.z, o.z) }
    }
}

impl Vec4 {
    /// Builds a 4D vector from four lanes.
    pub fn new(x: u32, y: u32, z: u32, w: u32) -> (r: Vec4)
        ensures
            r == (Vec4 { x, y, z, w }),
    {
        Vec4 { x, y, z, w }
    }

    /// Broadcasts lane w across all four lanes.
    pub fn dup_w(self) -> (r: Vec4)
        ensures
            r == (Vec4 { x: self.w, y: self.w, z: self.w, w: self.w }),
    {
        Vec4 { x: self.w, y: self.w, z: self.w, w: self.w }
    }

    /// Drops lane w, keeping the first three lanes.
    pub fn truncate(self) -> (r: Vec3)
        ensures
            r == (Vec3 { x: self.x, y: self.y, z: self.z }),
    {
        Vec3 { x: self.x, y: self.y, z: self.z }
    }
}

} // verus!
