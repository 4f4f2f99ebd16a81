//! The four-lane register: a portable stand-in for the 16-byte hardware
//! vector that the kernel computes on.
//!
//! A register holds four 32-bit lanes in the fixed order
//! lane 0 = x, lane 1 = y, lane 2 = z, lane 3 = w, each lane the binary32 bit
//! pattern of one single-precision value. The operations below are the whole
//! vector facility the algebra needs: lane broadcasts, lane permutations,
//! per-lane sign masks, and lane-wise sums and products.

use vstd::prelude::*;
use crate::fbits::{
    f32_add, f32_mul, flip_sign, add_fact, mul_fact, lane_add, lane_mul, lane_flip_sign,
};

verus! {

/// Four 32-bit lanes, in the fixed order (x, y, z, w).
#[derive(Clone, Copy, PartialEq, Eq, Structural, Debug)]
pub struct Reg4 {
    pub x: u32,
    pub y: u32,
    pub z: u32,
    pub w: u32,
}

impl Reg4 {
    /// Packs four lanes into a register.
    pub fn pack(x: u32, y: u32, z: u32, w: u32) -> (r: Reg4)
        ensures
            r == (Reg4 { x, y, z, w }),
    {
        Reg4 { x, y, z, w }
    }

    /// Broadcasts lane x across all four lanes.
    pub fn dup_x(self) -> (r: Reg4)
        ensures
            r == (Reg4 { x: self.x, y: self.x, z: self.x, w: self.x }),
    {
        Reg4 { x: self.x, y: self.x, z: self.x, w: self.x }
    }

    /// Broadcasts lane y across all four lanes.
    pub fn dup_y(self) -> (r: Reg4)
        ensures
            r == (Reg4 { x: self.y, y: self.y, z: self.y, w: self.y }),
    {
        Reg4 { x: self.y, y: self.y, z: self.y, w: self.y }
    }

    /// Broadcasts lane z across all four lanes.
    pub fn dup_z(self) -> (r: Reg4)
        ensures
            r == (Reg4 { x: self.z, y: self.z, z: self.z, w: self.z }),
    {
        Reg4 { x: self.z, y: self.z, z: self.z, w: self.z }
    }

    /// Broadcasts lane w across all four lanes.
    pub fn dup_w(self) -> (r: Reg4)
        ensures
            r == (Reg4 { x: self.w, y: self.w, z: self.w, w: self.w }),
    {
        Reg4 { x: self.w, y: self.w, z: self.w, w: self.w }
    }

    /// Reverses the lane order: (x, y, z, w) becomes (w, z, y, x).
    pub fn rev(self) -> (r: Reg4)
        ensures
            r == (Reg4 { x: self.w, y: self.z, z: self.y, w: self.x }),
    {
        Reg4 { x: self.w, y: self.z, z: self.y, w: self.x }
    }

    /// Swaps the lanes of each adjacent pair: (x, y, z, w) becomes
    /// (y, x, w, z).
    pub fn swap_pairs(self) -> (r: Reg4)
        ensures
            r == (Reg4 { x: self.y, y: self.x, z: self.w, w: self.z }),
    {
        Reg4 { x: self.y, y: self.x, z: self.w, w: self.z }
    }

    /// Lane-wise binary32 product.
    pub fn mul_lanes(self, o: Reg4) -> (r: Reg4)
        ensures
            r.x == f32_mul(self.x, o.x),
            r.y == f32_mul(self.y, o.y),
            r.z == f32_mul(self.z, o.z),
            r.w == f32_mul(self.w, o.w),
            mul_fact(self.x, o.x, r.x),
            mul_fact(self.y, o.y, r.y),
            mul_fact(self.z, o.z, r.z),
            mul_fact(self.w, o.w, r.w),
    {
        Reg4 {
            x: lane_mul(self.x, o.x),
            y: lane_mul(self.y, o.y),
            z: lane_mul(self.z, o.z),
            w: lane_mul(self.w, o.w),
        }
    }

    /// Lane-wise binary32 sum.
    pub fn add_lanes(self, o: Reg4) -> (r: Reg4)
        ensures
            r.x == f32_add(self.x, o.x),
            r.y == f32_add(self.y, o.y),
            r.z == f32_add(self.z, o.z),
            r.w == f32_add(self.w, o.w),
            add_fact(self.x, o.x, r.x),
            add_fact(self.y, o.y, r.y),
            add_fact(self.z, o.z, r.z),
            add_fact(self.w, o.w, r.w),
    {
        Reg4 {
            x: lane_add(self.x, o.x),
            y: lane_add(self.y, o.y),
            z: lane_add(self.z, o.z),
            w: lane_add(self.w, o.w),
        }
    }

    /// Sign mask (+1, -1, +1, -1): flips the signs of lanes y and w.
    pub fn flip_yw(self) -> (r: Reg4)
        ensures
            r.x == self.x,
            r.y == flip_sign(self.y),
            r.z == self.z,
            r.w == flip_sign(self.w),
    {
        Reg4 { x: self.x, y: lane_flip_sign(self.y), z: self.z, w: lane_flip_sign(self.w) }
    }

    /// Sign mask (+1, +1, -1, -1): flips the signs of lanes z and w.
    pub fn flip_zw(self) -> (r: Reg4)
        ensures
            r.x == self.x,
            r.y == self.y,
            r.z == flip_sign(self.z),
            r.w == flip_sign(self.w),
    {
        Reg4 { x: self.x, y: self.y, z: lane_flip_sign(self.z), w: lane_flip_sign(self.w) }
    }

    /// Sign mask (-1, +1, +1, -1): flips the signs of lanes x and w.
    pub fn flip_xw(self) -> (r: Reg4)
        ensures
            r.x == flip_sign(self.x),
            r.y == self.y,
            r.z == self.z,
            r.w == flip_sign(self.w),
    {
        Reg4 { x: lane_flip_sign(self.x), y: self.y, z: self.z, w: lane_flip_sign(self.w) }
    }
}

} // verus!
