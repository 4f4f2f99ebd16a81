//! The quaternion type and its algebra.
//!
//! A quaternion is four 32-bit lanes in the fixed order (x, y, z, w), each
//! lane the binary32 bit pattern of one component. The value is intended to
//! be of unit length but is never renormalized: repeated composition may
//! drift from unit norm, and the algebra accepts that drift rather than
//! checking it.
//!
//! The Hamilton product and the vector rotation are computed as the kernel's
//! register algorithm computes them: whole-register lane broadcasts, three
//! successive lane permutations each derived from the previous one, three
//! fixed per-lane sign masks, and lane-wise products and sums. The spec
//! functions below state the resulting per-lane formulas, with every rounding
//! step explicit, and each operation's contract pins its result to them.

use vstd::prelude::*;
use crate::fbits::{f32_add, f32_mul, f32_sub, flip_sign, is_clean_bits, ONE_BITS, TWO_BITS};
use crate::reg::Reg4;
use crate::vectors::{Vec3, Vec4, dot3, cross_x, cross_y, cross_z, is_clean3};

verus! {

/// A quaternion representing an orientation: four 32-bit lanes (x, y, z, w).
#[derive(Clone, Copy, PartialEq, Eq, Structural, Debug)]
pub struct Quat {
    pub x: u32,
    pub y: u32,
    pub z: u32,
    pub w: u32,
}

/// The four lanes of a quaternion in storage order: x, y, z, w.
pub open spec fn lanes_of(q: Quat) -> Seq<u32> {
    seq![q.x, q.y, q.z, q.w]
}

/// The quaternion packed from the first four entries of a lane sequence.
pub open spec fn quat_of_lanes(s: Seq<u32>) -> Quat
    recommends
        s.len() >= 4,
{
    Quat { x: s[0], y: s[1], z: s[2], w: s[3] }
}

/// The identity quaternion (0, 0, 0, 1): the no-rotation element.
pub open spec fn identity_quat() -> Quat {
    Quat { x: 0u32, y: 0u32, z: 0u32, w: ONE_BITS }
}

/// Every lane encodes a finite value other than minus zero. On such
/// quaternions composition with the identity is exact, bit for bit.
pub open spec fn is_clean_quat(q: Quat) -> bool {
    is_clean_bits(q.x) && is_clean_bits(q.y) && is_clean_bits(q.z) && is_clean_bits(q.w)
}

/// The quaternion's lanes as a 4-tuple, in storage order.
pub open spec fn tuple_of(q: Quat) -> (u32, u32, u32, u32) {
    (q.x, q.y, q.z, q.w)
}

/// The quaternion packed from a 4-tuple of lanes.
pub open spec fn quat_of_tuple(t: (u32, u32, u32, u32)) -> Quat {
    Quat { x: t.0, y: t.1, z: t.2, w: t.3 }
}

/// The quaternion reinterpreted as a 4D vector: the lanes move untouched.
pub open spec fn vec4_of(q: Quat) -> Vec4 {
    Vec4 { x: q.x, y: q.y, z: q.z, w: q.w }
}

/// The 4D vector reinterpreted as a quaternion: the lanes move untouched.
pub open spec fn quat_of_vec4(v: Vec4) -> Quat {
    Quat { x: v.x, y: v.y, z: v.z, w: v.w }
}

/// A lane buffer after a quaternion has been written over its first four
/// entries: every later entry keeps its old value.
pub open spec fn written_lanes(q: Quat, s: Seq<u32>) -> Seq<u32>
    recommends
        s.len() >= 4,
{
    s.update(0, q.x).update(1, q.y).update(2, q.z).update(3, q.w)
}

/// The quaternion's vector part (x, y, z).
pub open spec fn vector_part(q: Quat) -> Vec3 {
    Vec3 { x: q.x, y: q.y, z: q.z }
}

/// Lane x of the Hamilton product `a b` at binary32 precision:
/// `(a.w b.x + a.x b.w) + (a.y b.z - a.z b.y)`, each product and sum rounded.
pub open spec fn hprod_x(a: Quat, b: Quat) -> u32 {
    f32_add(
        f32_add(f32_mul(a.w, b.x), f32_mul(a.x, b.w)),
        f32_add(f32_mul(a.y, b.z), flip_sign(f32_mul(a.z, b.y))),
    )
}

/// Lane y of the Hamilton product `a b` at binary32 precision:
/// `(a.w b.y - a.x b.z) + (a.y b.w + a.z b.x)`, each product and sum rounded.
pub open spec fn hprod_y(a: Quat, b: Quat) -> u32 {
    f32_add(
        f32_add(f32_mul(a.w, b.y), flip_sign(f32_mul(a.x, b.z))),
        f32_add(f32_mul(a.y, b.w), f32_mul(a.z, b.x)),
    )
}

/// Lane z of the Hamilton product `a b` at binary32 precision:
/// `(a.w b.z + a.x b.y) + (- a.y b.x + a.z b.w)`, each product and sum
/// rounded.
pub open spec fn hprod_z(a: Quat, b: Quat) -> u32 {
    f32_add(
        f32_add(f32_mul(a.w, b.z), f32_mul(a.x, b.y)),
        f32_add(flip_sign(f32_mul(a.y, b.x)), f32_mul(a.z, b.w)),
    )
}

/// Lane w of the Hamilton product `a b` at binary32 precision:
/// `(a.w b.w - a.x b.x) + (- a.y b.y - a.z b.z)`, each product and sum
/// rounded.
pub open spec fn hprod_w(a: Quat, b: Quat) -> u32 {
    f32_add(
        f32_add(f32_mul(a.w, b.w), flip_sign(f32_mul(a.x, b.x))),
        f32_add(flip_sign(f32_mul(a.y, b.y)), flip_sign(f32_mul(a.z, b.z))),
    )
}

/// The Hamilton product `a b` at binary32 precision, lane by lane.
pub open spec fn hprod(a: Quat, b: Quat) -> Quat {
    Quat { x: hprod_x(a, b), y: hprod_y(a, b), z: hprod_z(a, b), w: hprod_w(a, b) }
}

/// First rotation coefficient: `q.w * q.w - dot(b, b)` where `b` is the
/// quaternion's vector part.
pub open spec fn rot_coeff_ww(q: Quat) -> u32 {
    f32_sub(f32_mul(q.w, q.w), dot3(vector_part(q), vector_part(q)))
}

/// Second rotation coefficient: `dot(v, b) * 2` where `b` is the quaternion's
/// vector part.
pub open spec fn rot_coeff_vb(q: Quat, v: Vec3) -> u32 {
    f32_mul(dot3(v, vector_part(q)), TWO_BITS)
}

/// Third rotation coefficient: `q.w * 2`.
pub open spec fn rot_coeff_w2(q: Quat) -> u32 {
    f32_mul(q.w, TWO_BITS)
}

/// Lane x of the rotation of `v` by `q`, the Euler-Rodrigues expansion
/// `v (w w - b.b) + b (v.b 2) + (b cross v) (2 w)` at binary32 precision.
pub open spec fn rotated_x(q: Quat, v: Vec3) -> u32 {
    f32_add(
        f32_add(
            f32_mul(v.x, rot_coeff_ww(q)),
            f32_mul(vector_part(q).x, rot_coeff_vb(q, v)),
        ),
        f32_mul(cross_x(vector_part(q), v), rot_coeff_w2(q)),
    )
}

/// Lane y of the rotation of `v` by `q`.
pub open spec fn rotated_y(q: Quat, v: Vec3) -> u32 {
    f32_add(
        f32_add(
            f32_mul(v.y, rot_coeff_ww(q)),
            f32_mul(vector_part(q).y, rot_coeff_vb(q, v)),
        ),
        f32_mul(cross_y(vector_part(q), v), rot_coeff_w2(q)),
    )
}

/// Lane z of the rotation of `v` by `q`.
pub open spec fn rotated_z(q: Quat, v: Vec3) -> u32 {
    f32_add(
        f32_add(
            f32_mul(v.z, rot_coeff_ww(q)),
            f32_mul(vector_part(q).z, rot_coeff_vb(q, v)),
        ),
        f32_mul(cross_z(vector_part(q), v), rot_coeff_w2(q)),
    )
}

/// The rotation of `v` by `q` at binary32 precision, lane by lane.
pub open spec fn rotated(q: Quat, v: Vec3) -> Vec3 {
    Vec3 { x: rotated_x(q, v), y: rotated_y(q, v), z: rotated_z(q, v) }
}

impl Quat {
    /// Creates a new rotation quaternion from four component lanes.
    ///
    /// No normalization is performed: the caller is expected to supply a
    /// near-unit value when the quaternion is to stand for a rotation.
    pub fn new(x: u32, y: u32, z: u32, w: u32) -> (q: Quat)
        ensures
            q == (Quat { x, y, z, w }),
    {
        Quat { x, y, z, w }
    }

    /// The identity quaternion (0, 0, 0, 1): the no-rotation element.
    pub fn identity() -> (q: Quat)
        ensures
            q == identity_quat(),
    {
        Quat { x: 0, y: 0, z: 0, w: ONE_BITS }
    }

    /// Extracts lane w alone, by a whole-register broadcast of lane w
    /// followed by extraction of the first lane.
    pub fn w(self) -> (r: u32)
        ensures
            r == self.w,
    {
        self.to_reg().dup_w().x
    }

    /// Reads a quaternion from the first four entries of a slice of lanes.
    /// The slice may sit at any alignment; entries past the fourth are not
    /// consumed. The value read is expected, not checked, to be near unit
    /// length.
    pub fn from_slice_unaligned(slice: &[u32]) -> (q: Quat)
        requires
            slice@.len() >= 4,
        ensures
            q == quat_of_lanes(slice@),
    {
        let x: u32 = slice[0];
        let y: u32 = slice[1];
        let z: u32 = slice[2];
        let w: u32 = slice[3];
        Quat { x, y, z, w }
    }

    /// Writes the quaternion's four lanes to the first four entries of a
    /// slice, leaving every later entry unchanged. The slice may sit at any
    /// alignment.
    pub fn write_to_slice_unaligned(self, slice: &mut [u32])
        requires
            old(slice)@.len() >= 4,
        ensures
            final(slice)@ == written_lanes(self, old(slice)@),
            forall|i: int| 4 <= i < old(slice)@.len() ==> final(slice)@[i] == old(slice)@[i],
    {
        slice[0] = self.x;
        slice[1] = self.y;
        slice[2] = self.z;
        slice[3] = self.w;
    }

    /// Packs the quaternion into a four-lane register.
    pub fn to_reg(self) -> (r: Reg4)
        ensures
            r == (Reg4 { x: self.x, y: self.y, z: self.z, w: self.w }),
    {
        Reg4 { x: self.x, y: self.y, z: self.z, w: self.w }
    }

    /// Reads a quaternion back from a four-lane register.
    pub fn from_reg(r: Reg4) -> (q: Quat)
        ensures
            q == (Quat { x: r.x, y: r.y, z: r.z, w: r.w }),
    {
        Quat { x: r.x, y: r.y, z: r.z, w: r.w }
    }

    /// The quaternion's lanes as a fixed four-entry array, in storage order.
    pub fn to_array(self) -> (a: [u32; 4])
        ensures
            a@ == lanes_of(self),
    {
        let a = [self.x, self.y, self.z, self.w];
        proof {
            assert(a@ =~= lanes_of(self));
        }
        a
    }

    /// A quaternion from a fixed four-entry array of lanes.
    pub fn from_array(a: [u32; 4]) -> (q: Quat)
        ensures
            q == quat_of_lanes(a@),
    {
        Quat { x: a[0], y: a[1], z: a[2], w: a[3] }
    }

    /// The quaternion's lanes as a 4-tuple (x, y, z, w).
    pub fn to_tuple(self) -> (t: (u32, u32, u32, u32))
        ensures
            t == tuple_of(self),
    {
        (self.x, self.y, self.z, self.w)
    }

    /// A quaternion from a 4-tuple of lanes (x, y, z, w).
    pub fn from_tuple(t: (u32, u32, u32, u32)) -> (q: Quat)
        ensures
            q == quat_of_tuple(t),
    {
        Quat { x: t.0, y: t.1, z: t.2, w: t.3 }
    }

    /// Reinterprets a 4D vector as a quaternion: both share one lane layout,
    /// so the conversion moves the lanes untouched.
    pub fn from_vec4(v: Vec4) -> (q: Quat)
        ensures
            q == quat_of_vec4(v),
    {
        Quat { x: v.x, y: v.y, z: v.z, w: v.w }
    }

    /// Reinterprets the quaternion as a 4D vector, moving the lanes
    /// untouched.
    pub fn to_vec4(self) -> (v: Vec4)
        ensures
            v == vec4_of(self),
    {
        Vec4 { x: self.x, y: self.y, z: self.z, w: self.w }
    }

    /// Multiplies two quaternions: the Hamilton product, computed on whole
    /// four-lane registers.
    ///
    /// Each lane of `self` is broadcast across a register; three successive
    /// permutations of `rhs` are each derived from the previous one; three
    /// fixed sign masks flip the lanes the multiplication table negates; and
    /// three lane-wise sums combine the four partial products. Due to
    /// floating-point rounding the result may not be perfectly normalized.
    ///
    /// The identity law holds bit for bit on quaternions whose lanes are
    /// finite and free of minus zero: composing with the identity on either
    /// side returns the quaternion unchanged.
    pub fn mul_quat(self, rhs: Quat) -> (r: Quat)
        ensures
            r == hprod(self, rhs),
            rhs == identity_quat() && is_clean_quat(self) ==> r == self,
            self == identity_quat() && is_clean_quat(rhs) ==> r == rhs,
    {
        let lhs_reg = self.to_reg();
        let rhs_reg = rhs.to_reg();

        let l_xxxx = lhs_reg.dup_x();
        let l_yyyy = lhs_reg.dup_y();
        let l_zzzz = lhs_reg.dup_z();
        let l_wwww = lhs_reg.dup_w();

        let lw_r = l_wwww.mul_lanes(rhs_reg);
        let r_wzyx = rhs_reg.rev();

        let lx_wzyx = l_xxxx.mul_lanes(r_wzyx);
        let r_zwxy = r_wzyx.swap_pairs();

        let lx_signed = lx_wzyx.flip_yw();

        let ly_zwxy = l_yyyy.mul_lanes(r_zwxy);
        let r_yxwz = r_zwxy.rev();

        let ly_signed = ly_zwxy.flip_zw();

        let lz_yxwz = l_zzzz.mul_lanes(r_yxwz);
        let sum0 = lw_r.add_lanes(lx_signed);

        let lz_signed = lz_yxwz.flip_xw();
        let sum1 = ly_signed.add_lanes(lz_signed);

        Quat::from_reg(sum0.add_lanes(sum1))
    }

    /// Rotates a 3D vector by the quaternion, using the closed-form
    /// Euler-Rodrigues expansion
    /// `v (w w - b.b) + b (v.b 2) + (b cross v) (2 w)` with `b` the
    /// quaternion's vector part.
    ///
    /// The quaternion is assumed, not checked, to be of unit length: a
    /// non-unit quaternion scales the rotated vector by its squared norm.
    ///
    /// The identity quaternion rotates nothing: on vectors whose lanes are
    /// finite and free of minus zero it returns the vector bit for bit.
    pub fn mul_vec3(self, rhs: Vec3) -> (r: Vec3)
        ensures
            r == rotated(self, rhs),
            self == identity_quat() && is_clean3(rhs) ==> r == rhs,
    {
        let q = self.to_vec4();
        let w = q.dup_w().truncate();
        let two = Vec3::splat(TWO_BITS);
        let b = q.truncate();
        let b2 = Vec3::splat(b.dot(b));
        let t_v = rhs.mul_lanes(w.mul_lanes(w).sub_lanes(b2));
        let t_b = b.mul_lanes(Vec3::splat(rhs.dot(b)).mul_lanes(two));
        let t_c = b.cross(rhs).mul_lanes(w.mul_lanes(two));
        t_v.add_lanes(t_b).add_lanes(t_c)
    }
}

} // verus!
