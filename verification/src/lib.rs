//! A four-lane, single-precision quaternion kernel.
//!
//! A quaternion is stored as four 32-bit lanes in the fixed order
//! (x, y, z, w), each lane holding the IEEE-754 binary32 bit pattern of one
//! component. All algebra is carried out lane-wise over whole four-lane
//! registers: broadcasts, permutations, sign masks and lane-wise products and
//! sums, never per-component scalar code on unpacked values.

mod fbits;
mod reg;
mod vectors;
mod quat;
mod laws;

pub use fbits::{SIGN_BIT, ONE_BITS, TWO_BITS};
pub use reg::Reg4;
pub use vectors::{Vec3, Vec4};
pub use quat::Quat;
