//! Round-trip laws of the conversion layer.
//!
//! Every conversion to and from an array, a tuple, a 4D vector or a lane
//! buffer moves the four lanes bit for bit, so converting out and back yields
//! the starting value exactly. The lemmas below state those laws over the
//! spec functions that the conversions' contracts are written in.

use vstd::prelude::*;
use crate::quat::{
    Quat, lanes_of, quat_of_lanes, tuple_of, quat_of_tuple, vec4_of, quat_of_vec4, written_lanes,
};
use crate::vectors::Vec4;

verus! {

/// A quaternion taken apart into its lane sequence, as `to_array` does, and
/// packed back, as `from_array` does, is itself again, bit for bit.
pub proof fn lemma_array_round_trip(q: Quat)
    ensures
        quat_of_lanes(lanes_of(q)) == q,
{
}

/// Packing the first four entries of a lane sequence into a quaternion, as
/// `from_array` does, and taking it apart again, as `to_array` does, yields
/// exactly those four entries.
pub proof fn lemma_lanes_round_trip(s: Seq<u32>)
    requires
        s.len() >= 4,
    ensures
        lanes_of(quat_of_lanes(s)) == s.subrange(0, 4),
{
    assert(lanes_of(quat_of_lanes(s)) =~= s.subrange(0, 4));
}

/// A quaternion taken apart into a 4-tuple, as `to_tuple` does, and packed
/// back, as `from_tuple` does, is itself again, bit for bit.
pub proof fn lemma_tuple_round_trip(q: Quat)
    ensures
        quat_of_tuple(tuple_of(q)) == q,
{
}

/// A 4-tuple packed into a quaternion, as `from_tuple` does, and taken apart
/// again, as `to_tuple` does, is itself again.
pub proof fn lemma_tuple_round_trip_rev(t: (u32, u32, u32, u32))
    ensures
        tuple_of(quat_of_tuple(t)) == t,
{
}

/// A quaternion reinterpreted as a 4D vector, as `to_vec4` does, and back, as
/// `from_vec4` does, is itself again, bit for bit.
pub proof fn lemma_vec4_round_trip(q: Quat)
    ensures
        quat_of_vec4(vec4_of(q)) == q,
{
}

/// A 4D vector reinterpreted as a quaternion, as `from_vec4` does, and back,
/// as `to_vec4` does, is itself again, bit for bit.
pub proof fn lemma_vec4_round_trip_rev(v: Vec4)
    ensures
        vec4_of(quat_of_vec4(v)) == v,
{
}

/// Writing a quaternion over the first four entries of any lane buffer of
/// length at least four, as `write_to_slice_unaligned` does, and reading a
/// quaternion back from the buffer, as `from_slice_unaligned` does, yields
/// the written quaternion, whatever the buffer held before; the buffer keeps
/// its length, and every entry past the fourth keeps its value.
pub proof fn lemma_slice_round_trip(q: Quat, s: Seq<u32>)
    requires
        s.len() >= 4,
    ensures
        quat_of_lanes(written_lanes(q, s)) == q,
        written_lanes(q, s).len() == s.len(),
        forall|i: int| 4 <= i < s.len() ==> written_lanes(q, s)[i] == s[i],
{
}

} // verus!
