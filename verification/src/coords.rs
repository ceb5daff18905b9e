use vstd::prelude::*;
use vstd::arithmetic::power2::pow2;
use vstd::bits::lemma_u32_shl_is_mul;
use vstd::bits::lemma_u32_pow2_no_overflow;

verus! {

/// The row index that `y` maps to when translating between the XYZ tiling
/// scheme (row 0 at the north edge) and the TMS tiling scheme (row 0 at the
/// south edge) at zoom level `z`. The same flip serves both directions.
pub open spec fn flipped_row(z: nat, y: nat) -> nat
    recommends
        y < pow2(z),
{
    (pow2(z) - 1 - y) as nat
}

/// Whether `(z, y)` is a row index that the tiling pyramid can hold: the
/// zoom level fits the 32-bit coordinate space and the row lies inside it.
pub open spec fn row_in_range(z: nat, y: nat) -> bool {
    z < 32 && y < pow2(z)
}

/// Converts a row index between the XYZ scheme and the TMS scheme at zoom
/// level `z`. Storage keys rows in TMS order while the wire protocol uses
/// XYZ order, so every storage lookup applies this exactly once.
pub fn flip_row(z: u32, y: u32) -> (r: u32)
    requires
        row_in_range(z as nat, y as nat),
    ensures
        r as nat == flipped_row(z as nat, y as nat),
{
    proof {
        lemma_u32_pow2_no_overflow(z as nat);
        lemma_u32_shl_is_mul(1u32, z);
    }
    let per_axis: u32 = 1u32 << z;
    per_axis - 1 - y
}

/// The XYZ/TMS flip is an involution: flipping a row twice, at the same
/// zoom level, gives the row back. Both reading directions follow, since
/// the two translations are the same function.
pub proof fn lemma_flip_row_involution(z: nat, y: nat)
    requires
        y < pow2(z),
    ensures
        flipped_row(z, flipped_row(z, y)) == y,
        flipped_row(z, y) < pow2(z),
{
    vstd::arithmetic::power2::lemma_pow2_pos(z);
}

/// Checked form of the flip: returns the TMS row when the coordinate is in
/// range and `None` otherwise, so callers can treat an impossible row as a
/// plain storage miss instead of failing.
pub fn flip_row_checked(z: u32, y: u32) -> (r: Option<u32>)
    ensures
        row_in_range(z as nat, y as nat) ==> r == Some(flip_row_spec(z as nat, y as nat)),
        !row_in_range(z as nat, y as nat) ==> r is None,
{
    if z >= 32 {
        return None;
    }
    proof {
        lemma_u32_pow2_no_overflow(z as nat);
        lemma_u32_shl_is_mul(1u32, z);
    }
    let per_axis: u32 = 1u32 << z;
    if y < per_axis {
        Some(per_axis - 1 - y)
    } else {
        None
    }
}

/// The flipped row as a 32-bit value, for coordinates in range.
pub open spec fn flip_row_spec(z: nat, y: nat) -> u32
    recommends
        row_in_range(z, y),
{
    flipped_row(z, y) as u32
}

} // verus!
