use vstd::prelude::*;

verus! {

/// Ceiling of a 26.6 fixed-point value, in whole pixels.
///
/// With the Euclidean division of specifications, `(x + 63) / 64` is exactly
/// the ceiling of `x / 64` for every integer `x`.
pub open spec fn spec_ceil_px(x: int) -> int {
    (x + 63) / 64
}

/// Floor of a 26.6 fixed-point value, in whole pixels.
pub open spec fn spec_floor_px(x: int) -> int {
    x / 64
}

/// Rounds a 26.6 fixed-point measurement up to the next whole pixel.
///
/// Used to size packing slots, so that a glyph bitmap never exceeds the
/// integral pixel region allocated for it.
pub fn ceil_to_i32(x: i32) -> (r: i32)
    ensures
        r == spec_ceil_px(x as int),
        -0x200_0000 <= r <= 0x200_0001,
{
    if x >= 0 {
        let q: u32 = (x as u32 + 63) / 64;
        proof {
            assert(x as u32 == x as int);
            assert(q == spec_ceil_px(x as int));
        }
        q as i32
    } else {
        let n: u64 = (-(x as i64)) as u64;
        let q: u64 = n / 64;
        proof {
            assert(n == -(x as int));
            assert(-(q as int) == spec_ceil_px(x as int)) by {
                lemma_neg_floor_is_ceil(x as int);
            }
        }
        -(q as i32)
    }
}

/// Discards the fractional bits of a 26.6 fixed-point value, leaving whole
/// pixels (the floor of `x / 64`).
pub fn to_px_i32(x: i32) -> (r: i32)
    ensures
        r == spec_floor_px(x as int),
        -0x200_0000 <= r <= 0x200_0000,
{
    if x >= 0 {
        let q: u32 = (x as u32) / 64;
        proof {
            assert(x as u32 == x as int);
        }
        q as i32
    } else {
        let n: u64 = (-(x as i64)) as u64;
        let q: u64 = (n + 63) / 64;
        proof {
            assert(n == -(x as int));
            assert(-(q as int) == spec_floor_px(x as int)) by {
                lemma_neg_ceil_is_floor(x as int);
            }
        }
        -(q as i32)
    }
}

/// For `x < 0`: the ceiling of `x / 64` is the negated floor of `-x / 64`.
proof fn lemma_neg_floor_is_ceil(x: int)
    requires
        x < 0,
    ensures
        (x + 63) / 64 == -((-x) / 64),
{
    assert((x + 63) / 64 == -((-x) / 64)) by (nonlinear_arith)
        requires x < 0;
}

/// For `x < 0`: the floor of `x / 64` is the negated ceiling of `-x / 64`.
proof fn lemma_neg_ceil_is_floor(x: int)
    requires
        x < 0,
    ensures
        x / 64 == -((-x + 63) / 64),
{
    assert(x / 64 == -((-x + 63) / 64)) by (nonlinear_arith)
        requires x < 0;
}

} // verus!
