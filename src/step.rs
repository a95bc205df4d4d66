use vstd::prelude::*;

verus! {

/// The value that a two's-complement 16-bit integer holds after storing `x`:
/// `x` reduced modulo 2^16 into the range of `i16`.
pub open spec fn wrap_i16(x: int) -> i16 {
    let m = x % 0x1_0000;
    if m > i16::MAX {
        (m - 0x1_0000) as i16
    } else {
        m as i16
    }
}

/// Division of `a` by a positive `d`, rounding toward zero.
pub open spec fn trunc_div(a: int, d: int) -> int {
    if a >= 0 {
        a / d
    } else {
        -((-a) / d)
    }
}

/// Forward step: `3n + 1` for odd `n`, `n / 2` rounded toward zero for even
/// `n`, in 16-bit wraparound arithmetic.
pub open spec fn hail_spec(n: i16) -> i16 {
    if n % 2 == 1 {
        wrap_i16(3 * n + 1)
    } else {
        trunc_div(n as int, 2) as i16
    }
}

/// Backward step: `2n` for odd `n`, `(n - 1) / 3` rounded toward zero for
/// even `n`, in 16-bit wraparound arithmetic.
pub open spec fn unhail_spec(n: i16) -> i16 {
    if n % 2 == 1 {
        wrap_i16(2 * n)
    } else {
        trunc_div(wrap_i16(n - 1) as int, 3) as i16
    }
}

/// Computes the next value of the hailstone sequence.
pub fn hail(n: i16) -> (r: i16)
    ensures
        r == hail_spec(n),
{
    if n & 1 == 1 {
        assert(n % 2 == 1) by (bit_vector) requires n & 1 == 1;
        n.wrapping_mul(3).wrapping_add(1)
    } else {
        assert(n % 2 == 0) by (bit_vector) requires n & 1 != 1;
        n / 2
    }
}

/// Computes the previous value of the hailstone sequence by a
/// heuristic inverse rule, which does not invert `hail` on every input.
pub fn unhail(n: i16) -> (r: i16)
    ensures
        r == unhail_spec(n),
{
    if n & 1 == 1 {
        assert(n % 2 == 1) by (bit_vector) requires n & 1 == 1;
        n.wrapping_mul(2)
    } else {
        assert(n % 2 == 0) by (bit_vector) requires n & 1 != 1;
        n.wrapping_sub(1) / 3
    }
}

} // verus!
