//! Two's-complement wrapping of mathematical integers into `i32`.
use vstd::prelude::*;

verus! {

/// The number of distinct `i32` values.
pub const I32_RANGE: u64 = 0x1_0000_0000;

/// The `i32` that is congruent to `x` modulo 2^32.
pub open spec fn wrap_i32(x: int) -> i32 {
    let m = x % (I32_RANGE as int);
    if m > i32::MAX as int {
        (m - I32_RANGE as int) as i32
    } else {
        m as i32
    }
}

/// Wrapping leaves a value already in the `i32` range unchanged.
pub proof fn lemma_wrap_in_range(x: int)
    requires
        i32::MIN <= x <= i32::MAX,
    ensures
        wrap_i32(x) as int == x,
{
}

/// Wrapping depends only on the residue modulo 2^32.
pub proof fn lemma_wrap_congruent(x: int, y: int)
    requires
        x % (I32_RANGE as int) == y % (I32_RANGE as int),
    ensures
        wrap_i32(x) == wrap_i32(y),
{
}

/// The wrapped value is congruent to the original one.
pub proof fn lemma_wrap_residue(x: int)
    ensures
        (wrap_i32(x) as int) % (I32_RANGE as int) == x % (I32_RANGE as int),
{
}

/// `i32::wrapping_add` wraps the exact sum.
pub proof fn lemma_wrapping_add(a: i32, b: i32)
    ensures
        a.wrapping_add(b) == wrap_i32(a + b),
{
}

/// `i32::wrapping_mul` wraps the exact product.
pub proof fn lemma_wrapping_mul(a: i32, b: i32)
    ensures
        a.wrapping_mul(b) == wrap_i32(a * b),
{
}

/// Wrapping an operand before adding does not change the wrapped sum.
pub proof fn lemma_wrap_add(x: int, y: int)
    ensures
        wrap_i32(wrap_i32(x) + wrap_i32(y)) == wrap_i32(x + y),
{
    lemma_wrap_residue(x);
    lemma_wrap_residue(y);
    let r = I32_RANGE as int;
    vstd::arithmetic::div_mod::lemma_add_mod_noop(wrap_i32(x) as int, wrap_i32(y) as int, r);
    vstd::arithmetic::div_mod::lemma_add_mod_noop(x, y, r);
    lemma_wrap_congruent(wrap_i32(x) + wrap_i32(y), x + y);
}

} // verus!
