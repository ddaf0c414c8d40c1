//! Rounding arithmetic shared by every table and buffer layout.

use vstd::prelude::*;
use vstd::arithmetic::div_mod::{lemma_fundamental_div_mod, lemma_fundamental_div_mod_converse};

verus! {

/// The smallest multiple of `alignment` that is not below `value`.
pub open spec fn align_up(value: int, alignment: int) -> int {
    ((value + alignment - 1) / alignment) * alignment
}

/// The number of `y`-sized blocks needed to cover `x` items.
pub open spec fn ceil_div(x: int, y: int) -> int {
    (x + y - 1) / y
}

/// Expresses `ceil_div` through the quotient and remainder of `x / y`.
proof fn lemma_ceil_div_split(x: int, y: int)
    requires
        x >= 0,
        y > 0,
    ensures
        x % y == 0 ==> ceil_div(x, y) == x / y,
        x % y != 0 ==> ceil_div(x, y) == x / y + 1,
        x == (x / y) * y + x % y,
        0 <= x % y < y,
{
    let q = x / y;
    let r = x % y;
    lemma_fundamental_div_mod(x, y);
    assert(x == q * y + r) by (nonlinear_arith)
        requires
            x == y * q + r,
    ;
    if r == 0 {
        lemma_fundamental_div_mod_converse(x + y - 1, y, q, y - 1);
    } else {
        assert(x + y - 1 == (q + 1) * y + (r - 1)) by (nonlinear_arith)
            requires
                x == q * y + r,
        ;
        lemma_fundamental_div_mod_converse(x + y - 1, y, q + 1, r - 1);
    }
}

/// `align_up` yields a multiple of the alignment, at least the value and
/// less than one alignment above it.
pub proof fn lemma_align_up_bounds(value: int, alignment: int)
    requires
        value >= 0,
        alignment > 0,
    ensures
        align_up(value, alignment) % alignment == 0,
        value <= align_up(value, alignment) < value + alignment,
        value % alignment == 0 ==> align_up(value, alignment) == value,
{
    lemma_ceil_div_split(value, alignment);
    let q = value / alignment;
    let r = value % alignment;
    let c = ceil_div(value, alignment);
    assert(align_up(value, alignment) == c * alignment);
    lemma_fundamental_div_mod_converse(c * alignment, alignment, c, 0);
    if r != 0 {
        assert((q + 1) * alignment == q * alignment + alignment) by (nonlinear_arith);
    }
}

/// Rounds `value` up to the next multiple of `alignment`.
pub fn aligned_size(value: u32, alignment: u32) -> (r: u32)
    requires
        alignment > 0,
        align_up(value as int, alignment as int) <= u32::MAX,
    ensures
        r == align_up(value as int, alignment as int),
        r % alignment == 0,
        value <= r < value + alignment,
{
    proof {
        lemma_ceil_div_split(value as int, alignment as int);
        lemma_align_up_bounds(value as int, alignment as int);
    }
    let rem = value % alignment;
    if rem == 0 {
        value
    } else {
        proof {
            let q = value as int / alignment as int;
            assert((q + 1) * alignment == q * alignment + alignment) by (nonlinear_arith);
        }
        value - rem + alignment
    }
}

/// Rounds `value` up to the next multiple of `alignment`, on 64-bit sizes.
pub fn aligned_size_u64(value: u64, alignment: u64) -> (r: u64)
    requires
        alignment > 0,
        align_up(value as int, alignment as int) <= u64::MAX,
    ensures
        r == align_up(value as int, alignment as int),
        r % alignment == 0,
        value <= r < value + alignment,
{
    proof {
        lemma_ceil_div_split(value as int, alignment as int);
        lemma_align_up_bounds(value as int, alignment as int);
    }
    let rem = value % alignment;
    if rem == 0 {
        value
    } else {
        proof {
            let q = value as int / alignment as int;
            assert((q + 1) * alignment == q * alignment + alignment) by (nonlinear_arith);
        }
        value - rem + alignment
    }
}

/// Divides `x` by `y`, rounding up: the number of blocks of size `y`
/// that cover `x` items.
pub fn div_up(x: u32, y: u32) -> (r: u32)
    requires
        y > 0,
    ensures
        r == ceil_div(x as int, y as int),
{
    proof {
        lemma_ceil_div_split(x as int, y as int);
    }
    if x % y == 0 {
        x / y
    } else {
        proof {
            assert(x / y < x) by (nonlinear_arith)
                requires
                    y > 0,
                    x % y != 0,
                    x == (x / y) * y + x % y,
            ;
        }
        x / y + 1
    }
}

} // verus!
