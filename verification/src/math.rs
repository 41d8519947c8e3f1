//! Integer arithmetic that stands in for the real-number formulas of the game.

use vstd::prelude::*;

verus! {

/// Whether `root` is the integer square root of `n`: the largest integer whose square
/// does not exceed `n`.
pub open spec fn is_floor_sqrt(n: int, root: int) -> bool {
    &&& 0 <= root
    &&& root * root <= n
    &&& n < (root + 1) * (root + 1)
}

/// The integer square root of `n`.
pub open spec fn floor_sqrt(n: int) -> int {
    choose|root: int| is_floor_sqrt(n, root)
}

/// Squaring keeps the order of non-negative integers.
pub proof fn lemma_square_monotonic(a: int, b: int)
    requires
        0 <= a <= b,
    ensures
        a * a <= b * b,
{
    assert(a * a <= b * b) by (nonlinear_arith)
        requires
            0 <= a <= b,
    ;
}

/// A number has at most one integer square root, so whatever meets the definition is
/// `floor_sqrt`.
pub proof fn lemma_floor_sqrt_unique(n: int, root: int)
    requires
        is_floor_sqrt(n, root),
    ensures
        floor_sqrt(n) == root,
{
    let other = floor_sqrt(n);
    if other < root {
        lemma_square_monotonic(other + 1, root);
    } else if root < other {
        lemma_square_monotonic(root + 1, other);
    }
}

/// Computes the integer square root by bisection.
pub fn integer_sqrt(n: u128) -> (root: u128)
    ensures
        root == floor_sqrt(n as int),
        is_floor_sqrt(n as int, root as int),
        root < 0x1_0000_0000_0000_0000,
{
    let mut low: u128 = 0;
    let mut high: u128 = 0x1_0000_0000_0000_0000;
    while high - low > 1
        invariant
            low < high <= 0x1_0000_0000_0000_0000,
            low * low <= n,
            n < high * high,
        decreases high - low,
    {
        let middle: u128 = low + (high - low) / 2;
        assert(middle * middle <= 0xffff_ffff_ffff_ffff * 0xffff_ffff_ffff_ffff) by (nonlinear_arith)
            requires
                0 <= middle <= 0xffff_ffff_ffff_ffff,
        ;
        let square: u128 = middle * middle;
        if square <= n {
            low = middle;
        } else {
            high = middle;
        }
    }
    proof {
        lemma_floor_sqrt_unique(n as int, low as int);
    }
    low
}

/// `numerator * factor / divisor`, rounded towards zero, for a `numerator` of either
/// sign and non-negative `factor` and `divisor`.
pub open spec fn scaled(numerator: int, factor: int, divisor: int) -> int {
    if numerator >= 0 {
        (numerator * factor) / divisor
    } else {
        -(((-numerator) * factor) / divisor)
    }
}

/// The integer square root of a square is the number that was squared.
pub proof fn lemma_floor_sqrt_of_square(side: int)
    requires
        0 <= side,
    ensures
        floor_sqrt(side * side) == side,
{
    assert(side * side < (side + 1) * (side + 1)) by (nonlinear_arith)
        requires
            0 <= side,
    ;
    lemma_floor_sqrt_unique(side * side, side);
}

/// Scaling a number by `factor` over its own size gives `factor`, with the number's sign.
pub proof fn lemma_scaled_by_own_size(numerator: int, factor: int)
    requires
        numerator != 0,
        0 <= factor,
    ensures
        scaled(numerator, factor, if numerator > 0 { numerator } else { -numerator }) == if numerator > 0 {
            factor
        } else {
            -factor
        },
{
    let size = if numerator > 0 { numerator } else { -numerator };
    assert((size * factor) / size == factor) by (nonlinear_arith)
        requires
            size > 0,
            0 <= factor,
    ;
}

} // verus!
