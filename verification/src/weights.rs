//! Simpson coefficients and the laws of their sums.

use vstd::prelude::*;

verus! {

/// The Composite Simpson coefficient of index `i` among `n` sample points:
/// 1 at the two endpoints, 2 at even interior indices, 4 at odd ones.
pub open spec fn spec_weight(i: int, n: int) -> int {
    if i == 0 || i == n - 1 {
        1
    } else if i % 2 == 0 {
        2
    } else {
        4
    }
}

/// The Simpson coefficient of index `i` among `n` sample points.
pub fn weight(i: usize, n: usize) -> (w: u64)
    requires
        i < n,
    ensures
        w == spec_weight(i as int, n as int),
{
    if i == 0 || i == n - 1 {
        1
    } else if i % 2 == 0 {
        2
    } else {
        4
    }
}

/// The sum of the Simpson coefficients of the first `k` of `n` indices.
pub open spec fn weight_sum(n: int, k: int) -> int
    decreases k,
{
    if k <= 0 {
        0
    } else {
        weight_sum(n, k - 1) + spec_weight(k - 1, n)
    }
}

/// The coefficient-weighted sum of the first `k` ordinates of `y`: the
/// quantity the integrator scales by a third of the step size.
pub open spec fn weighted_sum(y: Seq<int>, k: int) -> int
    decreases k,
{
    if k <= 0 {
        0
    } else {
        weighted_sum(y, k - 1) + spec_weight(k - 1, y.len() as int) * y[k - 1]
    }
}

/// Closed form of the coefficient sum short of the final endpoint.
proof fn lemma_weight_prefix(n: int, k: int)
    requires
        3 <= n,
        1 <= k <= n - 1,
    ensures
        weight_sum(n, k) == if k % 2 == 0 {
            3 * k - 1
        } else {
            3 * k - 2
        },
    decreases k,
{
    if k == 1 {
        assert(weight_sum(n, 1) == weight_sum(n, 0) + spec_weight(0, n));
    } else {
        lemma_weight_prefix(n, k - 1);
        assert(weight_sum(n, k) == weight_sum(n, k - 1) + spec_weight(k - 1, n));
    }
}

/// The Simpson coefficients 1, 4, 2, ..., 2, 4, 1 over an odd count `n` of
/// sample points sum to `3 * (n - 1)`: three times the number of
/// sub-intervals. Scaled by `h / 3`, the rule therefore spans exactly the
/// width `(n - 1) * h` of the sampled domain.
pub proof fn lemma_weight_sum_total(n: int)
    requires
        3 <= n,
        n % 2 == 1,
    ensures
        weight_sum(n, n) == 3 * (n - 1),
{
    lemma_weight_prefix(n, n - 1);
}

/// The weighted sum of a constant sequence is the constant times the
/// coefficient sum.
proof fn lemma_constant_prefix(c: int, n: int, k: int)
    requires
        0 <= k <= n,
    ensures
        weighted_sum(Seq::new(n as nat, |i: int| c), k) == c * weight_sum(n, k),
    decreases k,
{
    let y = Seq::new(n as nat, |i: int| c);
    if k > 0 {
        lemma_constant_prefix(c, n, k - 1);
        assert(c * (weight_sum(n, k - 1) + spec_weight(k - 1, n)) == c * weight_sum(n, k - 1)
            + spec_weight(k - 1, n) * c) by (nonlinear_arith);
    }
}

/// The rule is exact for constant data: the weighted sum of `n` ordinates
/// all equal to `c`, with `n` odd, is `3 * (n - 1) * c`. Scaled by `h / 3`
/// it yields `c * (b - a)` over a domain of width `b - a == (n - 1) * h`.
pub proof fn lemma_constant_weighted_sum(c: int, n: int)
    requires
        3 <= n,
        n % 2 == 1,
    ensures
        weighted_sum(Seq::new(n as nat, |i: int| c), n) == 3 * (n - 1) * c,
{
    lemma_constant_prefix(c, n, n);
    lemma_weight_sum_total(n);
    assert(c * (3 * (n - 1)) == 3 * (n - 1) * c) by (nonlinear_arith);
}

/// Closed form of the index-weighted sum short of the final endpoint.
proof fn lemma_identity_prefix(n: int, k: int)
    requires
        3 <= n,
        1 <= k <= n - 1,
    ensures
        2 * weighted_sum(Seq::new(n as nat, |i: int| i), k) == if k % 2 == 0 {
            k * (3 * k - 2)
        } else {
            (k - 1) * (3 * k - 1)
        },
    decreases k,
{
    let y = Seq::new(n as nat, |i: int| i);
    if k == 1 {
        assert(weighted_sum(y, 1) == weighted_sum(y, 0) + spec_weight(0, n) * y[0]);
    } else {
        lemma_identity_prefix(n, k - 1);
        assert(weighted_sum(y, k) == weighted_sum(y, k - 1) + spec_weight(k - 1, n) * (k - 1));
        if k % 2 == 0 {
            assert(2 * weighted_sum(y, k) == (k - 2) * (3 * k - 4) + 8 * (k - 1));
            assert((k - 2) * (3 * k - 4) + 8 * (k - 1) == k * (3 * k - 2)) by (nonlinear_arith);
        } else {
            assert(2 * weighted_sum(y, k) == (k - 1) * (3 * k - 5) + 4 * (k - 1));
            assert((k - 1) * (3 * k - 5) + 4 * (k - 1) == (k - 1) * (3 * k - 1))
                by (nonlinear_arith);
        }
    }
}

/// The rule is exact for linear data: twice the weighted sum of the index
/// sequence 0, 1, ..., n-1, with `n` odd, is `3 * (n - 1) * (n - 1)`.
/// Scaled by `h / 3` with `h == L / (n - 1)`, the identity samples over
/// `[0, L]` integrate to exactly `L * L / 2`.
pub proof fn lemma_identity_weighted_sum(n: int)
    requires
        1 <= n,
        n % 2 == 1,
    ensures
        2 * weighted_sum(Seq::new(n as nat, |i: int| i), n) == 3 * (n - 1) * (n - 1),
{
    let y = Seq::new(n as nat, |i: int| i);
    if n == 1 {
        assert(weighted_sum(y, 1) == weighted_sum(y, 0) + spec_weight(0, 1) * y[0]);
    } else {
        lemma_identity_prefix(n, n - 1);
        assert(weighted_sum(y, n) == weighted_sum(y, n - 1) + (n - 1));
        assert((n - 1) * (3 * n - 5) + 2 * (n - 1) == 3 * (n - 1) * (n - 1)) by (nonlinear_arith);
    }
}

} // verus!
