//! Spec-level sums over value lists, percentage shares, and their bounds.

use vstd::arithmetic::div_mod::{lemma_fundamental_div_mod, lemma_mod_bound};
use vstd::prelude::*;

verus! {

/// Exact mathematical sum of a list of values.
pub open spec fn spec_sum(s: Seq<u128>) -> int
    decreases s.len(),
{
    if s.len() == 0 {
        0
    } else {
        spec_sum(s.drop_last()) + s.last()
    }
}

/// Sum of a list of values that clamps at the integer ceiling instead of
/// growing past it.
pub open spec fn spec_sat_sum(s: Seq<u128>) -> int
    decreases s.len(),
{
    if s.len() == 0 {
        0
    } else if spec_sat_sum(s.drop_last()) + s.last() > u128::MAX {
        u128::MAX as int
    } else {
        spec_sat_sum(s.drop_last()) + s.last()
    }
}

/// The percentage share `v` of `total`: `floor(total * v / 100)`.
pub open spec fn spec_share(total: u128, v: u128) -> int {
    (total * v) / 100
}

/// Sum of the percentage shares of `total` taken by each element of `s`.
pub open spec fn spec_share_sum(s: Seq<u128>, total: u128) -> int
    decreases s.len(),
{
    if s.len() == 0 {
        0
    } else {
        spec_share_sum(s.drop_last(), total) + spec_share(total, s.last())
    }
}

pub proof fn lemma_sum_nonneg(s: Seq<u128>)
    ensures
        spec_sum(s) >= 0,
    decreases s.len(),
{
    if s.len() > 0 {
        lemma_sum_nonneg(s.drop_last());
    }
}

/// Extending a prefix by one element adds that element to its sum.
pub proof fn lemma_sum_take_step(s: Seq<u128>, i: int)
    requires
        0 <= i < s.len(),
    ensures
        spec_sum(s.take(i + 1)) == spec_sum(s.take(i)) + s[i],
{
    assert(s.take(i + 1).drop_last() =~= s.take(i));
}

/// The sum of a prefix never exceeds the sum of the whole list.
pub proof fn lemma_sum_take_le(s: Seq<u128>, i: int)
    requires
        0 <= i <= s.len(),
    ensures
        spec_sum(s.take(i)) <= spec_sum(s),
    decreases s.len() - i,
{
    if i == s.len() {
        assert(s.take(i) =~= s);
    } else {
        lemma_sum_take_step(s, i);
        lemma_sum_take_le(s, i + 1);
    }
}

/// Every element is at most the sum of the whole list.
pub proof fn lemma_element_le_sum(s: Seq<u128>, i: int)
    requires
        0 <= i < s.len(),
    ensures
        s[i] <= spec_sum(s),
    decreases s.len(),
{
    if i == s.len() - 1 {
        lemma_sum_nonneg(s.drop_last());
    } else {
        lemma_element_le_sum(s.drop_last(), i);
    }
}

/// The saturating sum stays within the integer ceiling and below the exact
/// sum.
pub proof fn lemma_sat_sum_bounds(s: Seq<u128>)
    ensures
        0 <= spec_sat_sum(s) <= u128::MAX,
        spec_sat_sum(s) <= spec_sum(s),
    decreases s.len(),
{
    if s.len() > 0 {
        lemma_sat_sum_bounds(s.drop_last());
    }
}

/// While the exact sum fits the integer width, the saturating sum equals it.
pub proof fn lemma_sat_sum_exact(s: Seq<u128>)
    requires
        spec_sum(s) <= u128::MAX,
    ensures
        spec_sat_sum(s) == spec_sum(s),
    decreases s.len(),
{
    if s.len() > 0 {
        lemma_sum_nonneg(s.drop_last());
        lemma_sat_sum_exact(s.drop_last());
    }
}

/// Extending a prefix by one element saturating-adds that element.
pub proof fn lemma_sat_sum_take_step(s: Seq<u128>, i: int)
    requires
        0 <= i < s.len(),
    ensures
        spec_sat_sum(s.take(i + 1)) == if spec_sat_sum(s.take(i)) + s[i] > u128::MAX {
            u128::MAX as int
        } else {
            spec_sat_sum(s.take(i)) + s[i]
        },
{
    assert(s.take(i + 1).drop_last() =~= s.take(i));
}

/// The share of one value: nonnegative, within a floor's distance of the
/// exact proportion, and never losing more than `99 * v` when scaled by 100.
pub proof fn lemma_share_bounds(total: u128, v: u128)
    ensures
        0 <= spec_share(total, v),
        100 * spec_share(total, v) <= total * v,
        total * v - 100 * spec_share(total, v) <= 99 * v,
        v <= 100 ==> spec_share(total, v) <= total,
{
    let p = (total * v) as int;
    lemma_fundamental_div_mod(p, 100);
    lemma_mod_bound(p, 100);
    assert(p >= 0) by (nonlinear_arith)
        requires
            p == total * v,
    ;
    assert(p / 100 >= 0) by (nonlinear_arith)
        requires
            p >= 0,
    ;
    if v == 0 {
        assert(p == 0) by (nonlinear_arith)
            requires
                p == total * v && v == 0,
        ;
    } else {
        assert(99 <= 99 * v) by (nonlinear_arith)
            requires
                v >= 1,
        ;
    }
    if v <= 100 {
        assert(p <= 100 * total) by (nonlinear_arith)
            requires
                p == total * v && v <= 100,
        ;
        assert(p / 100 <= total) by (nonlinear_arith)
            requires
                p >= 0 && p <= 100 * total,
        ;
    }
}

/// Summed share bounds: scaled by 100, the shares sit between
/// `total * sum - 99 * sum` and `total * sum`.
pub proof fn lemma_share_sum_bounds(s: Seq<u128>, total: u128)
    ensures
        0 <= spec_share_sum(s, total),
        100 * spec_share_sum(s, total) <= total * spec_sum(s),
        total * spec_sum(s) - 100 * spec_share_sum(s, total) <= 99 * spec_sum(s),
    decreases s.len(),
{
    if s.len() == 0 {
        assert(total * spec_sum(s) == 0) by (nonlinear_arith)
            requires
                spec_sum(s) == 0,
        ;
    } else {
        let prefix = s.drop_last();
        let v = s.last();
        lemma_share_sum_bounds(prefix, total);
        lemma_share_bounds(total, v);
        assert(total * spec_sum(s) == total * spec_sum(prefix) + total * v) by (nonlinear_arith)
            requires
                spec_sum(s) == spec_sum(prefix) + v,
        ;
        assert(99 * spec_sum(s) == 99 * spec_sum(prefix) + 99 * v) by (nonlinear_arith)
            requires
                spec_sum(s) == spec_sum(prefix) + v,
        ;
        assert(100 * spec_share_sum(s, total) == 100 * spec_share_sum(prefix, total) + 100
            * spec_share(total, v)) by (nonlinear_arith)
            requires
                spec_share_sum(s, total) == spec_share_sum(prefix, total) + spec_share(total, v),
        ;
    }
}

/// The truncation bound of percentage resolution: whenever the shares sum to
/// exactly 100, the resolved amounts sum to at most the total, and the
/// truncation deficit stays below 100 — for every total.
pub proof fn lemma_percentage_truncation_bound(values: Seq<u128>, total: u128)
    requires
        spec_sum(values) == 100,
    ensures
        spec_share_sum(values, total) <= total,
        total - spec_share_sum(values, total) < 100,
{
    lemma_share_sum_bounds(values, total);
}

/// A list whose elements are exactly the shares of `values` sums to the sum
/// of those shares.
pub proof fn lemma_sum_of_shares(amounts: Seq<u128>, values: Seq<u128>, total: u128)
    requires
        amounts.len() == values.len(),
        forall|i: int| 0 <= i < values.len() ==> amounts[i] as int == spec_share(total, values[i]),
    ensures
        spec_sum(amounts) == spec_share_sum(values, total),
    decreases values.len(),
{
    if values.len() > 0 {
        lemma_sum_of_shares(amounts.drop_last(), values.drop_last(), total);
    }
}

} // verus!
