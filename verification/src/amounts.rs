//! The amount calculator: one non-negative integer amount per destination.
//!
//! A fixed spec maps each destination to its listed amount verbatim. A
//! proportional spec gives destination `i` the floor of
//! `total * weights[i] / sum(weights)`. The multiply runs in a double-width
//! intermediate, so it cannot overflow on the way to the division, and the
//! quotient never exceeds the total, because no weight exceeds the weight
//! sum. Floor division may leave a residual: the computed amounts can sum
//! to strictly less than the total, and that loss is deliberate and is not
//! redistributed.

use vstd::prelude::*;
use vstd::arithmetic::div_mod::{
    lemma_div_is_ordered, lemma_div_multiples_vanish, lemma_fundamental_div_mod, lemma_mod_bound,
};
use vstd::arithmetic::mul::{
    lemma_mul_inequality, lemma_mul_is_commutative, lemma_mul_is_distributive_add,
};

verus! {

/// How the per-destination amounts are determined: an explicit list, or a
/// total split proportionally by weight.
pub enum AmountSpec {
    /// One explicit amount per destination.
    Fixed(Vec<u64>),
    /// A total to split: destination `i` receives
    /// `floor(total * weights[i] / sum(weights))`.
    Proportional { total: u64, weights: Vec<u64> },
}

/// The sum of a sequence of weights or amounts, as an unbounded integer.
pub open spec fn seq_sum(s: Seq<u64>) -> int
    decreases s.len(),
{
    if s.len() == 0 {
        0
    } else {
        seq_sum(s.drop_last()) + s.last()
    }
}

/// The number of per-destination entries an amount spec carries.
pub open spec fn spec_entry_count(a: AmountSpec) -> nat {
    match a {
        AmountSpec::Fixed(amounts) => amounts@.len(),
        AmountSpec::Proportional { total: _, weights } => weights@.len(),
    }
}

/// Whether the spec admits amount computation: a proportional weight sum
/// must be strictly positive before division; a fixed list always does.
pub open spec fn spec_weight_sum_ok(a: AmountSpec) -> bool {
    match a {
        AmountSpec::Fixed(_) => true,
        AmountSpec::Proportional { total: _, weights } => seq_sum(weights@) > 0,
    }
}

/// Destination `i`'s share of `total` under `weights`: the floor of
/// `total * weights[i]` divided by the weight sum.
pub open spec fn spec_share(total: u64, weights: Seq<u64>, i: int) -> int {
    (total * weights[i]) / seq_sum(weights)
}

/// The full share list of a proportional spec.
pub open spec fn spec_shares(total: u64, weights: Seq<u64>) -> Seq<u64> {
    Seq::new(weights.len(), |i: int| spec_share(total, weights, i) as u64)
}

/// The amount list a spec denotes: a fixed list verbatim, a proportional
/// spec by its computed shares.
pub open spec fn spec_amounts(a: AmountSpec) -> Seq<u64> {
    match a {
        AmountSpec::Fixed(amounts) => amounts@,
        AmountSpec::Proportional { total, weights } => spec_shares(total, weights@),
    }
}

/// The sum of unsigned values is never negative.
pub proof fn lemma_seq_sum_nonneg(s: Seq<u64>)
    ensures
        seq_sum(s) >= 0,
    decreases s.len(),
{
    if s.len() > 0 {
        lemma_seq_sum_nonneg(s.drop_last());
    }
}

/// Extending a summed prefix by one element adds that element to the sum.
pub proof fn lemma_seq_sum_take_step(s: Seq<u64>, i: int)
    requires
        0 <= i < s.len(),
    ensures
        seq_sum(s.take(i + 1)) == seq_sum(s.take(i)) + s[i],
{
    assert(s.take(i + 1).drop_last() =~= s.take(i));
    assert(s.take(i + 1).last() == s[i]);
}

/// A sequence of `u64` values sums to at most its length times `u64::MAX`.
pub proof fn lemma_seq_sum_upper(s: Seq<u64>)
    ensures
        seq_sum(s) <= s.len() * (u64::MAX as int),
    decreases s.len(),
{
    if s.len() > 0 {
        lemma_seq_sum_upper(s.drop_last());
    }
}

/// Each element of a sequence of unsigned values is at most the whole sum.
pub proof fn lemma_seq_sum_element(s: Seq<u64>, i: int)
    requires
        0 <= i < s.len(),
    ensures
        s[i] <= seq_sum(s),
    decreases s.len(),
{
    lemma_seq_sum_nonneg(s.drop_last());
    if i < s.len() - 1 {
        lemma_seq_sum_element(s.drop_last(), i);
    }
}

/// A share never falls below zero nor exceeds the total being split,
/// because no weight exceeds the weight sum.
pub proof fn lemma_share_in_range(total: u64, weights: Seq<u64>, i: int)
    requires
        seq_sum(weights) > 0,
        0 <= i < weights.len(),
    ensures
        0 <= spec_share(total, weights, i) <= total,
{
    let sum = seq_sum(weights);
    let w = weights[i] as int;
    let t = total as int;
    lemma_seq_sum_element(weights, i);
    lemma_mul_inequality(0, w, t);
    lemma_mul_inequality(w, sum, t);
    lemma_div_is_ordered(0, t * w, sum);
    lemma_div_is_ordered(t * w, t * sum, sum);
    lemma_div_multiples_vanish(0, sum);
    lemma_div_multiples_vanish(t, sum);
}

/// Scaled prefix bound behind the residual law: over the first `k`
/// destinations, the shares times the weight sum never exceed the total
/// times the summed weights.
proof fn lemma_scaled_prefix(total: u64, weights: Seq<u64>, k: int)
    requires
        seq_sum(weights) > 0,
        0 <= k <= weights.len(),
    ensures
        seq_sum(weights) * seq_sum(spec_shares(total, weights).take(k)) <= (total as int)
            * seq_sum(weights.take(k)),
    decreases k,
{
    let sum = seq_sum(weights);
    let t = total as int;
    let shares = spec_shares(total, weights);
    if k == 0 {
        assert(shares.take(0) =~= Seq::<u64>::empty());
        assert(weights.take(0) =~= Seq::<u64>::empty());
        assert(sum * 0 == 0) by (nonlinear_arith);
        assert(t * 0 == 0) by (nonlinear_arith);
    } else {
        lemma_scaled_prefix(total, weights, k - 1);
        lemma_seq_sum_take_step(shares, k - 1);
        lemma_seq_sum_take_step(weights, k - 1);
        lemma_share_in_range(total, weights, k - 1);
        let q = spec_share(total, weights, k - 1);
        assert(shares[k - 1] == q as u64);
        let w = weights[k - 1] as int;
        lemma_fundamental_div_mod(t * w, sum);
        lemma_mod_bound(t * w, sum);
        lemma_mul_is_distributive_add(sum, seq_sum(shares.take(k - 1)), q);
        lemma_mul_is_distributive_add(t, seq_sum(weights.take(k - 1)), w);
    }
}

/// Residual law of proportional splitting: the computed shares never sum
/// to more than the total. Floor division may undershoot, and the
/// undistributed residual is deliberate, but it can never overshoot.
pub proof fn lemma_shares_sum_le_total(total: u64, weights: Seq<u64>)
    requires
        seq_sum(weights) > 0,
    ensures
        0 <= seq_sum(spec_shares(total, weights)) <= total,
{
    let sum = seq_sum(weights);
    let t = total as int;
    let shares = spec_shares(total, weights);
    lemma_scaled_prefix(total, weights, weights.len() as int);
    assert(shares.take(weights.len() as int) =~= shares);
    assert(weights.take(weights.len() as int) =~= weights);
    lemma_seq_sum_nonneg(shares);
    if seq_sum(shares) > t {
        lemma_mul_inequality(t + 1, seq_sum(shares), sum);
        lemma_mul_is_distributive_add(sum, t, 1);
        lemma_mul_is_commutative(t + 1, sum);
        lemma_mul_is_commutative(seq_sum(shares), sum);
        lemma_mul_is_commutative(t, sum);
        assert(false);
    }
}

/// The number of per-destination entries the spec carries.
pub fn entry_count(amount_spec: &AmountSpec) -> (n: usize)
    ensures
        n == spec_entry_count(*amount_spec),
{
    match amount_spec {
        AmountSpec::Fixed(amounts) => amounts.len(),
        AmountSpec::Proportional { total: _, weights } => weights.len(),
    }
}

/// Sum the weights in a double-width accumulator: no weight list that fits
/// in memory can overflow it.
pub fn weight_total(weights: &Vec<u64>) -> (sum: u128)
    ensures
        sum as int == seq_sum(weights@),
{
    let mut sum: u128 = 0;
    let mut i: usize = 0;
    while i < weights.len()
        invariant
            i <= weights@.len(),
            sum as int == seq_sum(weights@.take(i as int)),
        decreases weights@.len() - i,
    {
        proof {
            lemma_seq_sum_upper(weights@.take(i as int));
            lemma_seq_sum_take_step(weights@, i as int);
        }
        sum = sum + (weights[i] as u128);
        i = i + 1;
    }
    proof {
        assert(weights@.take(weights@.len() as int) =~= weights@);
    }
    sum
}

/// Produce one amount per destination: a fixed list verbatim, a
/// proportional spec as each weight's floor share of the total.
pub fn compute_amounts(amount_spec: &AmountSpec) -> (amounts: Vec<u64>)
    requires
        spec_weight_sum_ok(*amount_spec),
    ensures
        amounts@ == spec_amounts(*amount_spec),
{
    match amount_spec {
        AmountSpec::Fixed(fixed) => {
            let mut out: Vec<u64> = Vec::new();
            let mut i: usize = 0;
            while i < fixed.len()
                invariant
                    i <= fixed@.len(),
                    out@ == fixed@.take(i as int),
                decreases fixed@.len() - i,
            {
                out.push(fixed[i]);
                proof {
                    assert(out@ =~= fixed@.take(i as int + 1));
                }
                i = i + 1;
            }
            proof {
                assert(fixed@.take(fixed@.len() as int) =~= fixed@);
            }
            out
        },
        AmountSpec::Proportional { total, weights } => {
            let sum = weight_total(weights);
            let total_wide = *total as u128;
            let mut out: Vec<u64> = Vec::new();
            let mut i: usize = 0;
            while i < weights.len()
                invariant
                    i <= weights@.len(),
                    sum as int == seq_sum(weights@),
                    seq_sum(weights@) > 0,
                    total_wide == *total as u128,
                    out@.len() == i as int,
                    forall|j: int| 0 <= j < i ==> out@[j] == spec_shares(*total, weights@)[j],
                decreases weights@.len() - i,
            {
                let w = weights[i];
                proof {
                    lemma_mul_inequality(
                        total_wide as int,
                        u64::MAX as int,
                        w as int,
                    );
                    lemma_share_in_range(*total, weights@, i as int);
                }
                let wide = total_wide * (w as u128);
                let q = wide / sum;
                out.push(q as u64);
                i = i + 1;
            }
            proof {
                assert(out@ =~= spec_shares(*total, weights@));
            }
            out
        },
    }
}

} // verus!
