//! The functions run inside the secure multi-party computation.
//!
//! The MPC nodes evaluate these jointly over the committed secret
//! contribution values plus the public funding target; on chain only the
//! opaque output handles are visible until a variable is declassified.  The
//! arithmetic is over 32-bit secret integers, so sums wrap modulo 2^32.

use vstd::arithmetic::div_mod::{lemma_add_mod_noop, lemma_mod_self_0, lemma_small_mod};
use vstd::prelude::*;

verus! {

/// 2^32: the modulus of 32-bit secret-integer arithmetic.
pub const SECRET_WIDTH_MODULUS: u64 = 0x1_0000_0000;

/// The mathematical (unwrapped) sum of the contribution values.
pub open spec fn sum_of(vals: Seq<u32>) -> int
    decreases vals.len(),
{
    if vals.len() == 0 {
        0
    } else {
        sum_of(vals.drop_last()) + vals.last()
    }
}

/// The sum as the 32-bit computation produces it: reduced modulo 2^32.
pub open spec fn wrapped_total(vals: Seq<u32>) -> u32 {
    (sum_of(vals) % (SECRET_WIDTH_MODULUS as int)) as u32
}

/// Whether the computation reports the funding target as met.
pub open spec fn spec_threshold_met(vals: Seq<u32>, target: u32) -> bool {
    wrapped_total(vals) >= target
}

/// The total the computation exposes for public display: the sum when the
/// target is met, and zero otherwise, so that even declassifying it reveals
/// nothing about a failed campaign.
pub open spec fn spec_conditional_total(vals: Seq<u32>, target: u32) -> u32 {
    if spec_threshold_met(vals, target) {
        wrapped_total(vals)
    } else {
        0
    }
}

/// The sum of any contribution values is nonnegative.
proof fn lemma_sum_nonneg(vals: Seq<u32>)
    ensures
        sum_of(vals) >= 0,
    decreases vals.len(),
{
    if vals.len() > 0 {
        lemma_sum_nonneg(vals.drop_last());
    }
}

/// Sum the contribution values in 32-bit wrapping arithmetic, exactly as the
/// secure computation's secret integers do.
pub fn sum_contributions(contributions: &Vec<u32>) -> (total: u32)
    ensures
        total == wrapped_total(contributions@),
{
    let n = contributions.len();
    let mut total: u32 = 0;
    let mut i: usize = 0;
    proof {
        lemma_mod_self_0(SECRET_WIDTH_MODULUS as int);
        assert(contributions@.take(0) =~= Seq::<u32>::empty());
    }
    while i < n
        invariant
            0 <= i <= n,
            n == contributions@.len(),
            total == sum_of(contributions@.take(i as int)) % (SECRET_WIDTH_MODULUS as int),
        decreases n - i,
    {
        let v = contributions[i];
        proof {
            let prefix = contributions@.take(i as int);
            let next = contributions@.take(i as int + 1);
            assert(next.drop_last() =~= prefix);
            assert(next.last() == contributions@[i as int]);
            lemma_sum_nonneg(prefix);
            lemma_add_mod_noop(sum_of(prefix), v as int, SECRET_WIDTH_MODULUS as int);
            lemma_small_mod(v as nat, SECRET_WIDTH_MODULUS as nat);
            lemma_small_mod(
                ((total + v) % (SECRET_WIDTH_MODULUS as int)) as nat,
                SECRET_WIDTH_MODULUS as nat,
            );
        }
        total = total.wrapping_add(v);
        i = i + 1;
    }
    proof {
        assert(contributions@.take(n as int) =~= contributions@);
    }
    total
}

/// The privacy-preserving threshold computation.
///
/// Sums the committed secret contribution values and compares the sum against
/// the public funding target.  Returns exactly three secret outputs, in this
/// order: the threshold flag (1 when the target was met, 0 otherwise, always
/// declassified), the conditional total (the sum when the target was met,
/// zero otherwise, declassified only for public display of a successful
/// campaign), and the actual total (always the true wrapped sum, declassified
/// only through the owner's withdrawal path).
pub fn threshold_check_with_privacy_preserving_withdrawal(
    funding_target: u32,
    contributions: &Vec<u32>,
) -> (r: (u32, u32, u32))
    ensures
        r.0 == (if spec_threshold_met(contributions@, funding_target) {
            1u32
        } else {
            0u32
        }),
        r.1 == spec_conditional_total(contributions@, funding_target),
        r.2 == wrapped_total(contributions@),
{
    let total = sum_contributions(contributions);
    let meets_threshold = total >= funding_target;

    let threshold_met: u32 = if meets_threshold {
        1
    } else {
        0
    };

    let conditional_total: u32 = if meets_threshold {
        total
    } else {
        0
    };

    let actual_total: u32 = total;

    (threshold_met, conditional_total, actual_total)
}

/// Threshold correctness: whenever the true sum of the contributions fits in
/// the 32-bit computation width, the threshold flag is exactly "sum reaches
/// the target", and the conditionally revealed total is exactly the sum when
/// the target is met and zero otherwise.
pub proof fn lemma_threshold_correctness(vals: Seq<u32>, target: u32)
    requires
        sum_of(vals) <= u32::MAX,
    ensures
        wrapped_total(vals) == sum_of(vals),
        spec_threshold_met(vals, target) == (sum_of(vals) >= target),
        spec_conditional_total(vals, target) == (if sum_of(vals) >= target {
            sum_of(vals)
        } else {
            0
        }),
{
    lemma_sum_nonneg(vals);
    lemma_small_mod(sum_of(vals) as nat, SECRET_WIDTH_MODULUS as nat);
}

} // verus!
