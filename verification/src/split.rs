//! The splitter: conversion of a total amount and a list of basis-point
//! percentages into per-recipient amounts, and the equal-share division
//! used by the collection endpoints.

use vstd::prelude::*;
use vstd::arithmetic::div_mod::{
    lemma_div_is_ordered, lemma_div_multiples_vanish, lemma_fundamental_div_mod,
    lemma_fundamental_div_mod_converse_div,
};
use crate::errors::DisperseError;
use crate::sums::{
    lemma_sum_amounts_nonneg, lemma_sum_amounts_push, lemma_sum_bps_element_bound,
    lemma_sum_bps_take_step, sum_amounts, sum_bps,
};

verus! {

/// The amount one recipient receives from `total` at `bps` basis points:
/// the floor of `total * bps / 10000`. Truncation loss is intentional and
/// is never redistributed.
pub open spec fn share_of(total: u128, bps: u64) -> int {
    (total as int * bps as int) / 10000
}

proof fn lemma_bps_acc_step(s: int, p: int, i: int)
    by (nonlinear_arith)
    requires
        0 <= i,
        i + 1 <= 0xffff_ffff_ffff_ffff,
        0 <= s <= i * 0xffff_ffff_ffff_ffff,
        0 <= p <= 0xffff_ffff_ffff_ffff,
    ensures
        s + p <= (i + 1) * 0xffff_ffff_ffff_ffff,
        s + p <= 0xffff_ffff_ffff_ffff_ffff_ffff_ffff_ffff,
{
}

/// Computes `floor(total * p / 10000)` for each percentage `p`, in input
/// order, after checking that the percentages sum to exactly 10000
/// (100.00%). Any other sum is rejected as `InvalidSplit` naming the
/// observed sum; no rounding adjustment is ever performed.
///
/// On success the produced amounts never sum to more than `total`, and the
/// truncation shortfall is strictly less than the number of percentages.
pub fn calculate_amounts(total: u128, percentages: &Vec<u64>) -> (r: Result<
    Vec<u128>,
    DisperseError,
>)
    ensures
        match r {
            Ok(amounts) => {
                &&& sum_bps(percentages@) == 10000
                &&& amounts@.len() == percentages@.len()
                &&& forall|j: int|
                    0 <= j < amounts@.len() ==> amounts@[j] == share_of(total, percentages@[j])
                &&& sum_amounts(amounts@) <= total
                &&& total - sum_amounts(amounts@) < percentages@.len()
            },
            Err(e) => {
                &&& sum_bps(percentages@) != 10000
                &&& e == (DisperseError::InvalidSplit {
                    observed: sum_bps(percentages@) as u128,
                })
            },
        },
{
    let n = percentages.len();
    let mut sum: u128 = 0;
    let mut i: usize = 0;
    while i < n
        invariant
            n == percentages@.len(),
            i <= n,
            sum == sum_bps(percentages@.take(i as int)),
            sum <= (i as int) * 0xffff_ffff_ffff_ffff,
        decreases n - i,
    {
        let p = percentages[i];
        proof {
            lemma_sum_bps_take_step(percentages@, i as int);
            lemma_bps_acc_step(sum as int, p as int, i as int);
        }
        sum = sum + (p as u128);
        i = i + 1;
    }
    proof {
        assert(percentages@.take(n as int) =~= percentages@);
    }
    if sum != 10000 {
        return Err(DisperseError::InvalidSplit { observed: sum });
    }

    let q: u128 = total / 10000;
    let rem: u128 = total % 10000;
    proof {
        lemma_fundamental_div_mod(total as int, 10000);
    }
    let mut amounts: Vec<u128> = Vec::new();
    let ghost mut rsum: int = 0;
    let mut i: usize = 0;
    while i < n
        invariant
            n == percentages@.len(),
            sum_bps(percentages@) == 10000,
            i <= n,
            total == 10000 * (q as int) + rem,
            rem < 10000,
            amounts@.len() == i,
            forall|j: int| 0 <= j < i ==> amounts@[j] == share_of(total, percentages@[j]),
            10000 * sum_amounts(amounts@) + rsum == (total as int) * sum_bps(
                percentages@.take(i as int),
            ),
            0 <= rsum,
            rsum <= (i as int) * 9999,
        decreases n - i,
    {
        let p = percentages[i];
        proof {
            lemma_sum_bps_element_bound(percentages@, i as int);
            // p <= 10000, because the percentages sum to exactly 10000
            assert(rem as int * p as int <= 9999 * 10000) by (nonlinear_arith)
                requires
                    rem <= 9999,
                    0 <= p <= 10000,
            ;
        }
        let low: u128 = rem * (p as u128);
        let d_low: u128 = low / 10000;
        let m_low: u128 = low % 10000;
        proof {
            lemma_fundamental_div_mod(low as int, 10000);
            // the high part of the product stays below the total
            assert(q as int * p as int <= 10000 * (q as int)) by (nonlinear_arith)
                requires
                    0 <= q,
                    0 <= p <= 10000,
            ;
            // the low part of the product contributes at most `rem`
            assert(rem as int * p as int <= rem as int * 10000) by (nonlinear_arith)
                requires
                    0 <= rem,
                    0 <= p <= 10000,
            ;
            lemma_div_is_ordered((rem as int) * (p as int), (rem as int) * 10000, 10000);
            lemma_div_multiples_vanish(rem as int, 10000);
            assert((rem as int) * 10000 == 10000 * (rem as int));
        }
        let high: u128 = q * (p as u128);
        let share: u128 = high + d_low;
        proof {
            assert((total as int) * (p as int) == 10000 * (share as int) + m_low as int)
                by (nonlinear_arith)
                requires
                    total as int == 10000 * (q as int) + rem as int,
                    low as int == rem as int * p as int,
                    low as int == 10000 * (d_low as int) + m_low as int,
                    high as int == q as int * p as int,
                    share as int == high as int + d_low as int,
            ;
            lemma_fundamental_div_mod_converse_div(
                (total as int) * (p as int),
                10000,
                share as int,
                m_low as int,
            );
        }
        let ghost pre = amounts@;
        amounts.push(share);
        proof {
            lemma_sum_amounts_push(pre, share);
            lemma_sum_bps_take_step(percentages@, i as int);
            assert((total as int) * (sum_bps(percentages@.take(i as int)) + p as int) == (
            total as int) * sum_bps(percentages@.take(i as int)) + (total as int) * (p as int))
                by (nonlinear_arith);
            rsum = rsum + m_low as int;
        }
        i = i + 1;
    }
    proof {
        assert(percentages@.take(n as int) =~= percentages@);
        if n == 0 {
            assert(sum_bps(percentages@) == 0);
        }
        lemma_sum_amounts_nonneg(amounts@);
        assert((total as int) * sum_bps(percentages@) == 10000 * (total as int))
            by (nonlinear_arith)
            requires
                sum_bps(percentages@) == 10000,
        ;
        // 10000 * sum + rsum == 10000 * total with 0 <= rsum <= 9999 * n,
        // so the amounts sum to at most the total and the shortfall is
        // strictly below the number of recipients.
        assert(sum_amounts(amounts@) <= total as int);
        assert(10000 * (total as int - sum_amounts(amounts@)) <= 9999 * (n as int));
        assert(total as int - sum_amounts(amounts@) < n as int);
    }
    Ok(amounts)
}

/// Divides a collection total evenly over `count` source addresses: every
/// share is `floor(total / count)`. A zero total or an empty address list
/// is rejected before any share is computed.
pub fn equal_shares(total: u128, count: usize) -> (r: Result<Vec<u128>, DisperseError>)
    ensures
        match r {
            Ok(shares) => {
                &&& total != 0
                &&& count != 0
                &&& shares@.len() == count
                &&& forall|j: int| 0 <= j < count ==> shares@[j] == total as int / count as int
            },
            Err(e) => {
                ||| (total == 0 && e == DisperseError::ZeroAmount)
                ||| (total != 0 && count == 0 && e == DisperseError::EmptyRecipients)
            },
        },
{
    if total == 0 {
        return Err(DisperseError::ZeroAmount);
    }
    if count == 0 {
        return Err(DisperseError::EmptyRecipients);
    }
    let share: u128 = total / (count as u128);
    let mut shares: Vec<u128> = Vec::new();
    let mut i: usize = 0;
    while i < count
        invariant
            i <= count,
            count != 0,
            shares@.len() == i,
            share == total as int / count as int,
            forall|j: int| 0 <= j < i ==> shares@[j] == share,
        decreases count - i,
    {
        shares.push(share);
        i = i + 1;
    }
    Ok(shares)
}

} // verus!
