//! Mathematical sums of amount and percentage sequences, with the small
//! facts about them that the validation and splitting proofs rely on.

use vstd::prelude::*;

verus! {

/// Sum of a sequence of basis-point percentages, as a mathematical integer.
pub open spec fn sum_bps(s: Seq<u64>) -> int
    decreases s.len(),
{
    if s.len() == 0 {
        0
    } else {
        sum_bps(s.drop_last()) + s.last()
    }
}

/// Sum of a sequence of amounts, as a mathematical integer.
pub open spec fn sum_amounts(s: Seq<u128>) -> int
    decreases s.len(),
{
    if s.len() == 0 {
        0
    } else {
        sum_amounts(s.drop_last()) + s.last()
    }
}

pub proof fn lemma_sum_bps_nonneg(s: Seq<u64>)
    ensures
        sum_bps(s) >= 0,
    decreases s.len(),
{
    if s.len() > 0 {
        lemma_sum_bps_nonneg(s.drop_last());
    }
}

pub proof fn lemma_sum_amounts_nonneg(s: Seq<u128>)
    ensures
        sum_amounts(s) >= 0,
    decreases s.len(),
{
    if s.len() > 0 {
        lemma_sum_amounts_nonneg(s.drop_last());
    }
}

/// Extending a prefix by one element extends its sum by that element.
pub proof fn lemma_sum_bps_take_step(s: Seq<u64>, i: int)
    requires
        0 <= i < s.len(),
    ensures
        sum_bps(s.take(i + 1)) == sum_bps(s.take(i)) + s[i],
{
    assert(s.take(i + 1).drop_last() =~= s.take(i));
    assert(s.take(i + 1).last() == s[i]);
}

/// Extending a prefix by one element extends its sum by that element.
pub proof fn lemma_sum_amounts_take_step(s: Seq<u128>, i: int)
    requires
        0 <= i < s.len(),
    ensures
        sum_amounts(s.take(i + 1)) == sum_amounts(s.take(i)) + s[i],
{
    assert(s.take(i + 1).drop_last() =~= s.take(i));
    assert(s.take(i + 1).last() == s[i]);
}

/// Appending one element extends the sum by that element.
pub proof fn lemma_sum_amounts_push(s: Seq<u128>, x: u128)
    ensures
        sum_amounts(s.push(x)) == sum_amounts(s) + x,
{
    assert(s.push(x).drop_last() =~= s);
    assert(s.push(x).last() == x);
}

/// No element of a sequence of percentages exceeds the sequence's sum.
pub proof fn lemma_sum_bps_element_bound(s: Seq<u64>, i: int)
    requires
        0 <= i < s.len(),
    ensures
        s[i] <= sum_bps(s),
    decreases s.len(),
{
    if i == s.len() - 1 {
        lemma_sum_bps_nonneg(s.drop_last());
    } else {
        lemma_sum_bps_element_bound(s.drop_last(), i);
        assert(s.drop_last()[i] == s[i]);
    }
}

/// A prefix of a sequence of amounts sums to no more than the whole.
pub proof fn lemma_sum_amounts_take_le(s: Seq<u128>, i: int)
    requires
        0 <= i <= s.len(),
    ensures
        sum_amounts(s.take(i)) <= sum_amounts(s),
    decreases s.len(),
{
    if i == s.len() {
        assert(s.take(i) =~= s);
    } else {
        assert(s.drop_last().take(i) =~= s.take(i));
        lemma_sum_amounts_take_le(s.drop_last(), i);
    }
}

} // verus!
