//! Fan-out dispersal requests: validation of the recipient and amount
//! lists and computation of the single on-chain transaction's value,
//! either from explicit amounts or from a basis-point percentage split.

use vstd::prelude::*;
use crate::errors::DisperseError;
use crate::split::{calculate_amounts, share_of};
use crate::sums::{lemma_sum_amounts_take_le, lemma_sum_amounts_take_step, sum_amounts, sum_bps};
use crate::types::Address;

verus! {

/// A validated one-to-many dispersal: one atomic on-chain transaction
/// moving `amounts[i]` base units to `recipients[i]` for every `i`.
///
/// For a native-coin dispersal (`token` is `None`) the transaction's value
/// is `total`, the sum of all amounts; the contract performs the fan-out
/// internally. For a token dispersal `total` is the allowance the operator
/// must have approved to the contract beforehand.
#[derive(Debug)]
pub struct DisperseRequest {
    pub token: Option<Address>,
    pub recipients: Vec<Address>,
    pub amounts: Vec<u128>,
    pub total: u128,
}

impl DisperseRequest {
    /// Every constructed request keeps recipients and amounts aligned,
    /// non-empty, and `total` equal to the exact sum of the amounts.
    pub open spec fn wf(self) -> bool {
        &&& self.recipients@.len() == self.amounts@.len()
        &&& self.recipients@.len() > 0
        &&& self.total == sum_amounts(self.amounts@)
    }

    /// Builds a native-coin dispersal from explicit per-recipient amounts.
    /// Mismatched list lengths, an empty recipient list, or a total beyond
    /// 128 bits are validation errors; no transaction is constructed for
    /// them.
    pub fn new_native(recipients: Vec<Address>, amounts: Vec<u128>) -> (r: Result<
        DisperseRequest,
        DisperseError,
    >)
        ensures
            match r {
                Ok(d) => {
                    &&& recipients@.len() == amounts@.len()
                    &&& recipients@.len() > 0
                    &&& sum_amounts(amounts@) <= u128::MAX
                    &&& d.token is None
                    &&& d.recipients@ == recipients@
                    &&& d.amounts@ == amounts@
                    &&& d.total == sum_amounts(amounts@)
                    &&& d.wf()
                },
                Err(e) => {
                    ||| (recipients@.len() != amounts@.len() && e == (DisperseError::LengthMismatch {
                        addresses: recipients@.len() as usize,
                        amounts: amounts@.len() as usize,
                    }))
                    ||| (recipients@.len() == amounts@.len() && recipients@.len() == 0 && e
                        == DisperseError::EmptyRecipients)
                    ||| (recipients@.len() == amounts@.len() && recipients@.len() > 0
                        && sum_amounts(amounts@) > u128::MAX && e == DisperseError::AmountOverflow)
                },
            },
    {
        Self::build(None, recipients, amounts)
    }

    /// Builds a token dispersal from explicit per-recipient amounts, with
    /// the same validation as the native-coin form.
    pub fn new_token(token: Address, recipients: Vec<Address>, amounts: Vec<u128>) -> (r: Result<
        DisperseRequest,
        DisperseError,
    >)
        ensures
            match r {
                Ok(d) => {
                    &&& recipients@.len() == amounts@.len()
                    &&& recipients@.len() > 0
                    &&& sum_amounts(amounts@) <= u128::MAX
                    &&& d.token == Some(token)
                    &&& d.recipients@ == recipients@
                    &&& d.amounts@ == amounts@
                    &&& d.total == sum_amounts(amounts@)
                    &&& d.wf()
                },
                Err(e) => {
                    ||| (recipients@.len() != amounts@.len() && e == (DisperseError::LengthMismatch {
                        addresses: recipients@.len() as usize,
                        amounts: amounts@.len() as usize,
                    }))
                    ||| (recipients@.len() == amounts@.len() && recipients@.len() == 0 && e
                        == DisperseError::EmptyRecipients)
                    ||| (recipients@.len() == amounts@.len() && recipients@.len() > 0
                        && sum_amounts(amounts@) > u128::MAX && e == DisperseError::AmountOverflow)
                },
            },
    {
        Self::build(Some(token), recipients, amounts)
    }

    fn build(token: Option<Address>, recipients: Vec<Address>, amounts: Vec<u128>) -> (r: Result<
        DisperseRequest,
        DisperseError,
    >)
        ensures
            match r {
                Ok(d) => {
                    &&& recipients@.len() == amounts@.len()
                    &&& recipients@.len() > 0
                    &&& sum_amounts(amounts@) <= u128::MAX
                    &&& d.token == token
                    &&& d.recipients@ == recipients@
                    &&& d.amounts@ == amounts@
                    &&& d.total == sum_amounts(amounts@)
                    &&& d.wf()
                },
                Err(e) => {
                    ||| (recipients@.len() != amounts@.len() && e == (DisperseError::LengthMismatch {
                        addresses: recipients@.len() as usize,
                        amounts: amounts@.len() as usize,
                    }))
                    ||| (recipients@.len() == amounts@.len() && recipients@.len() == 0 && e
                        == DisperseError::EmptyRecipients)
                    ||| (recipients@.len() == amounts@.len() && recipients@.len() > 0
                        && sum_amounts(amounts@) > u128::MAX && e == DisperseError::AmountOverflow)
                },
            },
    {
        if recipients.len() != amounts.len() {
            return Err(DisperseError::LengthMismatch {
                addresses: recipients.len(),
                amounts: amounts.len(),
            });
        }
        if recipients.len() == 0 {
            return Err(DisperseError::EmptyRecipients);
        }
        let n = amounts.len();
        let mut total: u128 = 0;
        let mut i: usize = 0;
        while i < n
            invariant
                n == amounts@.len(),
                recipients@.len() == amounts@.len(),
                recipients@.len() > 0,
                i <= n,
                total == sum_amounts(amounts@.take(i as int)),
            decreases n - i,
        {
            let a = amounts[i];
            proof {
                lemma_sum_amounts_take_step(amounts@, i as int);
                lemma_sum_amounts_take_le(amounts@, i as int + 1);
            }
            if a > u128::MAX - total {
                return Err(DisperseError::AmountOverflow);
            }
            total = total + a;
            i = i + 1;
        }
        proof {
            assert(amounts@.take(n as int) =~= amounts@);
        }
        Ok(DisperseRequest { token, recipients, amounts, total })
    }

    /// Builds a native-coin dispersal from a percentage split: the amounts
    /// are `floor(total_amount * p / 10000)` in percentage order, and the
    /// transaction's value is their exact sum (at most `total_amount`).
    pub fn new_native_by_percentage(
        recipients: Vec<Address>,
        percentages: Vec<u64>,
        total_amount: u128,
    ) -> (r: Result<DisperseRequest, DisperseError>)
        ensures
            match r {
                Ok(d) => {
                    &&& recipients@.len() == percentages@.len()
                    &&& recipients@.len() > 0
                    &&& sum_bps(percentages@) == 10000
                    &&& d.token is None
                    &&& d.recipients@ == recipients@
                    &&& d.amounts@.len() == percentages@.len()
                    &&& forall|j: int|
                        0 <= j < d.amounts@.len() ==> d.amounts@[j] == share_of(
                            total_amount,
                            percentages@[j],
                        )
                    &&& d.total == sum_amounts(d.amounts@)
                    &&& d.total <= total_amount
                    &&& total_amount - d.total < percentages@.len()
                    &&& d.wf()
                },
                Err(e) => {
                    ||| (recipients@.len() != percentages@.len() && e
                        == (DisperseError::LengthMismatch {
                        addresses: recipients@.len() as usize,
                        amounts: percentages@.len() as usize,
                    }))
                    ||| (recipients@.len() == percentages@.len() && recipients@.len() == 0 && e
                        == DisperseError::EmptyRecipients)
                    ||| (recipients@.len() == percentages@.len() && recipients@.len() > 0
                        && sum_bps(percentages@) != 10000 && e == (DisperseError::InvalidSplit {
                        observed: sum_bps(percentages@) as u128,
                    }))
                },
            },
    {
        Self::build_by_percentage(None, recipients, percentages, total_amount)
    }

    /// Builds a token dispersal from a percentage split, with the same
    /// validation and the same computed amounts as the native-coin form.
    pub fn new_token_by_percentage(
        token: Address,
        recipients: Vec<Address>,
        percentages: Vec<u64>,
        total_amount: u128,
    ) -> (r: Result<DisperseRequest, DisperseError>)
        ensures
            match r {
                Ok(d) => {
                    &&& recipients@.len() == percentages@.len()
                    &&& recipients@.len() > 0
                    &&& sum_bps(percentages@) == 10000
                    &&& d.token == Some(token)
                    &&& d.recipients@ == recipients@
                    &&& d.amounts@.len() == percentages@.len()
                    &&& forall|j: int|
                        0 <= j < d.amounts@.len() ==> d.amounts@[j] == share_of(
                            total_amount,
                            percentages@[j],
                        )
                    &&& d.total == sum_amounts(d.amounts@)
                    &&& d.total <= total_amount
                    &&& total_amount - d.total < percentages@.len()
                    &&& d.wf()
                },
                Err(e) => {
                    ||| (recipients@.len() != percentages@.len() && e
                        == (DisperseError::LengthMismatch {
                        addresses: recipients@.len() as usize,
                        amounts: percentages@.len() as usize,
                    }))
                    ||| (recipients@.len() == percentages@.len() && recipients@.len() == 0 && e
                        == DisperseError::EmptyRecipients)
                    ||| (recipients@.len() == percentages@.len() && recipients@.len() > 0
                        && sum_bps(percentages@) != 10000 && e == (DisperseError::InvalidSplit {
                        observed: sum_bps(percentages@) as u128,
                    }))
                },
            },
    {
        Self::build_by_percentage(Some(token), recipients, percentages, total_amount)
    }

    fn build_by_percentage(
        token: Option<Address>,
        recipients: Vec<Address>,
        percentages: Vec<u64>,
        total_amount: u128,
    ) -> (r: Result<DisperseRequest, DisperseError>)
        ensures
            match r {
                Ok(d) => {
                    &&& recipients@.len() == percentages@.len()
                    &&& recipients@.len() > 0
                    &&& sum_bps(percentages@) == 10000
                    &&& d.token == token
                    &&& d.recipients@ == recipients@
                    &&& d.amounts@.len() == percentages@.len()
                    &&& forall|j: int|
                        0 <= j < d.amounts@.len() ==> d.amounts@[j] == share_of(
                            total_amount,
                            percentages@[j],
                        )
                    &&& d.total == sum_amounts(d.amounts@)
                    &&& d.total <= total_amount
                    &&& total_amount - d.total < percentages@.len()
                    &&& d.wf()
                },
                Err(e) => {
                    ||| (recipients@.len() != percentages@.len() && e
                        == (DisperseError::LengthMismatch {
                        addresses: recipients@.len() as usize,
                        amounts: percentages@.len() as usize,
                    }))
                    ||| (recipients@.len() == percentages@.len() && recipients@.len() == 0 && e
                        == DisperseError::EmptyRecipients)
                    ||| (recipients@.len() == percentages@.len() && recipients@.len() > 0
                        && sum_bps(percentages@) != 10000 && e == (DisperseError::InvalidSplit {
                        observed: sum_bps(percentages@) as u128,
                    }))
                },
            },
    {
        if recipients.len() != percentages.len() {
            return Err(DisperseError::LengthMismatch {
                addresses: recipients.len(),
                amounts: percentages.len(),
            });
        }
        if recipients.len() == 0 {
            return Err(DisperseError::EmptyRecipients);
        }
        let amounts = match calculate_amounts(total_amount, &percentages) {
            Ok(amounts) => amounts,
            Err(e) => {
                return Err(e);
            },
        };
        match Self::build(token, recipients, amounts) {
            Ok(d) => Ok(d),
            Err(e) => {
                // unreachable: the split produced aligned, non-empty
                // amounts whose sum is bounded by `total_amount`
                Err(e)
            },
        }
    }
}

/// A token-allowance update: lets `spender` move up to `amount` base units
/// of `token` on the operator's behalf.
#[derive(Debug)]
pub struct ApprovalRequest {
    pub token: Address,
    pub spender: Address,
    pub amount: u128,
}

impl ApprovalRequest {
    /// Grants `spender` an allowance of exactly `amount`.
    pub fn approve(token: Address, spender: Address, amount: u128) -> (r: ApprovalRequest)
        ensures
            r == (ApprovalRequest { token, spender, amount }),
    {
        ApprovalRequest { token, spender, amount }
    }

    /// Revoking is approving an allowance of zero.
    pub fn revoke(token: Address, spender: Address) -> (r: ApprovalRequest)
        ensures
            r == (ApprovalRequest { token, spender, amount: 0 }),
    {
        Self::approve(token, spender, 0)
    }
}

} // verus!
