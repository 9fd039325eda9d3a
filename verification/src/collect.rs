//! Fan-in collection: a many-to-one pull of funds, one transaction per
//! source address, driven as an explicit state machine.
//!
//! The pairs `(from[i], amounts[i])` are processed strictly in input
//! order. Each step first observes the source's balance; a balance below
//! the requested amount aborts the whole run at that pair (fail-fast, no
//! rollback), while a sufficient balance yields the transfer to sign and
//! submit. The caller reports each submitted transaction's hash before the
//! next pair is examined, so the recorded hashes always form exactly the
//! prefix of pairs that completed.

use vstd::prelude::*;
use crate::errors::DisperseError;
use crate::types::{Address, TransferRequest, TxHash};

verus! {

/// The abstract state of a collection run.
pub ghost struct CollectModel {
    /// The token being collected, or `None` for the native coin.
    pub token: Option<Address>,
    /// The source addresses, in submission order.
    pub from: Seq<Address>,
    /// The single destination address.
    pub to: Address,
    /// The amount requested from each source, aligned with `from`.
    pub amounts: Seq<u128>,
    /// Hashes of the transactions submitted so far, in pair order.
    pub hashes: Seq<TxHash>,
    /// The index of the next pair to process.
    pub next_index: int,
    /// True between a sufficient balance report and the hash report.
    pub submitting: bool,
    /// The source address whose balance aborted the run, once failed.
    pub failed: Option<Address>,
}

/// A collection run over `(from[i], amounts[i])` pairs. Constructed by
/// validation, advanced by balance and submission reports, and finished
/// only when every pair has been submitted.
#[derive(Debug)]
pub struct CollectSession {
    token: Option<Address>,
    from: Vec<Address>,
    to: Address,
    amounts: Vec<u128>,
    hashes: Vec<TxHash>,
    next_index: usize,
    submitting: bool,
    failed: Option<Address>,
}

impl View for CollectSession {
    type V = CollectModel;

    closed spec fn view(&self) -> CollectModel {
        CollectModel {
            token: self.token,
            from: self.from@,
            to: self.to,
            amounts: self.amounts@,
            hashes: self.hashes@,
            next_index: self.next_index as int,
            submitting: self.submitting,
            failed: self.failed,
        }
    }
}

impl CollectSession {
    /// The invariant of every reachable session: the pair lists stay
    /// aligned, and the recorded hashes are exactly one per fully
    /// processed pair — so a run that failed at some pair has submitted
    /// nothing for that pair or any later one.
    pub open spec fn wf(self) -> bool {
        &&& self@.from.len() == self@.amounts.len()
        &&& 0 <= self@.next_index <= self@.from.len()
        &&& self@.hashes.len() == self@.next_index
        &&& (self@.submitting ==> self@.next_index < self@.from.len() && self@.failed is None)
        &&& (self@.failed matches Some(a) ==> self@.next_index < self@.from.len() && a
            == self@.from[self@.next_index])
    }

    /// About to observe the balance of the next source address.
    pub open spec fn is_checking(self) -> bool {
        &&& self@.failed is None
        &&& !self@.submitting
        &&& self@.next_index < self@.from.len()
    }

    /// A transfer was handed out and its hash has not been reported yet.
    pub open spec fn is_submitting(self) -> bool {
        self@.submitting
    }

    /// Every pair was processed and submitted.
    pub open spec fn is_done(self) -> bool {
        &&& self@.failed is None
        &&& !self@.submitting
        &&& self@.next_index == self@.from.len()
    }

    /// The run was aborted by an insufficient balance.
    pub open spec fn is_failed(self) -> bool {
        self@.failed is Some
    }

    /// Starts a native-coin collection. The only validation is that the
    /// source and amount lists are aligned; it happens here, before any
    /// balance is observed or any transaction is constructed.
    pub fn new(from: Vec<Address>, to: Address, amounts: Vec<u128>) -> (r: Result<
        CollectSession,
        DisperseError,
    >)
        ensures
            match r {
                Ok(s) => {
                    &&& from@.len() == amounts@.len()
                    &&& s.wf()
                    &&& s@.token is None
                    &&& s@.from == from@
                    &&& s@.to == to
                    &&& s@.amounts == amounts@
                    &&& s@.hashes == Seq::<TxHash>::empty()
                    &&& s@.next_index == 0
                    &&& !s@.submitting
                    &&& s@.failed is None
                },
                Err(e) => {
                    &&& from@.len() != amounts@.len()
                    &&& e == (DisperseError::LengthMismatch {
                        addresses: from@.len() as usize,
                        amounts: amounts@.len() as usize,
                    })
                },
            },
    {
        Self::start(None, from, to, amounts)
    }

    /// Starts a token collection: each transfer pulls `amounts[i]` base
    /// units of `token` from `from[i]` to `to` through a prior allowance.
    pub fn new_token(token: Address, from: Vec<Address>, to: Address, amounts: Vec<u128>) -> (r:
        Result<CollectSession, DisperseError>)
        ensures
            match r {
                Ok(s) => {
                    &&& from@.len() == amounts@.len()
                    &&& s.wf()
                    &&& s@.token == Some(token)
                    &&& s@.from == from@
                    &&& s@.to == to
                    &&& s@.amounts == amounts@
                    &&& s@.hashes == Seq::<TxHash>::empty()
                    &&& s@.next_index == 0
                    &&& !s@.submitting
                    &&& s@.failed is None
                },
                Err(e) => {
                    &&& from@.len() != amounts@.len()
                    &&& e == (DisperseError::LengthMismatch {
                        addresses: from@.len() as usize,
                        amounts: amounts@.len() as usize,
                    })
                },
            },
    {
        Self::start(Some(token), from, to, amounts)
    }

    fn start(token: Option<Address>, from: Vec<Address>, to: Address, amounts: Vec<u128>) -> (r:
        Result<CollectSession, DisperseError>)
        ensures
            match r {
                Ok(s) => {
                    &&& from@.len() == amounts@.len()
                    &&& s.wf()
                    &&& s@.token == token
                    &&& s@.from == from@
                    &&& s@.to == to
                    &&& s@.amounts == amounts@
                    &&& s@.hashes == Seq::<TxHash>::empty()
                    &&& s@.next_index == 0
                    &&& !s@.submitting
                    &&& s@.failed is None
                },
                Err(e) => {
                    &&& from@.len() != amounts@.len()
                    &&& e == (DisperseError::LengthMismatch {
                        addresses: from@.len() as usize,
                        amounts: amounts@.len() as usize,
                    })
                },
            },
    {
        if from.len() != amounts.len() {
            return Err(DisperseError::LengthMismatch {
                addresses: from.len(),
                amounts: amounts.len(),
            });
        }
        let s = CollectSession {
            token,
            from,
            to,
            amounts,
            hashes: Vec::new(),
            next_index: 0,
            submitting: false,
            failed: None,
        };
        proof {
            assert(s@.hashes =~= Seq::<TxHash>::empty());
        }
        Ok(s)
    }

    /// The token under collection, or `None` for the native coin: it
    /// decides which balance the caller must observe.
    pub fn token(&self) -> (r: Option<Address>)
        ensures
            r == self@.token,
    {
        self.token
    }

    /// The address whose balance must be observed next, while a pair is
    /// left and the run has neither failed nor handed out a transfer.
    pub fn next_query(&self) -> (r: Option<Address>)
        requires
            self.wf(),
        ensures
            match r {
                Some(a) => self.is_checking() && a == self@.from[self@.next_index],
                None => !self.is_checking(),
            },
    {
        if self.failed.is_none() && !self.submitting && self.next_index < self.from.len() {
            Some(self.from[self.next_index])
        } else {
            None
        }
    }

    /// Feeds the observed balance of the current source address into the
    /// run. A balance below the requested amount aborts the whole run
    /// immediately — the error names that source address, and the hashes
    /// recorded so far stay exactly those of the earlier pairs. Otherwise
    /// the transfer for this pair is handed out for submission.
    pub fn report_balance(&mut self, balance: u128) -> (r: Result<TransferRequest, DisperseError>)
        requires
            old(self).wf(),
            old(self).is_checking(),
        ensures
            final(self).wf(),
            final(self)@.token == old(self)@.token,
            final(self)@.from == old(self)@.from,
            final(self)@.to == old(self)@.to,
            final(self)@.amounts == old(self)@.amounts,
            final(self)@.hashes == old(self)@.hashes,
            final(self)@.next_index == old(self)@.next_index,
            match r {
                Ok(t) => {
                    &&& balance >= old(self)@.amounts[old(self)@.next_index]
                    &&& t == (TransferRequest {
                        from: old(self)@.from[old(self)@.next_index],
                        to: old(self)@.to,
                        value: old(self)@.amounts[old(self)@.next_index],
                    })
                    &&& final(self).is_submitting()
                },
                Err(e) => {
                    &&& balance < old(self)@.amounts[old(self)@.next_index]
                    &&& e == (DisperseError::InsufficientBalance {
                        address: old(self)@.from[old(self)@.next_index],
                    })
                    &&& final(self).is_failed()
                    &&& !final(self)@.submitting
                },
            },
    {
        let amount = self.amounts[self.next_index];
        let source = self.from[self.next_index];
        if balance < amount {
            self.failed = Some(source);
            Err(DisperseError::InsufficientBalance { address: source })
        } else {
            self.submitting = true;
            Ok(TransferRequest { from: source, to: self.to, value: amount })
        }
    }

    /// Records the hash of the transfer that was just submitted and moves
    /// on to the next pair. The hash list grows by exactly this hash, in
    /// pair order.
    pub fn report_submitted(&mut self, hash: TxHash)
        requires
            old(self).wf(),
            old(self).is_submitting(),
        ensures
            final(self).wf(),
            final(self)@.token == old(self)@.token,
            final(self)@.from == old(self)@.from,
            final(self)@.to == old(self)@.to,
            final(self)@.amounts == old(self)@.amounts,
            final(self)@.hashes == old(self)@.hashes.push(hash),
            final(self)@.next_index == old(self)@.next_index + 1,
            !final(self)@.submitting,
            final(self)@.failed is None,
    {
        let n = self.from.len();
        proof {
            // next_index < n, so the increment stays within usize
            assert(self.next_index < n);
        }
        self.hashes.push(hash);
        self.next_index = self.next_index + 1;
        self.submitting = false;
    }

    /// True exactly when every pair has been processed and submitted.
    pub fn done(&self) -> (r: bool)
        ensures
            r == self.is_done(),
    {
        self.failed.is_none() && !self.submitting && self.next_index == self.from.len()
    }

    /// The hashes recorded so far, one per completed pair, in pair order.
    pub fn submitted_hashes(&self) -> (r: &Vec<TxHash>)
        ensures
            r@ == self@.hashes,
    {
        &self.hashes
    }

    /// Consumes a completed run and returns the full ordered hash list:
    /// one hash per source address, in input order. Only a run in which
    /// every pair succeeded can be finished.
    pub fn finish(self) -> (r: Vec<TxHash>)
        requires
            self.wf(),
            self.is_done(),
        ensures
            r@ == self@.hashes,
            r@.len() == self@.from.len(),
    {
        let CollectSession { hashes, .. } = self;
        hashes
    }
}

/// Fail-fast, stated once for every reachable state: a collection run
/// that was aborted by an insufficient balance has recorded hashes for
/// exactly the pairs before the failing one — none at or after it — and
/// the failing source address is the one the error named.
pub proof fn lemma_fail_fast_prefix(s: CollectSession)
    requires
        s.wf(),
        s.is_failed(),
    ensures
        s@.next_index < s@.from.len(),
        s@.failed == Some(s@.from[s@.next_index]),
        s@.hashes.len() == s@.next_index,
{
}

} // verus!
