//! The success envelope reported to HTTP callers, and the verified
//! rendering of a transaction hash as a hexadecimal string.

use vstd::prelude::*;
use vstd::string::StringExecFns;
use crate::errors::ApiError;
use crate::hex::{hex_digits_of, lemma_hex_digits_len, push_hex};
use crate::types::TxHash;

verus! {

/// A 32-byte transaction hash rendered as `0x` followed by its 64
/// lowercase hexadecimal digits, zero-padded, most significant first.
pub open spec fn hash_hex(h: TxHash) -> Seq<char> {
    seq!['0', 'x'] + hex_digits_of(h.hi as int, 32) + hex_digits_of(h.lo as int, 32)
}

/// Renders a transaction hash as `0x` plus 64 lowercase, zero-padded
/// hexadecimal digits: the shape every submission endpoint reports.
pub fn hash_to_hex(h: &TxHash) -> (r: String)
    ensures
        r@ == hash_hex(*h),
        r@.len() == 66,
{
    let mut s = String::new();
    s.append("0x");
    push_hex(&mut s, h.hi, 32);
    push_hex(&mut s, h.lo, 32);
    proof {
        reveal_strlit("0x");
        assert(s@ =~= hash_hex(*h));
        lemma_hex_digits_len(h.hi as int, 32);
        lemma_hex_digits_len(h.lo as int, 32);
    }
    s
}

/// The success payload of every endpoint: the submitted transaction's
/// hash, already rendered for the response body.
pub struct DisperseResponse {
    pub tx_hash: String,
}

impl DisperseResponse {
    /// Builds the payload for one submitted transaction.
    pub fn from_hash(h: &TxHash) -> (r: DisperseResponse)
        ensures
            r.tx_hash@ == hash_hex(*h),
    {
        DisperseResponse { tx_hash: hash_to_hex(h) }
    }
}

/// The uniform response envelope: a success payload or a flattened error.
pub enum ApiResponse {
    Success(DisperseResponse),
    Error(ApiError),
}

} // verus!
