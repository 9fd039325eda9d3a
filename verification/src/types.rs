//! Plain-value models of the on-chain identifiers and of the transaction
//! requests this service constructs.

use vstd::prelude::*;

verus! {

/// A 20-byte chain account or contract identifier, held as 160 bits of
/// plain integer data (4 high bytes and 16 low bytes). The service never
/// interprets an address beyond equality and formatting.
#[derive(Clone, Copy, Debug, PartialEq, Eq, Structural)]
pub struct Address {
    pub hi: u32,
    pub lo: u128,
}

/// A 32-byte transaction identifier returned by the network on submission,
/// held as 256 bits of plain integer data. It is only reported back to
/// callers, never dereferenced.
#[derive(Clone, Copy, Debug, PartialEq, Eq, Structural)]
pub struct TxHash {
    pub hi: u128,
    pub lo: u128,
}

/// A single value transfer to be signed and submitted: move `value` base
/// units from `from` to `to`. For a token collection step the token
/// contract performs the move on these same three arguments.
#[derive(Clone, Copy, Debug, PartialEq, Eq, Structural)]
pub struct TransferRequest {
    pub from: Address,
    pub to: Address,
    pub value: u128,
}

} // verus!
