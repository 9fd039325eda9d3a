//! Error taxonomy of the service, and its flattening into the uniform
//! message that failure responses carry.

use vstd::prelude::*;
use vstd::string::StringExecFns;
use crate::hex::{hex_digits_of, push_hex};
use crate::types::Address;

verus! {

/// Everything that can go wrong while validating or executing a dispersal
/// or collection request, short of the transport layer itself failing.
///
/// Validation failures (`InvalidSplit`, `LengthMismatch`, `EmptyRecipients`,
/// `ZeroAmount`, `AmountOverflow`) are detected before any network call is
/// attempted. `InsufficientBalance` aborts a collection run at the first
/// source address whose balance cannot cover its requested amount.
#[derive(Clone, Copy, Debug, PartialEq, Eq, Structural)]
pub enum DisperseError {
    /// The basis-point percentages of a split do not sum to exactly 10000
    /// (100.00%); `observed` is the sum that was seen instead.
    InvalidSplit { observed: u128 },
    /// A multi-recipient operation was given address and amount lists of
    /// different lengths.
    LengthMismatch { addresses: usize, amounts: usize },
    /// A multi-recipient operation was given no recipients at all.
    EmptyRecipients,
    /// A collection request asked to move a total of zero base units.
    ZeroAmount,
    /// The sum of the requested amounts does not fit in 128 bits.
    AmountOverflow,
    /// The named source address holds less than the amount requested from
    /// it, so the collection run stopped there.
    InsufficientBalance { address: Address },
}

/// A 20-byte address rendered as `0x` followed by its 40 lowercase
/// hexadecimal digits, zero-padded, most significant first.
pub open spec fn address_hex(a: Address) -> Seq<char> {
    seq!['0', 'x'] + hex_digits_of(a.hi as int, 8) + hex_digits_of(a.lo as int, 32)
}

/// The human-readable message each error is flattened to at the service
/// boundary. Only an insufficient balance names data from the request:
/// the source address that could not cover its amount.
pub open spec fn message_of(e: DisperseError) -> Seq<char> {
    match e {
        DisperseError::InvalidSplit { .. } => "Percentages must sum to 100.00%"@,
        DisperseError::LengthMismatch { .. } => "Address and amount arrays must have same length"@,
        DisperseError::EmptyRecipients => "No source addresses provided"@,
        DisperseError::ZeroAmount => "Amount cannot be zero"@,
        DisperseError::AmountOverflow => "Total amount is too large"@,
        DisperseError::InsufficientBalance { address } => "Insufficient balance for address: "@
            + address_hex(address),
    }
}

impl DisperseError {
    /// Renders the uniform human-readable message for this error.
    pub fn message(&self) -> (r: String)
        ensures
            r@ == message_of(*self),
    {
        match *self {
            DisperseError::InvalidSplit { .. } => String::from_str(
                "Percentages must sum to 100.00%",
            ),
            DisperseError::LengthMismatch { .. } => String::from_str(
                "Address and amount arrays must have same length",
            ),
            DisperseError::EmptyRecipients => String::from_str("No source addresses provided"),
            DisperseError::ZeroAmount => String::from_str("Amount cannot be zero"),
            DisperseError::AmountOverflow => String::from_str("Total amount is too large"),
            DisperseError::InsufficientBalance { address } => {
                let mut s = String::from_str("Insufficient balance for address: ");
                s.append("0x");
                push_hex(&mut s, address.hi as u128, 8);
                push_hex(&mut s, address.lo, 32);
                proof {
                    reveal_strlit("0x");
                    assert(s@ =~= message_of(*self));
                }
                s
            },
        }
    }
}

/// The uniform failure envelope reported to HTTP callers: every error is
/// flattened to a human-readable message at the service boundary.
pub enum ApiError {
    InternalError(String),
}

impl ApiError {
    /// Flattens a library error into the failure envelope, carrying
    /// exactly its uniform message.
    pub fn from_error(e: &DisperseError) -> (r: ApiError)
        ensures
            r matches ApiError::InternalError(m) && m@ == message_of(*e),
    {
        ApiError::InternalError(e.message())
    }
}

} // verus!
