use disperse_collect::collect::CollectSession;
use disperse_collect::disperse::{ApprovalRequest, DisperseRequest};
use disperse_collect::errors::{ApiError, DisperseError};
use disperse_collect::response::{hash_to_hex, DisperseResponse};
use disperse_collect::types::{Address, TransferRequest, TxHash};
use ethers::types::H256;

fn addr(n: u128) -> Address {
    Address { hi: 0, lo: n }
}

fn hash(n: u128) -> TxHash {
    TxHash { hi: 0, lo: n }
}

#[test]
fn collect_aborts_at_first_insufficient_balance() {
    let a = addr(1);
    let b = addr(2);
    let c = addr(3);
    let mut session = CollectSession::new(vec![a, b], c, vec![100, 100]).unwrap();

    assert_eq!(session.next_query(), Some(a));
    let transfer = session.report_balance(100).unwrap();
    assert_eq!(transfer, TransferRequest { from: a, to: c, value: 100 });
    session.report_submitted(hash(11));

    assert_eq!(session.next_query(), Some(b));
    let err = session.report_balance(50).unwrap_err();
    assert_eq!(err, DisperseError::InsufficientBalance { address: b });

    // the first transfer stays submitted; nothing was submitted for the
    // failing pair or any later one
    assert_eq!(session.submitted_hashes(), &vec![hash(11)]);
    assert_eq!(session.next_query(), None);
    assert!(!session.done());
}

#[test]
fn collect_returns_all_hashes_in_pair_order() {
    let sources = vec![addr(1), addr(2), addr(3)];
    let dest = addr(9);
    let mut session = CollectSession::new(sources, dest, vec![5, 6, 7]).unwrap();

    let mut n: u128 = 0;
    while let Some(_source) = session.next_query() {
        let transfer = session.report_balance(1000).unwrap();
        assert_eq!(transfer.to, dest);
        session.report_submitted(hash(100 + n));
        n += 1;
    }
    assert!(session.done());
    let hashes = session.finish();
    assert_eq!(hashes, vec![hash(100), hash(101), hash(102)]);
}

#[test]
fn collect_exact_balance_is_sufficient() {
    let mut session = CollectSession::new(vec![addr(1)], addr(2), vec![42]).unwrap();
    session.next_query().unwrap();
    let transfer = session.report_balance(42).unwrap();
    assert_eq!(transfer.value, 42);
}

#[test]
fn collect_rejects_mismatched_lengths_before_any_query() {
    let r = CollectSession::new(vec![addr(1), addr(2)], addr(3), vec![100]);
    assert_eq!(
        r.unwrap_err(),
        DisperseError::LengthMismatch { addresses: 2, amounts: 1 }
    );
}

#[test]
fn collect_token_carries_the_token() {
    let token = addr(77);
    let session =
        CollectSession::new_token(token, vec![addr(1)], addr(2), vec![10]).unwrap();
    assert_eq!(session.token(), Some(token));
}

#[test]
fn collect_of_no_pairs_is_immediately_done() {
    let session = CollectSession::new(vec![], addr(1), vec![]).unwrap();
    assert!(session.done());
    assert_eq!(session.finish(), vec![]);
}

#[test]
fn disperse_native_totals_the_amounts() {
    let d = DisperseRequest::new_native(vec![addr(1), addr(2)], vec![30, 12]).unwrap();
    assert_eq!(d.total, 42);
    assert_eq!(d.token, None);
}

#[test]
fn disperse_rejects_mismatched_lengths() {
    let r = DisperseRequest::new_native(vec![addr(1), addr(2)], vec![30]);
    assert_eq!(
        r.unwrap_err(),
        DisperseError::LengthMismatch { addresses: 2, amounts: 1 }
    );
}

#[test]
fn disperse_rejects_empty_recipients() {
    let r = DisperseRequest::new_native(vec![], vec![]);
    assert_eq!(r.unwrap_err(), DisperseError::EmptyRecipients);
}

#[test]
fn disperse_rejects_unrepresentable_total() {
    let r = DisperseRequest::new_native(vec![addr(1), addr(2)], vec![u128::MAX, 1]);
    assert_eq!(r.unwrap_err(), DisperseError::AmountOverflow);
}

#[test]
fn disperse_token_carries_the_token() {
    let token = addr(5);
    let d = DisperseRequest::new_token(token, vec![addr(1)], vec![7]).unwrap();
    assert_eq!(d.token, Some(token));
    assert_eq!(d.total, 7);
}

#[test]
fn disperse_by_percentage_splits_the_total() {
    let d = DisperseRequest::new_native_by_percentage(
        vec![addr(1), addr(2), addr(3)],
        vec![5000, 3000, 2000],
        1000,
    )
    .unwrap();
    assert_eq!(d.amounts, vec![500, 300, 200]);
    assert_eq!(d.total, 1000);
}

#[test]
fn disperse_by_percentage_rejects_bad_sum() {
    let r = DisperseRequest::new_native_by_percentage(
        vec![addr(1), addr(2)],
        vec![5000, 4999],
        1000,
    );
    assert_eq!(r.unwrap_err(), DisperseError::InvalidSplit { observed: 9999 });
}

#[test]
fn disperse_token_by_percentage_keeps_the_shortfall_bounded() {
    let d = DisperseRequest::new_token_by_percentage(
        addr(9),
        vec![addr(1), addr(2), addr(3)],
        vec![3334, 3333, 3333],
        1001,
    )
    .unwrap();
    assert_eq!(d.amounts, vec![333, 333, 333]);
    assert_eq!(d.total, 999);
}

#[test]
fn approve_keeps_its_arguments() {
    let a = ApprovalRequest::approve(addr(1), addr(2), 55);
    assert_eq!(a.token, addr(1));
    assert_eq!(a.spender, addr(2));
    assert_eq!(a.amount, 55);
}

#[test]
fn revoke_is_approval_of_zero() {
    let a = ApprovalRequest::revoke(addr(1), addr(2));
    assert_eq!(a.amount, 0);
}

#[test]
fn hash_renders_as_padded_lowercase_hex() {
    let h = TxHash { hi: 0, lo: 0xdeadbeef };
    let s = hash_to_hex(&h);
    assert_eq!(s.len(), 66);
    assert_eq!(
        s,
        format!("0x{}{}", "0".repeat(56), "deadbeef")
    );
}

#[test]
fn hash_renders_both_halves() {
    let h = TxHash { hi: 0x0123456789abcdef0123456789abcdef, lo: u128::MAX };
    let s = hash_to_hex(&h);
    assert_eq!(
        s,
        format!("0x{}{}", "0123456789abcdef0123456789abcdef", "f".repeat(32))
    );
}

#[test]
fn response_carries_the_rendered_hash() {
    let r = DisperseResponse::from_hash(&TxHash { hi: 0, lo: 1 });
    assert_eq!(r.tx_hash, format!("0x{}1", "0".repeat(63)));
}

#[test]
fn messages_are_uniform_and_human_readable() {
    assert_eq!(
        DisperseError::InvalidSplit { observed: 9999 }.message(),
        "Percentages must sum to 100.00%"
    );
    assert_eq!(
        DisperseError::LengthMismatch { addresses: 2, amounts: 1 }.message(),
        "Address and amount arrays must have same length"
    );
    assert_eq!(
        DisperseError::EmptyRecipients.message(),
        "No source addresses provided"
    );
    assert_eq!(DisperseError::ZeroAmount.message(), "Amount cannot be zero");
    assert_eq!(
        DisperseError::AmountOverflow.message(),
        "Total amount is too large"
    );
}

#[test]
fn insufficient_balance_message_names_the_address() {
    let e = DisperseError::InsufficientBalance {
        address: Address { hi: 0x01020304, lo: 0xff },
    };
    assert_eq!(
        e.message(),
        format!("Insufficient balance for address: 0x01020304{}ff", "0".repeat(30))
    );
}

#[test]
fn api_error_carries_the_flattened_message() {
    let api = ApiError::from_error(&DisperseError::ZeroAmount);
    let ApiError::InternalError(m) = api;
    assert_eq!(m, "Amount cannot be zero");
}

#[test]
fn hash_hex_matches_the_wire_format() {
    let mut bytes = [0u8; 32];
    for (i, b) in bytes.iter_mut().enumerate() {
        *b = (7 * i + 3) as u8;
    }
    let mut hi = [0u8; 16];
    hi.copy_from_slice(&bytes[0..16]);
    let mut lo = [0u8; 16];
    lo.copy_from_slice(&bytes[16..32]);
    let ours = hash_to_hex(&TxHash {
        hi: u128::from_be_bytes(hi),
        lo: u128::from_be_bytes(lo),
    });
    assert_eq!(ours, format!("0x{:x}", H256::from(bytes)));
}
