use disperse_collect::errors::DisperseError;
use disperse_collect::split::{calculate_amounts, equal_shares};
use ethers::types::U256;

#[test]
fn split_exact_no_shortfall() {
    let r = calculate_amounts(1000, &vec![5000, 3000, 2000]);
    assert_eq!(r, Ok(vec![500, 300, 200]));
    let amounts = r.unwrap();
    let sum: u128 = amounts.iter().sum();
    assert_eq!(sum, 1000);
}

#[test]
fn split_truncates_without_redistribution() {
    let r = calculate_amounts(1001, &vec![3334, 3333, 3333]);
    assert_eq!(r, Ok(vec![333, 333, 333]));
    let amounts = r.unwrap();
    let sum: u128 = amounts.iter().sum();
    assert_eq!(sum, 999);
    assert_eq!(1001 - sum, 2);
}

#[test]
fn split_rejects_sum_below_full() {
    let r = calculate_amounts(1000, &vec![5000, 3000, 1999]);
    assert_eq!(r, Err(DisperseError::InvalidSplit { observed: 9999 }));
}

#[test]
fn split_rejects_sum_above_full() {
    let r = calculate_amounts(1000, &vec![5000, 3000, 2001]);
    assert_eq!(r, Err(DisperseError::InvalidSplit { observed: 10001 }));
}

#[test]
fn split_rejects_empty_percentages() {
    let r = calculate_amounts(1000, &vec![]);
    assert_eq!(r, Err(DisperseError::InvalidSplit { observed: 0 }));
}

#[test]
fn split_shortfall_stays_below_count() {
    let percentages = vec![1, 1, 1, 1, 9996];
    let total: u128 = 999_999;
    let amounts = calculate_amounts(total, &percentages).unwrap();
    let sum: u128 = amounts.iter().sum();
    assert!(sum <= total);
    assert!(total - sum < percentages.len() as u128);
}

#[test]
fn split_handles_totals_beyond_64_bits() {
    let total: u128 = u128::MAX;
    let amounts = calculate_amounts(total, &vec![5000, 5000]).unwrap();
    let expected = u128::MAX / 2;
    assert_eq!(amounts, vec![expected, expected]);
}

#[test]
fn equal_shares_divides_evenly() {
    let r = equal_shares(100, 4);
    assert_eq!(r, Ok(vec![25, 25, 25, 25]));
}

#[test]
fn equal_shares_floors_the_share() {
    let r = equal_shares(100, 3);
    assert_eq!(r, Ok(vec![33, 33, 33]));
}

#[test]
fn equal_shares_rejects_zero_amount() {
    assert_eq!(equal_shares(0, 3), Err(DisperseError::ZeroAmount));
}

#[test]
fn equal_shares_rejects_no_addresses() {
    assert_eq!(equal_shares(100, 0), Err(DisperseError::EmptyRecipients));
}

#[test]
fn split_matches_256_bit_reference_arithmetic() {
    let total: u128 = u128::MAX - 12345;
    let percentages: Vec<u64> = vec![1, 9999];
    let amounts = calculate_amounts(total, &percentages).unwrap();
    for (a, p) in amounts.iter().zip(percentages.iter()) {
        let expected = (U256::from(total) * U256::from(*p)) / U256::from(10000u32);
        assert_eq!(U256::from(*a), expected);
    }
}
