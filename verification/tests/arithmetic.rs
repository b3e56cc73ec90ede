use cep78_royalty::arithmetic::U256;
use cep78_royalty::arithmetic::compute_royalty;
use cep78_royalty::decimal::bool_to_dec;
use cep78_royalty::decimal::u64_to_dec;

#[test]
fn royalty_matches_the_documented_examples() {
    let price = U256::from_u64(500_000_000_000);
    assert_eq!(compute_royalty(500, price), U256::from_u64(25_000_000_000));
    assert_eq!(compute_royalty(700, price), U256::from_u64(35_000_000_000));
}

#[test]
fn zero_fee_pays_nothing() {
    let price = U256::from_u64(500_000_000_000);
    assert_eq!(compute_royalty(0, price), U256::from_u64(0));
}

#[test]
fn full_fee_pays_the_whole_price() {
    let price = U256::from_limbs(
        0xffffffffffffffff,
        0xffffffffffffffff,
        0xffffffffffffffff,
        0xffffffffffffffff,
    );
    assert_eq!(compute_royalty(10000, price), price);
}

#[test]
fn division_truncates_toward_zero() {
    assert_eq!(compute_royalty(1, U256::from_u64(19_999)), U256::from_u64(1));
    assert_eq!(compute_royalty(1, U256::from_u64(9_999)), U256::from_u64(0));
    assert_eq!(compute_royalty(3333, U256::from_u64(10)), U256::from_u64(3));
}

#[test]
fn wide_intermediate_carries_across_limbs() {
    // Half of 2^192 is 2^191, which sits in the third limb.
    let price = U256::from_limbs(0, 0, 0, 1);
    assert_eq!(
        compute_royalty(5000, price),
        U256::from_limbs(0, 0, 0x8000000000000000, 0)
    );
}

#[test]
fn decimal_formatting_is_exact() {
    assert_eq!(u64_to_dec(0), "0");
    assert_eq!(u64_to_dec(7), "7");
    assert_eq!(u64_to_dec(1_234_567_890), "1234567890");
    assert_eq!(u64_to_dec(18_446_744_073_709_551_615), "18446744073709551615");
    assert_eq!(bool_to_dec(true), "true");
    assert_eq!(bool_to_dec(false), "false");
}
