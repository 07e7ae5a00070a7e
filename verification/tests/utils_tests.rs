use std::str::FromStr;

use anchor_leverage::error::ContractError;
use anchor_leverage::uint256::Uint256;
use anchor_leverage::utils::{
    calculate_borrow, continue_loop, get_opposite_ratio, possible_borrow, swap_after_slippage,
    Decimal, BORROW_LTV_PERCENTAGE, DECIMAL_FRACTIONAL,
};

fn decimal(text: &str) -> Decimal {
    let parsed = cosmwasm_std::Decimal::from_str(text).unwrap();
    Decimal::new((parsed * cosmwasm_std::Uint128(DECIMAL_FRACTIONAL)).u128())
}

fn outside(amount: Uint256) -> cosmwasm_bignumber::Uint256 {
    cosmwasm_bignumber::Uint256(bigint::U256(amount.limbs))
}

#[test]
fn test_opposite_ratio() {
    assert_eq!(
        get_opposite_ratio(decimal("0.999834039454456203")),
        decimal("1.000165988093018268")
    );
    assert_eq!(
        get_opposite_ratio(decimal("1.000165988093018268")),
        decimal("0.999834039454456203")
    );
    assert_eq!(get_opposite_ratio(decimal("1")), decimal("1"));
}

#[test]
fn test_calculate_borrow() {
    assert_eq!(
        calculate_borrow(
            Uint256::from(16511228606u128),
            Uint256::from(8394109000u128)
        ),
        Uint256::from(3163751024u128)
    );
}

#[test]
fn opposite_ratio_agrees_with_the_decimal_it_stands_for() {
    let rate = cosmwasm_std::Decimal::from_str("0.999834039454456203").unwrap();
    let expected = cosmwasm_std::Decimal::from_ratio(
        DECIMAL_FRACTIONAL,
        rate * cosmwasm_std::Uint128(DECIMAL_FRACTIONAL),
    );
    let ours = get_opposite_ratio(decimal("0.999834039454456203"));
    assert_eq!(
        ours.atomics,
        (expected * cosmwasm_std::Uint128(DECIMAL_FRACTIONAL)).u128()
    );
}

#[test]
fn opposite_ratio_exact_values() {
    assert_eq!(get_opposite_ratio(Decimal::one()), Decimal::one());
    assert_eq!(
        get_opposite_ratio(Decimal::new(2 * DECIMAL_FRACTIONAL)).atomics,
        500_000_000_000_000_000
    );
    assert_eq!(
        get_opposite_ratio(Decimal::new(3 * DECIMAL_FRACTIONAL)).atomics,
        333_333_333_333_333_333
    );
    assert_eq!(
        get_opposite_ratio(Decimal::new(1)).atomics,
        1_000_000_000_000_000_000_000_000_000_000_000_000
    );
}

#[test]
fn opposite_ratio_round_trip_is_exact_up_to_one() {
    for atomics in [
        1u128,
        7,
        123_456_789,
        999_834_039_454_456_203,
        999_999_999_999_999_999,
        DECIMAL_FRACTIONAL,
    ] {
        let there = get_opposite_ratio(Decimal::new(atomics));
        let back = get_opposite_ratio(there);
        assert_eq!(back.atomics, atomics);
    }
}

#[test]
fn opposite_ratio_round_trip_never_falls_below() {
    let squared: u128 = 1_000_000_000_000_000_000_000_000_000_000_000_000;
    for atomics in [
        DECIMAL_FRACTIONAL + 1,
        1_000_165_988_093_018_268,
        300_000_000_000_000_000_001,
        77_777_777_777_777_777_777_777,
    ] {
        let back = get_opposite_ratio(get_opposite_ratio(Decimal::new(atomics))).atomics;
        assert!(back >= atomics);
        let excess = cosmwasm_bignumber::Uint256::from(back - atomics)
            * cosmwasm_bignumber::Uint256::from(squared - atomics + 1);
        let bound = cosmwasm_bignumber::Uint256::from(atomics)
            * cosmwasm_bignumber::Uint256::from(atomics - 1);
        assert!(excess <= bound);
    }
}

#[test]
fn possible_borrow_reference_case() {
    assert_eq!(
        possible_borrow(
            &Uint256::from(16511228606u128),
            &Uint256::from(8394109000u128),
            70
        ),
        Ok(Uint256::from(3163751024u128))
    );
    assert_eq!(BORROW_LTV_PERCENTAGE, 70);
}

#[test]
fn possible_borrow_agrees_with_the_outside_arithmetic() {
    let limit = Uint256::from(16511228606u128);
    let borrowed = Uint256::from(8394109000u128);
    let expected = outside(limit) * cosmwasm_bignumber::Decimal256::percent(70) - outside(borrowed);
    assert_eq!(
        outside(possible_borrow(&limit, &borrowed, 70).unwrap()),
        expected
    );
}

#[test]
fn possible_borrow_at_the_edge_of_the_capped_limit() {
    let limit = Uint256::from(1000u128);
    assert_eq!(
        possible_borrow(&limit, &Uint256::from(700u128), 70),
        Ok(Uint256::zero())
    );
    assert_eq!(
        possible_borrow(&limit, &Uint256::from(699u128), 70),
        Ok(Uint256::from(1u128))
    );
    assert_eq!(
        possible_borrow(&limit, &Uint256::from(701u128), 70),
        Err(ContractError::Underflow)
    );
}

#[test]
fn possible_borrow_rounds_the_capped_limit_down() {
    assert_eq!(
        possible_borrow(&Uint256::from(999u128), &Uint256::zero(), 70),
        Ok(Uint256::from(699u128))
    );
    assert_eq!(
        possible_borrow(&Uint256::from(1u128), &Uint256::zero(), 70),
        Ok(Uint256::zero())
    );
    assert_eq!(
        possible_borrow(&Uint256::from(1u128), &Uint256::from(1u128), 70),
        Err(ContractError::Underflow)
    );
}

#[test]
fn possible_borrow_of_the_largest_limit() {
    let largest = Uint256::from_limbs([u64::MAX; 4]);
    assert_eq!(
        possible_borrow(&largest, &Uint256::zero(), 70),
        Ok(Uint256::from_limbs([
            3689348814741910322,
            3689348814741910323,
            3689348814741910323,
            12912720851596686131
        ]))
    );
    assert_eq!(
        possible_borrow(&largest, &Uint256::zero(), 100),
        Ok(largest)
    );
    assert_eq!(
        possible_borrow(&largest, &Uint256::zero(), 101),
        Err(ContractError::Overflow)
    );
    assert_eq!(
        possible_borrow(&largest, &largest, 70),
        Err(ContractError::Underflow)
    );
}

#[test]
fn swap_after_slippage_exact_values() {
    assert_eq!(swap_after_slippage(0), 0);
    assert_eq!(swap_after_slippage(1), 0);
    assert_eq!(swap_after_slippage(1000), 998);
    assert_eq!(swap_after_slippage(1001), 998);
    assert_eq!(swap_after_slippage(1002), 999);
    assert_eq!(swap_after_slippage(3163751024), 3157423521);
    assert_eq!(
        swap_after_slippage(u128::MAX),
        339601802187096586536447858216904675032
    );
}

#[test]
fn swap_after_slippage_agrees_with_the_outside_arithmetic() {
    for amount in [0u128, 1, 999, 1000, 10_020_041, 123_456_789_012_345_678_901] {
        let expected: u128 = (cosmwasm_bignumber::Uint256::from(amount)
            * cosmwasm_bignumber::Decimal256::from_ratio(998, 1000))
        .into();
        assert_eq!(swap_after_slippage(amount), expected);
    }
}

#[test]
fn swap_after_slippage_never_adds() {
    for amount in [0u128, 1, 2, 500, 501, 1000, 10_000_000, u128::MAX] {
        let offer = swap_after_slippage(amount);
        assert!(offer <= amount);
        assert_eq!(offer == amount, amount == 0);
    }
}

#[test]
fn continue_loop_is_strict() {
    assert!(!continue_loop(10_000_000, 10_000_000));
    assert!(continue_loop(10_000_001, 10_000_000));
    assert!(!continue_loop(9_999_999, 10_000_000));
    assert!(!continue_loop(0, 0));
    assert!(continue_loop(u128::MAX, 0));
}

#[test]
fn uint256_from_u128_and_back() {
    for value in [0u128, 1, u64::MAX as u128, u64::MAX as u128 + 1, u128::MAX] {
        let amount = Uint256::from_u128(value);
        assert_eq!(amount, Uint256::from(value));
        assert_eq!(amount.to_u128(), Some(value));
        assert_eq!(outside(amount), cosmwasm_bignumber::Uint256::from(value));
    }
    assert_eq!(Uint256::from_limbs([0, 0, 1, 0]).to_u128(), None);
    assert_eq!(Uint256::from_limbs([5, 0, 0, 1]).to_u128(), None);
    assert_eq!(Uint256::zero(), Uint256::from_limbs([0, 0, 0, 0]));
}

#[test]
fn uint256_order_and_difference() {
    let small = Uint256::from_limbs([u64::MAX, 0, 0, 0]);
    let large = Uint256::from_limbs([0, 1, 0, 0]);
    assert!(small.lt(&large));
    assert!(!large.lt(&small));
    assert!(!large.lt(&large));
    assert_eq!(large.checked_sub(&small), Some(Uint256::from(1u128)));
    assert_eq!(small.checked_sub(&large), None);
    assert_eq!(large.checked_sub(&large), Some(Uint256::zero()));
    let top = Uint256::from_limbs([0, 0, 0, 1]);
    assert_eq!(
        top.checked_sub(&Uint256::from(1u128)),
        Some(Uint256::from_limbs([u64::MAX, u64::MAX, u64::MAX, 0]))
    );
}

#[test]
fn uint256_percent_of() {
    assert_eq!(
        Uint256::from(16511228606u128).percent_of(70),
        Some(Uint256::from(11557860024u128))
    );
    assert_eq!(Uint256::from(u128::MAX).percent_of(0), Some(Uint256::zero()));
    assert_eq!(
        Uint256::from(u128::MAX).percent_of(200),
        Some(Uint256::from_limbs([u64::MAX - 1, u64::MAX, 1, 0]))
    );
    assert_eq!(Uint256::from_limbs([0, 0, 0, 1 << 63]).percent_of(200), None);
    assert_eq!(
        Uint256::from_limbs([0, 0, 0, 1 << 62]).percent_of(200),
        Some(Uint256::from_limbs([0, 0, 0, 1 << 63]))
    );
}
