use vstd::prelude::*;
use crate::error::ContractError;
use crate::uint256::{uint256_bound, Uint256};

verus! {

/// The atomic units in one whole: decimals are fixed-point numbers with 18 fractional digits.
pub const DECIMAL_FRACTIONAL: u128 = 1_000_000_000_000_000_000;

/// The share of the borrow limit, in percent, up to which the controller borrows.
pub const BORROW_LTV_PERCENTAGE: u64 = 70;

/// One whole times one whole, in atomic units: ten to the 36th.
pub open spec fn fractional_squared() -> nat {
    1_000_000_000_000_000_000_000_000_000_000_000_000
}

/// A non-negative fixed-point number with 18 fractional digits, held as its count of
/// atomic units: `Decimal { atomics: 1_500_000_000_000_000_000 }` is 1.5.
#[derive(Clone, Copy, Debug, PartialEq, Eq, Structural)]
pub struct Decimal {
    pub atomics: u128,
}

impl View for Decimal {
    type V = nat;

    open spec fn view(&self) -> nat {
        self.atomics as nat
    }
}

impl Decimal {
    /// The decimal made of `atomics` atomic units.
    pub fn new(atomics: u128) -> (r: Decimal)
        ensures
            r@ == atomics,
    {
        Decimal { atomics }
    }

    /// The decimal 1.
    pub fn one() -> (r: Decimal)
        ensures
            r@ == DECIMAL_FRACTIONAL,
    {
        Decimal { atomics: DECIMAL_FRACTIONAL }
    }
}

/// The multiplicative inverse of a rate, both in atomic units, rounded down to the
/// next atomic unit: ten to the 36th over `atomics`.
pub open spec fn opposite_ratio(atomics: nat) -> nat
    recommends
        atomics > 0,
{
    fractional_squared() / atomics
}

/// The inverse of `ratio`: how much of the one asset a unit of the other is worth,
/// given the rate the other way round.
pub fn get_opposite_ratio(ratio: Decimal) -> (r: Decimal)
    requires
        ratio@ > 0,
    ensures
        r@ == opposite_ratio(ratio@),
{
    Decimal { atomics: 1_000_000_000_000_000_000_000_000_000_000_000_000u128 / ratio.atomics }
}

/// The inverse of 1 is 1.
pub proof fn opposite_ratio_of_one()
    ensures
        opposite_ratio(DECIMAL_FRACTIONAL as nat) == DECIMAL_FRACTIONAL,
{
}

/// Inverting a rate twice gives the rate back up to rounding. For a rate of `a`
/// atomic units, above zero and at most ten to the 36th (so that its inverse is not
/// zero), the round trip never falls below `a`, and what it adds to `a` is at most
/// `a * (a - 1) / (10^36 - a + 1)`: nothing at all for rates up to 1.
pub proof fn opposite_ratio_round_trip(a: nat)
    requires
        0 < a <= fractional_squared(),
    ensures
        opposite_ratio(a) > 0,
        opposite_ratio(opposite_ratio(a)) >= a,
        (opposite_ratio(opposite_ratio(a)) - a) * (fractional_squared() - a + 1) <= a * (a - 1),
        a <= DECIMAL_FRACTIONAL ==> opposite_ratio(opposite_ratio(a)) == a,
{
    let f: int = fractional_squared() as int;
    let a: int = a as int;
    let b: int = f / a;
    let left_a: int = f % a;
    assert(f == a * b + left_a && 0 <= left_a < a) by (nonlinear_arith)
        requires
            0 < a,
            b == f / a,
            left_a == f % a,
    ;
    assert(b >= 1) by (nonlinear_arith)
        requires
            0 < a <= f,
            f == a * b + left_a,
            0 <= left_a < a,
    ;
    let c: int = f / b;
    let left_b: int = f % b;
    assert(f == b * c + left_b && 0 <= left_b < b) by (nonlinear_arith)
        requires
            0 < b,
            c == f / b,
            left_b == f % b,
    ;
    assert(c >= a) by (nonlinear_arith)
        requires
            f == a * b + left_a,
            f == b * c + left_b,
            0 <= left_a,
            left_b < b,
            0 < b,
    ;
    assert((c - a) * (f - a + 1) <= a * (a - 1)) by (nonlinear_arith)
        requires
            f == a * b + left_a,
            f == b * c + left_b,
            left_a < a,
            0 <= left_b,
            0 < a <= c,
            0 < b,
    ;
    if a <= DECIMAL_FRACTIONAL {
        assert(c == a) by (nonlinear_arith)
            requires
                (c - a) * (f - a + 1) <= a * (a - 1),
                c >= a,
                0 < a <= 1_000_000_000_000_000_000,
                f == 1_000_000_000_000_000_000 * 1_000_000_000_000_000_000,
        ;
    }
}

/// The limit capped at a percentage: `limit * ltv_percent / 100`, rounded down.
pub open spec fn capped_limit(limit: nat, ltv_percent: nat) -> nat {
    limit * ltv_percent / 100
}

/// What may still be borrowed: the capped limit less what is borrowed already. An error
/// where the loan exceeds the capped limit, or where a percentage above 100 lifts the
/// capped limit to two to the 256th or beyond.
pub open spec fn possible_borrow_spec(limit: nat, borrowed: nat, ltv_percent: nat) -> Result<
    nat,
    ContractError,
> {
    if capped_limit(limit, ltv_percent) >= uint256_bound() {
        Err(ContractError::Overflow)
    } else if borrowed > capped_limit(limit, ltv_percent) {
        Err(ContractError::Underflow)
    } else {
        Ok((capped_limit(limit, ltv_percent) - borrowed) as nat)
    }
}

/// The amount that can be borrowed on top of `borrowed` under a borrow limit of `limit`,
/// when only `ltv_percent` percent of the limit are to be used.
pub fn possible_borrow(limit: &Uint256, borrowed: &Uint256, ltv_percent: u64) -> (r: Result<
    Uint256,
    ContractError,
>)
    ensures
        match possible_borrow_spec(limit@, borrowed@, ltv_percent as nat) {
            Ok(amount) => r is Ok && r->Ok_0@ == amount,
            Err(e) => r == Err::<Uint256, ContractError>(e),
        },
{
    match limit.percent_of(ltv_percent) {
        None => Err(ContractError::Overflow),
        Some(capped) => match capped.checked_sub(borrowed) {
            None => Err(ContractError::Underflow),
            Some(amount) => Ok(amount),
        },
    }
}

/// The amount that can be borrowed on top of `already_borrowed` when 70 percent of
/// `borrow_limit` are to be used. The loan must not exceed that share.
pub fn calculate_borrow(borrow_limit: Uint256, already_borrowed: Uint256) -> (r: Uint256)
    requires
        already_borrowed@ <= capped_limit(borrow_limit@, BORROW_LTV_PERCENTAGE as nat),
    ensures
        r@ == capped_limit(borrow_limit@, BORROW_LTV_PERCENTAGE as nat) - already_borrowed@,
{
    proof {
        capped_limit_within_limit(borrow_limit@, BORROW_LTV_PERCENTAGE as nat);
    }
    match possible_borrow(&borrow_limit, &already_borrowed, BORROW_LTV_PERCENTAGE) {
        Ok(amount) => amount,
        Err(_) => Uint256::zero(),
    }
}

/// A percentage of at most 100 never lifts an amount: the capped limit is then at most
/// the limit.
pub proof fn capped_limit_within_limit(limit: nat, ltv_percent: nat)
    requires
        ltv_percent <= 100,
    ensures
        capped_limit(limit, ltv_percent) <= limit,
{
    assert(limit * ltv_percent <= limit * 100) by (nonlinear_arith)
        requires
            ltv_percent <= 100,
    ;
}

/// What is left of `amount` after the buffer against slippage of two per mille:
/// `amount * 998 / 1000`, rounded down.
pub open spec fn after_slippage(amount: nat) -> nat {
    amount * 998 / 1000
}

/// The buffer never adds to an amount, and leaves only zero as it is.
pub proof fn slippage_takes_off(amount: nat)
    ensures
        after_slippage(amount) <= amount,
        (after_slippage(amount) == amount) == (amount == 0),
{
}

/// The amount to offer in a swap when `amount` is at hand: 99.8 percent of it, rounded
/// down. It is never more than `amount`, and equal to it only at zero.
pub fn swap_after_slippage(amount: u128) -> (r: u128)
    ensures
        r == after_slippage(amount as nat),
        r <= amount,
        (r == amount) == (amount == 0),
{
    let whole: u128 = amount / 1000;
    let rest: u128 = amount % 1000;
    whole * 998 + rest * 998 / 1000
}

/// Whether a swap of `swap_amount` is large enough for another round of the cycle:
/// only an amount above the threshold is.
pub fn continue_loop(swap_amount: u128, threshold: u128) -> (go_on: bool)
    ensures
        go_on == (swap_amount > threshold),
{
    swap_amount > threshold
}

} // verus!
