use vstd::prelude::*;
use crate::uint256::Uint256;

verus! {

/// The error type of `cosmwasm_std`, carried through as it comes.
#[verifier::external_type_specification]
#[verifier::external_body]
pub struct ExStdError(cosmwasm_std::StdError);

/// What `cosmwasm_std::to_binary` gives for a `cw20::Cw20HandleMsg::Send` of `amount`
/// tokens to `contract` that carries the custody contract's `DepositCollateral` hook:
/// the bytes of the message, or `None` where the encoder fails.
pub uninterp spec fn deposit_collateral_bytes(contract: Seq<char>, amount: u128) -> Option<Seq<u8>>;

/// What `cosmwasm_std::to_binary` gives for the overseer's `LockCollateral` with the one
/// pair of `collateral` and `amount`.
pub uninterp spec fn lock_collateral_bytes(collateral: Seq<char>, amount: nat) -> Option<Seq<u8>>;

/// What `cosmwasm_std::to_binary` gives for the market's `BorrowStable` of `amount` with no
/// other recipient.
pub uninterp spec fn borrow_stable_bytes(amount: nat) -> Option<Seq<u8>>;

/// What `cosmwasm_std::to_binary` gives for the pair's `Swap` that offers `amount` of the
/// native coin `denom`, with no belief price, no spread limit and no other recipient.
pub uninterp spec fn swap_bytes(amount: u128, denom: Seq<char>) -> Option<Seq<u8>>;

/// The message that sends `amount` of the derivative token to `basset_token_contract` as
/// collateral. Calls `cosmwasm_std::to_binary` on `cw20::Cw20HandleMsg::Send`, whose inner
/// message is `moneymarket::custody::Cw20HookMsg::DepositCollateral`, encoded the same
/// way. Nothing is proved of the bytes: the contract only names them.
#[verifier::external_body]
pub fn deposit_basset_collateral(basset_token_contract: &String, amount: u128) -> (r: Result<
    Vec<u8>,
    cosmwasm_std::StdError,
>)
    ensures
        match r {
            Ok(bytes) => deposit_collateral_bytes(basset_token_contract@, amount) == Some(bytes@),
            Err(_) => deposit_collateral_bytes(basset_token_contract@, amount) is None,
        },
{
    let hook = cosmwasm_std::to_binary(&moneymarket::custody::Cw20HookMsg::DepositCollateral {})?;
    cosmwasm_std::to_binary(
        &cw20::Cw20HandleMsg::Send {
            contract: cosmwasm_std::HumanAddr(basset_token_contract.clone()),
            amount: cosmwasm_std::Uint128(amount),
            msg: Some(hook),
        },
    ).map(|binary| binary.0)
}

/// The message that asks the overseer to lock `amount` of the collateral token at
/// `basset_collateral_contract`. Calls `cosmwasm_std::to_binary` on
/// `moneymarket::overseer::HandleMsg::LockCollateral`. Nothing is proved of the bytes: the
/// contract only names them.
#[verifier::external_body]
pub fn overseer_lock_collateral(basset_collateral_contract: &String, amount: Uint256) -> (r:
    Result<Vec<u8>, cosmwasm_std::StdError>)
    ensures
        match r {
            Ok(bytes) => lock_collateral_bytes(basset_collateral_contract@, amount@) == Some(
                bytes@,
            ),
            Err(_) => lock_collateral_bytes(basset_collateral_contract@, amount@) is None,
        },
{
    cosmwasm_std::to_binary(
        &moneymarket::overseer::HandleMsg::LockCollateral {
            collaterals: vec![
                (
                    cosmwasm_std::HumanAddr(basset_collateral_contract.clone()),
                    cosmwasm_bignumber::Uint256(bigint::U256(amount.limbs)),
                ),
            ],
        },
    ).map(|binary| binary.0)
}

/// The message that asks the market to lend `borrow_amount` of the stable asset to the
/// sender. Calls `cosmwasm_std::to_binary` on `moneymarket::market::HandleMsg::BorrowStable`.
/// Nothing is proved of the bytes: the contract only names them.
#[verifier::external_body]
pub fn anchor_borrow(borrow_amount: Uint256) -> (r: Result<Vec<u8>, cosmwasm_std::StdError>)
    ensures
        match r {
            Ok(bytes) => borrow_stable_bytes(borrow_amount@) == Some(bytes@),
            Err(_) => borrow_stable_bytes(borrow_amount@) is None,
        },
{
    cosmwasm_std::to_binary(
        &moneymarket::market::HandleMsg::BorrowStable {
            borrow_amount: cosmwasm_bignumber::Uint256(bigint::U256(borrow_amount.limbs)),
            to: None,
        },
    ).map(|binary| binary.0)
}

/// The message that offers `amount` of the native coin `denom` to the swap pair. Calls
/// `cosmwasm_std::to_binary` on `terraswap::pair::HandleMsg::Swap`. Nothing is proved of
/// the bytes: the contract only names them.
#[verifier::external_body]
pub fn swap_to_collateral(amount: u128, denom: &String) -> (r: Result<
    Vec<u8>,
    cosmwasm_std::StdError,
>)
    ensures
        match r {
            Ok(bytes) => swap_bytes(amount, denom@) == Some(bytes@),
            Err(_) => swap_bytes(amount, denom@) is None,
        },
{
    cosmwasm_std::to_binary(
        &terraswap::pair::HandleMsg::Swap {
            offer_asset: terraswap::asset::Asset {
                amount: cosmwasm_std::Uint128(amount),
                info: terraswap::asset::AssetInfo::NativeToken { denom: denom.clone() },
            },
            belief_price: None,
            max_spread: None,
            to: None,
        },
    ).map(|binary| binary.0)
}

} // verus!
