use vstd::prelude::*;

verus! {

/// The addresses the controller works with, fixed at deployment and handed to every
/// step: the staking hub, the contract that takes collateral deposits, the derivative
/// token, the overseer, the lending market, the swap pair, and the validator to stake
/// with.
#[derive(Clone, Debug, PartialEq)]
pub struct Config {
    pub basset_hub_contract: String,
    pub basset_token_contract: String,
    pub basset_collateral_contract: String,
    pub anchor_overseer_contract: String,
    pub anchor_market_contract: String,
    pub terraswap_luna_ust: String,
    pub preferred_validator: String,
}

/// A `Config` as plain values.
pub struct ConfigView {
    pub basset_hub_contract: Seq<char>,
    pub basset_token_contract: Seq<char>,
    pub basset_collateral_contract: Seq<char>,
    pub anchor_overseer_contract: Seq<char>,
    pub anchor_market_contract: Seq<char>,
    pub terraswap_luna_ust: Seq<char>,
    pub preferred_validator: Seq<char>,
}

impl View for Config {
    type V = ConfigView;

    open spec fn view(&self) -> ConfigView {
        ConfigView {
            basset_hub_contract: self.basset_hub_contract@,
            basset_token_contract: self.basset_token_contract@,
            basset_collateral_contract: self.basset_collateral_contract@,
            anchor_overseer_contract: self.anchor_overseer_contract@,
            anchor_market_contract: self.anchor_market_contract@,
            terraswap_luna_ust: self.terraswap_luna_ust@,
            preferred_validator: self.preferred_validator@,
        }
    }
}

/// The addresses as the deployer writes them.
#[derive(Clone, Debug, PartialEq)]
pub struct ConfigMsg {
    pub basset_hub_contract: String,
    pub basset_token_contract: String,
    pub basset_collateral_contract: String,
    pub anchor_overseer_contract: String,
    pub anchor_market_contract: String,
    pub terraswap_luna_ust: String,
    pub preferred_validator: String,
}

/// A `ConfigMsg` as plain values.
pub struct ConfigMsgView {
    pub basset_hub_contract: Seq<char>,
    pub basset_token_contract: Seq<char>,
    pub basset_collateral_contract: Seq<char>,
    pub anchor_overseer_contract: Seq<char>,
    pub anchor_market_contract: Seq<char>,
    pub terraswap_luna_ust: Seq<char>,
    pub preferred_validator: Seq<char>,
}

impl View for ConfigMsg {
    type V = ConfigMsgView;

    open spec fn view(&self) -> ConfigMsgView {
        ConfigMsgView {
            basset_hub_contract: self.basset_hub_contract@,
            basset_token_contract: self.basset_token_contract@,
            basset_collateral_contract: self.basset_collateral_contract@,
            anchor_overseer_contract: self.anchor_overseer_contract@,
            anchor_market_contract: self.anchor_market_contract@,
            terraswap_luna_ust: self.terraswap_luna_ust@,
            preferred_validator: self.preferred_validator@,
        }
    }
}

} // verus!
