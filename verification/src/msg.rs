use vstd::prelude::*;
use crate::state::{ConfigMsg, ConfigMsgView};
use crate::uint256::Uint256;

verus! {

/// What the contract is deployed with.
#[derive(Clone, Debug, PartialEq)]
pub struct InitMsg {
    pub config: ConfigMsg,
}

/// An `InitMsg` as plain values.
pub struct InitMsgView {
    pub config: ConfigMsgView,
}

impl View for InitMsg {
    type V = InitMsgView;

    open spec fn view(&self) -> InitMsgView {
        InitMsgView { config: self.config@ }
    }
}

/// The steps of the leverage cycle. `Deposit` and `Redeposit` are open to any caller;
/// the other three are taken only by the contract calling itself.
#[derive(Clone, Copy, Debug, PartialEq, Eq, Structural)]
pub enum HandleMsg {
    /// Stake the one coin that comes with the call.
    Deposit {  },
    /// Post the derivative tokens the contract holds as collateral.
    DepositCollateral {  },
    /// Borrow the stable asset against the collateral.
    Borrow {  },
    /// Turn `amount` of the stable asset back into the staking asset.
    Swap { amount: u128 },
    /// Stake what the swap brought, and so start the next round.
    Redeposit {  },
}

/// The read-only questions the contract answers.
#[derive(Clone, Debug, PartialEq)]
pub enum QueryMsg {
    /// What `contract_addr` could borrow now, or at the given block time and height.
    PossibleBorrow { contract_addr: String, block_time: Option<u64>, block_height: Option<u64> },
    /// The collateral that the custody contract holds for `contract_addr`.
    Collateral { contract_addr: String },
}

/// A `QueryMsg` as plain values.
pub enum QueryMsgView {
    PossibleBorrow { contract_addr: Seq<char>, block_time: Option<u64>, block_height: Option<u64> },
    Collateral { contract_addr: Seq<char> },
}

impl View for QueryMsg {
    type V = QueryMsgView;

    open spec fn view(&self) -> QueryMsgView {
        match self {
            QueryMsg::PossibleBorrow { contract_addr, block_time, block_height } => {
                QueryMsgView::PossibleBorrow {
                    contract_addr: contract_addr@,
                    block_time: *block_time,
                    block_height: *block_height,
                }
            },
            QueryMsg::Collateral { contract_addr } => QueryMsgView::Collateral {
                contract_addr: contract_addr@,
            },
        }
    }
}

/// What a step reports back as its data.
#[derive(Clone, Copy, Debug, PartialEq, Eq, Structural)]
pub enum HandleAnswer {
    Deposit,
    Borrow,
}

/// The figures behind a borrow: the limit the overseer grants, the loan that is
/// outstanding, and what can be borrowed on top of it.
#[derive(Clone, Copy, Debug, PartialEq, Eq)]
pub struct PossibleBorrowResponse {
    pub borrow_limit: Uint256,
    pub already_borrowed: Uint256,
    pub borrow_amount: Uint256,
}

/// A `PossibleBorrowResponse` as numbers.
pub struct PossibleBorrowResponseView {
    pub borrow_limit: nat,
    pub already_borrowed: nat,
    pub borrow_amount: nat,
}

impl View for PossibleBorrowResponse {
    type V = PossibleBorrowResponseView;

    open spec fn view(&self) -> PossibleBorrowResponseView {
        PossibleBorrowResponseView {
            borrow_limit: self.borrow_limit@,
            already_borrowed: self.already_borrowed@,
            borrow_amount: self.borrow_amount@,
        }
    }
}

} // verus!
