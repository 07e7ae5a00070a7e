use vstd::prelude::*;
use crate::uint256::Uint256;

verus! {

/// An amount of a native coin.
#[derive(Clone, Debug, PartialEq)]
pub struct Coin {
    pub denom: String,
    pub amount: u128,
}

/// A `Coin` as plain values.
pub struct CoinView {
    pub denom: Seq<char>,
    pub amount: u128,
}

impl View for Coin {
    type V = CoinView;

    open spec fn view(&self) -> CoinView {
        CoinView { denom: self.denom@, amount: self.amount }
    }
}

/// The coins of a list, each as plain values.
pub open spec fn coins_view(coins: Seq<Coin>) -> Seq<CoinView> {
    coins.map_values(|coin: Coin| coin@)
}

/// What a step knows of the call it runs in: who called, the contract's own address,
/// the coins that came with the call, and the block.
#[derive(Clone, Debug, PartialEq)]
pub struct Env {
    pub sender: String,
    pub contract_address: String,
    pub sent_funds: Vec<Coin>,
    pub block_height: u64,
    pub block_time: u64,
}

/// An `Env` as plain values.
pub struct EnvView {
    pub sender: Seq<char>,
    pub contract_address: Seq<char>,
    pub sent_funds: Seq<CoinView>,
    pub block_height: u64,
    pub block_time: u64,
}

impl View for Env {
    type V = EnvView;

    open spec fn view(&self) -> EnvView {
        EnvView {
            sender: self.sender@,
            contract_address: self.contract_address@,
            sent_funds: coins_view(self.sent_funds@),
            block_height: self.block_height,
            block_time: self.block_time,
        }
    }
}

/// What the custody contract holds for a borrower.
#[derive(Clone, Debug, PartialEq)]
pub struct BorrowerResponse {
    pub borrower: String,
    pub balance: Uint256,
    pub spendable: Uint256,
}

/// A `BorrowerResponse` as plain values.
pub struct BorrowerResponseView {
    pub borrower: Seq<char>,
    pub balance: nat,
    pub spendable: nat,
}

impl View for BorrowerResponse {
    type V = BorrowerResponseView;

    open spec fn view(&self) -> BorrowerResponseView {
        BorrowerResponseView {
            borrower: self.borrower@,
            balance: self.balance@,
            spendable: self.spendable@,
        }
    }
}

/// Something a step needs from outside before it can go on. The host performs it and
/// writes the answer into the `Answers` it hands to the step when it calls it again.
#[derive(Clone, Debug, PartialEq)]
pub enum Request {
    /// The balance that `holder` has of the token at `token`.
    TokenBalance { token: String, holder: String },
    /// The borrow limit that `overseer` grants `borrower`.
    BorrowLimit { overseer: String, borrower: String, block_time: Option<u64> },
    /// The loan that `borrower` has with `market`.
    LoanAmount { market: String, borrower: String, block_height: Option<u64> },
    /// What is left of `amount` of the coin `denom` once the transfer tax is taken.
    TaxDeduction { amount: u128, denom: String },
    /// The balance that `holder` has of the native coin `denom`.
    NativeBalance { holder: String, denom: String },
    /// The collateral that `custody` holds for `borrower`.
    Collateral { custody: String, borrower: String },
}

/// A `Request` as plain values.
pub enum RequestView {
    TokenBalance { token: Seq<char>, holder: Seq<char> },
    BorrowLimit { overseer: Seq<char>, borrower: Seq<char>, block_time: Option<u64> },
    LoanAmount { market: Seq<char>, borrower: Seq<char>, block_height: Option<u64> },
    TaxDeduction { amount: u128, denom: Seq<char> },
    NativeBalance { holder: Seq<char>, denom: Seq<char> },
    Collateral { custody: Seq<char>, borrower: Seq<char> },
}

impl View for Request {
    type V = RequestView;

    open spec fn view(&self) -> RequestView {
        match self {
            Request::TokenBalance { token, holder } => RequestView::TokenBalance {
                token: token@,
                holder: holder@,
            },
            Request::BorrowLimit { overseer, borrower, block_time } => RequestView::BorrowLimit {
                overseer: overseer@,
                borrower: borrower@,
                block_time: *block_time,
            },
            Request::LoanAmount { market, borrower, block_height } => RequestView::LoanAmount {
                market: market@,
                borrower: borrower@,
                block_height: *block_height,
            },
            Request::TaxDeduction { amount, denom } => RequestView::TaxDeduction {
                amount: *amount,
                denom: denom@,
            },
            Request::NativeBalance { holder, denom } => RequestView::NativeBalance {
                holder: holder@,
                denom: denom@,
            },
            Request::Collateral { custody, borrower } => RequestView::Collateral {
                custody: custody@,
                borrower: borrower@,
            },
        }
    }
}

/// The answers the host has gathered so far for one call, one field for each kind of
/// `Request`; `None` where that request was not made yet.
#[derive(Clone, Debug, PartialEq)]
pub struct Answers {
    pub token_balance: Option<u128>,
    pub borrow_limit: Option<Uint256>,
    pub loan_amount: Option<Uint256>,
    pub after_tax: Option<u128>,
    pub native_balance: Option<Coin>,
    pub collateral: Option<BorrowerResponse>,
}

/// `Answers` as plain values.
pub struct AnswersView {
    pub token_balance: Option<u128>,
    pub borrow_limit: Option<nat>,
    pub loan_amount: Option<nat>,
    pub after_tax: Option<u128>,
    pub native_balance: Option<CoinView>,
    pub collateral: Option<BorrowerResponseView>,
}

impl View for Answers {
    type V = AnswersView;

    open spec fn view(&self) -> AnswersView {
        AnswersView {
            token_balance: self.token_balance,
            borrow_limit: match self.borrow_limit {
                Some(limit) => Some(limit@),
                None => None,
            },
            loan_amount: match self.loan_amount {
                Some(loan) => Some(loan@),
                None => None,
            },
            after_tax: self.after_tax,
            native_balance: match self.native_balance {
                Some(coin) => Some(coin@),
                None => None,
            },
            collateral: match self.collateral {
                Some(held) => Some(held@),
                None => None,
            },
        }
    }
}

/// No answer at all: what a call starts with.
pub open spec fn no_answers() -> AnswersView {
    AnswersView {
        token_balance: None,
        borrow_limit: None,
        loan_amount: None,
        after_tax: None,
        native_balance: None,
        collateral: None,
    }
}

impl Answers {
    /// The answers of a call that has asked nothing yet.
    pub fn new() -> (r: Answers)
        ensures
            r@ == no_answers(),
    {
        Answers {
                token_balance: None,
            borrow_limit: None,
            loan_amount: None,
            after_tax: None,
            native_balance: None,
            collateral: None,
        }
    }
}

} // verus!
