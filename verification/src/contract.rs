use vstd::prelude::*;
use vstd::string::StringExecFns;
use crate::error::ContractError;
use crate::gateway::{
    coins_view, Answers, AnswersView, BorrowerResponse, BorrowerResponseView, Coin, CoinView, Env,
    EnvView, Request, RequestView,
};
use crate::msg::{
    HandleAnswer, HandleMsg, InitMsg, InitMsgView, PossibleBorrowResponse,
    PossibleBorrowResponseView, QueryMsg, QueryMsgView,
};
use crate::querier::{
    anchor_borrow, borrow_stable_bytes, deposit_basset_collateral, deposit_collateral_bytes,
    lock_collateral_bytes, overseer_lock_collateral, swap_bytes, swap_to_collateral,
};
use crate::response::{
    executes_view, log_view, outcome_view, Execute, ExecuteView, HandleResponse,
    HandleResponseView, LogEntry, LogEntryView, LogValue, LogValueView, Payload, PayloadView,
    QueryResponse, QueryResponseView, Step, StepView,
};
use crate::state::{Config, ConfigView};
use crate::uint256::{two_limbs, Uint256};
use crate::utils::{
    after_slippage, continue_loop, possible_borrow, possible_borrow_spec, swap_after_slippage,
    BORROW_LTV_PERCENTAGE,
};

verus! {

/// A swap of this many units of the stable asset or fewer ends the cycle.
pub const STOP_SWAPPING_ON: u128 = 10_000_000;

/// The denomination of the staking asset, the only one a deposit may come in.
pub const ACCEPTED_DENOM: &'static str = "uluna";

/// The denomination of the stable asset that is borrowed and swapped.
pub const TERRASWAP_PAIR: &'static str = "uusd";

/// The call by which the contract hands the next step to itself: no coins, and the step
/// as payload.
pub open spec fn self_call(env: EnvView, msg: HandleMsg) -> ExecuteView {
    ExecuteView {
        contract_addr: env.contract_address,
        msg: PayloadView::Handle(msg),
        send: Seq::empty(),
    }
}

/// A call to a collaborating contract.
pub open spec fn call(contract_addr: Seq<char>, bytes: Seq<u8>, send: Seq<CoinView>) -> ExecuteView {
    ExecuteView { contract_addr, msg: PayloadView::Encoded(bytes), send }
}

/// The call that stakes `coin` at the hub with `validator`.
pub open spec fn stake_call(hub: Seq<char>, validator: Seq<char>, coin: CoinView) -> ExecuteView {
    ExecuteView { contract_addr: hub, msg: PayloadView::Bond { validator }, send: seq![coin] }
}

/// The log entry that names the step taken.
pub open spec fn action_entry(name: Seq<char>) -> LogEntryView {
    LogEntryView { key: "action"@, value: LogValueView::Text(name) }
}

/// Whether the caller is the contract itself.
pub open spec fn called_by_self(env: EnvView) -> bool {
    env.sender == env.contract_address
}

/// What staking `received` comes to: the stake of the whole of `received` at the hub with
/// the preferred validator, then the contract's call to itself to post the collateral;
/// and a log of the action "deposit" and the coin deposited.
pub open spec fn deposit_response(config: ConfigView, env: EnvView, received: CoinView) -> HandleResponseView {
    HandleResponseView {
        messages: seq![
            stake_call(config.basset_hub_contract, config.preferred_validator, received),
            self_call(env, HandleMsg::DepositCollateral {  }),
        ],
        log: seq![
            action_entry("deposit"@),
            LogEntryView { key: "deposited"@, value: LogValueView::Coin(received) },
        ],
        data: HandleAnswer::Deposit,
    }
}

/// A deposit is taken only with exactly one coin, and that of the accepted denomination.
pub open spec fn valid_deposit(funds: Seq<CoinView>) -> bool {
    funds.len() == 1 && funds[0].denom == ACCEPTED_DENOM@
}

/// The `Deposit` step: it refuses anything but one coin of the accepted denomination, and
/// stakes that coin. It needs nothing from outside.
pub open spec fn deposit_spec(config: ConfigView, env: EnvView) -> Result<
    StepView<HandleResponseView>,
    ContractError,
> {
    if valid_deposit(env.sent_funds) {
        Ok(StepView::Done(deposit_response(config, env, env.sent_funds[0])))
    } else {
        Err(ContractError::InvalidFunds)
    }
}

/// What posting `bonded` derivative tokens comes to, given the two messages in bytes:
/// the tokens go to the collateral contract, the overseer locks the same amount, and
/// the contract calls itself to borrow; the log names the action "deposit_collateral" and
/// the amount bonded.
pub open spec fn deposit_collateral_response(
    config: ConfigView,
    env: EnvView,
    bonded: u128,
    deposit: Seq<u8>,
    lock: Seq<u8>,
) -> HandleResponseView {
    HandleResponseView {
        messages: seq![
            call(config.basset_collateral_contract, deposit, Seq::empty()),
            call(config.anchor_overseer_contract, lock, Seq::empty()),
            self_call(env, HandleMsg::Borrow {  }),
        ],
        log: seq![
            action_entry("deposit_collateral"@),
            LogEntryView { key: "bonded"@, value: LogValueView::Amount(bonded) },
        ],
        data: HandleAnswer::Deposit,
    }
}

/// The `DepositCollateral` step, for the contract itself only: with the balance of
/// derivative tokens that the contract holds, it sends them all to the collateral
/// contract, has the overseer lock the same amount, and hands on to `Borrow`.
pub open spec fn deposit_collateral_spec(config: ConfigView, env: EnvView, answers: AnswersView) -> Result<
    StepView<HandleResponseView>,
    ContractError,
> {
    if !called_by_self(env) {
        Err(ContractError::Unauthorized)
    } else {
        match answers.token_balance {
            None => Ok(
                StepView::Ask(
                    RequestView::TokenBalance {
                        token: config.basset_collateral_contract,
                        holder: env.contract_address,
                    },
                ),
            ),
            Some(bonded) => match (
                deposit_collateral_bytes(config.basset_token_contract, bonded),
                lock_collateral_bytes(config.basset_collateral_contract, bonded as nat),
            ) {
                (Some(deposit), Some(lock)) => Ok(
                    StepView::Done(deposit_collateral_response(config, env, bonded, deposit, lock)),
                ),
                _ => Err(ContractError::Encoding),
            },
        }
    }
}

/// The figures behind a borrow for `contract_addr`: the overseer's limit first, then the
/// market's loan, then what 70 percent of the limit leave to borrow.
pub open spec fn get_possible_borrow_spec(
    config: ConfigView,
    contract_addr: Seq<char>,
    block_time: Option<u64>,
    block_height: Option<u64>,
    answers: AnswersView,
) -> Result<StepView<PossibleBorrowResponseView>, ContractError> {
    match (answers.borrow_limit, answers.loan_amount) {
        (None, _) => Ok(
            StepView::Ask(
                RequestView::BorrowLimit {
                    overseer: config.anchor_overseer_contract,
                    borrower: contract_addr,
                    block_time,
                },
            ),
        ),
        (Some(_), None) => Ok(
            StepView::Ask(
                RequestView::LoanAmount {
                    market: config.anchor_market_contract,
                    borrower: contract_addr,
                    block_height,
                },
            ),
        ),
        (Some(limit), Some(loan)) => match possible_borrow_spec(
            limit,
            loan,
            BORROW_LTV_PERCENTAGE as nat,
        ) {
            Ok(amount) => Ok(
                StepView::Done(
                    PossibleBorrowResponseView {
                        borrow_limit: limit,
                        already_borrowed: loan,
                        borrow_amount: amount,
                    },
                ),
            ),
            Err(e) => Err(e),
        },
    }
}

/// What borrowing `gross` comes to, given the market's message in bytes and the `net`
/// amount that the tax leaves: the loan is taken from the market, and the contract calls
/// itself to swap the net amount; the log names the action "borrow", the amount borrowed
/// and the amount after tax.
pub open spec fn borrow_response(
    config: ConfigView,
    env: EnvView,
    gross: nat,
    net: u128,
    bytes: Seq<u8>,
) -> HandleResponseView {
    HandleResponseView {
        messages: seq![
            call(config.anchor_market_contract, bytes, Seq::empty()),
            self_call(env, HandleMsg::Swap { amount: net }),
        ],
        log: seq![
            action_entry("borrow"@),
            LogEntryView { key: "borrow_amount"@, value: LogValueView::Big(gross) },
            LogEntryView { key: "borrow_amount_after_tax"@, value: LogValueView::Amount(net) },
        ],
        data: HandleAnswer::Borrow,
    }
}

/// The `Borrow` step, for the contract itself only: it borrows what the figures of this
/// block allow, and hands what is left of that after tax on to `Swap`. The amount has
/// to fit a coin, which holds less than two to the 128th.
pub open spec fn borrow_spec(config: ConfigView, env: EnvView, answers: AnswersView) -> Result<
    StepView<HandleResponseView>,
    ContractError,
> {
    if !called_by_self(env) {
        Err(ContractError::Unauthorized)
    } else {
        match get_possible_borrow_spec(
            config,
            env.contract_address,
            Some(env.block_time),
            Some(env.block_height),
            answers,
        ) {
            Err(e) => Err(e),
            Ok(StepView::Ask(request)) => Ok(StepView::Ask(request)),
            Ok(StepView::Done(figures)) => if figures.borrow_amount >= two_limbs() {
                Err(ContractError::Overflow)
            } else {
                match answers.after_tax {
                    None => Ok(
                        StepView::Ask(
                            RequestView::TaxDeduction {
                                amount: figures.borrow_amount as u128,
                                denom: TERRASWAP_PAIR@,
                            },
                        ),
                    ),
                    Some(net) => match borrow_stable_bytes(figures.borrow_amount) {
                        None => Err(ContractError::Encoding),
                        Some(bytes) => Ok(
                            StepView::Done(
                                borrow_response(config, env, figures.borrow_amount, net, bytes),
                            ),
                        ),
                    },
                }
            },
        }
    }
}

/// The calls of a swap that offers `offer`: the swap itself, and, only where the offer is
/// above the stop threshold, the contract's call to itself for another round.
pub open spec fn swap_calls(config: ConfigView, env: EnvView, offer: u128, bytes: Seq<u8>) -> Seq<
    ExecuteView,
> {
    let swap = call(
        config.terraswap_luna_ust,
        bytes,
        seq![CoinView { denom: TERRASWAP_PAIR@, amount: offer }],
    );
    if offer > STOP_SWAPPING_ON {
        seq![swap, self_call(env, HandleMsg::Redeposit {  })]
    } else {
        seq![swap]
    }
}

/// What a swap that offers `offer` comes to, given the pair's message in bytes: the
/// calls of the swap, and a log of the action "swap" and the amount offered.
pub open spec fn swap_response(config: ConfigView, env: EnvView, offer: u128, bytes: Seq<u8>) -> HandleResponseView {
    HandleResponseView {
        messages: swap_calls(config, env, offer, bytes),
        log: seq![
            action_entry("swap"@),
            LogEntryView { key: "swap_amount"@, value: LogValueView::Amount(offer) },
        ],
        data: HandleAnswer::Borrow,
    }
}

/// The `Swap` step, for the contract itself only: it offers `amount` less the buffer
/// against slippage to the pair, and goes on with `Redeposit` only where that offer is
/// above the stop threshold. It needs nothing from outside.
pub open spec fn swap_spec(config: ConfigView, env: EnvView, amount: u128) -> Result<
    StepView<HandleResponseView>,
    ContractError,
> {
    if !called_by_self(env) {
        Err(ContractError::Unauthorized)
    } else {
        let offer = after_slippage(amount as nat) as u128;
        match swap_bytes(offer, TERRASWAP_PAIR@) {
            None => Err(ContractError::Encoding),
            Some(bytes) => Ok(StepView::Done(swap_response(config, env, offer, bytes))),
        }
    }
}

/// The `Redeposit` step: it stakes the balance of the accepted denomination that the
/// contract holds. Any caller may take it: it moves the contract's own balance into the
/// same stake as before and nothing else, so no caller check stands in its way.
pub open spec fn redeposit_spec(config: ConfigView, env: EnvView, answers: AnswersView) -> Result<
    StepView<HandleResponseView>,
    ContractError,
> {
    match answers.native_balance {
        None => Ok(
            StepView::Ask(
                RequestView::NativeBalance { holder: env.contract_address, denom: ACCEPTED_DENOM@ },
            ),
        ),
        Some(balance) => Ok(StepView::Done(deposit_response(config, env, balance))),
    }
}

/// Whether a step is for the contract itself only.
pub open spec fn restricted(msg: HandleMsg) -> bool {
    msg is DepositCollateral || msg is Borrow || msg is Swap
}

/// What a call of `msg` comes to, given the answers gathered so far.
pub open spec fn handle_spec(config: ConfigView, env: EnvView, msg: HandleMsg, answers: AnswersView) -> Result<
    StepView<HandleResponseView>,
    ContractError,
> {
    match msg {
        HandleMsg::Deposit {  } => deposit_spec(config, env),
        HandleMsg::DepositCollateral {  } => deposit_collateral_spec(config, env, answers),
        HandleMsg::Borrow {  } => borrow_spec(config, env, answers),
        HandleMsg::Swap { amount } => swap_spec(config, env, amount),
        HandleMsg::Redeposit {  } => redeposit_spec(config, env, answers),
    }
}

/// The contract's call to itself for `msg`.
fn own_call(env: &Env, msg: HandleMsg) -> (r: Execute)
    ensures
        r@ == self_call(env@, msg),
{
    let r = Execute {
        contract_addr: env.contract_address.clone(),
        msg: Payload::Handle(msg),
        send: Vec::new(),
    };
    assert(r@.send =~= Seq::empty());
    r
}

/// The call that carries `bytes` and `send` to `contract_addr`.
fn outside_call(contract_addr: &String, bytes: Vec<u8>, send: Vec<Coin>) -> (r: Execute)
    ensures
        r@ == call(contract_addr@, bytes@, coins_view(send@)),
{
    Execute { contract_addr: contract_addr.clone(), msg: Payload::Encoded(bytes), send }
}

/// The list of the one coin of `amount` and `denom`.
fn one_coin(amount: u128, denom: &String) -> (r: Vec<Coin>)
    ensures
        coins_view(r@) == seq![CoinView { denom: denom@, amount }],
{
    let mut coins: Vec<Coin> = Vec::new();
    coins.push(Coin { denom: denom.clone(), amount });
    assert(coins_view(coins@) =~= seq![CoinView { denom: denom@, amount }]);
    coins
}

/// The list of two calls, in this order.
fn two_calls(first: Execute, second: Execute) -> (r: Vec<Execute>)
    ensures
        executes_view(r@) == seq![first@, second@],
{
    let mut calls: Vec<Execute> = Vec::new();
    calls.push(first);
    calls.push(second);
    assert(executes_view(calls@) =~= seq![first@, second@]);
    calls
}

/// The list of three calls, in this order.
fn three_calls(first: Execute, second: Execute, third: Execute) -> (r: Vec<Execute>)
    ensures
        executes_view(r@) == seq![first@, second@, third@],
{
    let mut calls: Vec<Execute> = Vec::new();
    calls.push(first);
    calls.push(second);
    calls.push(third);
    assert(executes_view(calls@) =~= seq![first@, second@, third@]);
    calls
}

/// The empty list of coins.
fn no_coins() -> (r: Vec<Coin>)
    ensures
        coins_view(r@) == Seq::<CoinView>::empty(),
{
    let coins: Vec<Coin> = Vec::new();
    assert(coins_view(coins@) =~= Seq::<CoinView>::empty());
    coins
}

/// The log entry of `key` and `value`.
fn log_entry(key: &str, value: LogValue) -> (r: LogEntry)
    ensures
        r@ == (LogEntryView { key: key@, value: value@ }),
{
    LogEntry { key: String::from_str(key), value }
}

/// The log that names the step taken and tells one thing of it.
fn log_of_two(name: &str, second: LogEntry) -> (r: Vec<LogEntry>)
    ensures
        log_view(r@) == seq![action_entry(name@), second@],
{
    let mut log: Vec<LogEntry> = Vec::new();
    log.push(log_entry("action", LogValue::Text(String::from_str(name))));
    log.push(second);
    assert(log_view(log@) =~= seq![action_entry(name@), second@]);
    log
}

/// The log that names the step taken and tells two things of it.
fn log_of_three(name: &str, second: LogEntry, third: LogEntry) -> (r: Vec<LogEntry>)
    ensures
        log_view(r@) == seq![action_entry(name@), second@, third@],
{
    let mut log: Vec<LogEntry> = Vec::new();
    log.push(log_entry("action", LogValue::Text(String::from_str(name))));
    log.push(second);
    log.push(third);
    assert(log_view(log@) =~= seq![action_entry(name@), second@, third@]);
    log
}

/// Whether the caller is the contract itself.
pub fn is_self_call(env: &Env) -> (r: bool)
    ensures
        r == called_by_self(env@),
{
    env.sender == env.contract_address
}

/// Stakes `received` with the preferred validator and hands on to `DepositCollateral`.
pub fn deposit_msgs(config: &Config, env: &Env, received: &Coin) -> (r: HandleResponse)
    ensures
        r@ == deposit_response(config@, env@, received@),
{
    let stake = Execute {
        contract_addr: config.basset_hub_contract.clone(),
        msg: Payload::Bond { validator: config.preferred_validator.clone() },
        send: one_coin(received.amount, &received.denom),
    };
    let next = own_call(env, HandleMsg::DepositCollateral {  });
    let deposited = Coin { denom: received.denom.clone(), amount: received.amount };
    HandleResponse {
        messages: two_calls(stake, next),
        log: log_of_two("deposit", log_entry("deposited", LogValue::Coin(deposited))),
        data: HandleAnswer::Deposit,
    }
}

/// The `Deposit` step, open to any caller.
pub fn deposit(config: &Config, env: &Env) -> (r: Result<Step<HandleResponse>, ContractError>)
    ensures
        outcome_view(r) == deposit_spec(config@, env@),
{
    if env.sent_funds.len() != 1 {
        return Err(ContractError::InvalidFunds);
    }
    let accepted = String::from_str(ACCEPTED_DENOM);
    if env.sent_funds[0].denom != accepted {
        return Err(ContractError::InvalidFunds);
    }
    Ok(Step::Done(deposit_msgs(config, env, &env.sent_funds[0])))
}

/// Posts `bonded` derivative tokens as collateral with the two messages `deposit` and
/// `lock`, and hands on to `Borrow`.
pub fn deposit_collateral_msgs(
    config: &Config,
    env: &Env,
    bonded: u128,
    deposit: Vec<u8>,
    lock: Vec<u8>,
) -> (r: HandleResponse)
    ensures
        r@ == deposit_collateral_response(config@, env@, bonded, deposit@, lock@),
{
    let messages = three_calls(
        outside_call(&config.basset_collateral_contract, deposit, no_coins()),
        outside_call(&config.anchor_overseer_contract, lock, no_coins()),
        own_call(env, HandleMsg::Borrow {  }),
    );
    HandleResponse {
        messages,
        log: log_of_two("deposit_collateral", log_entry("bonded", LogValue::Amount(bonded))),
        data: HandleAnswer::Deposit,
    }
}

/// The `DepositCollateral` step.
pub fn deposit_collateral(config: &Config, env: &Env, answers: &Answers) -> (r: Result<
    Step<HandleResponse>,
    ContractError,
>)
    ensures
        outcome_view(r) == deposit_collateral_spec(config@, env@, answers@),
{
    if !is_self_call(env) {
        return Err(ContractError::Unauthorized);
    }
    let bonded: u128 = match answers.token_balance {
        None => {
            return Ok(
                Step::Ask(
                    Request::TokenBalance {
                        token: config.basset_collateral_contract.clone(),
                        holder: env.contract_address.clone(),
                    },
                ),
            );
        },
        Some(bonded) => bonded,
    };
    let deposit = match deposit_basset_collateral(&config.basset_token_contract, bonded) {
        Ok(bytes) => bytes,
        Err(_) => {
            return Err(ContractError::Encoding);
        },
    };
    let lock = match overseer_lock_collateral(
        &config.basset_collateral_contract,
        Uint256::from_u128(bonded),
    ) {
        Ok(bytes) => bytes,
        Err(_) => {
            return Err(ContractError::Encoding);
        },
    };
    Ok(Step::Done(deposit_collateral_msgs(config, env, bonded, deposit, lock)))
}

/// The figures behind a borrow for `contract_addr`, at the given block time and height
/// where they are given.
pub fn get_possible_borrow(
    config: &Config,
    contract_addr: &String,
    block_time: Option<u64>,
    block_height: Option<u64>,
    answers: &Answers,
) -> (r: Result<Step<PossibleBorrowResponse>, ContractError>)
    ensures
        outcome_view(r) == get_possible_borrow_spec(
            config@,
            contract_addr@,
            block_time,
            block_height,
            answers@,
        ),
{
    let borrow_limit = match answers.borrow_limit {
        None => {
            return Ok(
                Step::Ask(
                    Request::BorrowLimit {
                        overseer: config.anchor_overseer_contract.clone(),
                        borrower: contract_addr.clone(),
                        block_time,
                    },
                ),
            );
        },
        Some(limit) => limit,
    };
    let already_borrowed = match answers.loan_amount {
        None => {
            return Ok(
                Step::Ask(
                    Request::LoanAmount {
                        market: config.anchor_market_contract.clone(),
                        borrower: contract_addr.clone(),
                        block_height,
                    },
                ),
            );
        },
        Some(loan) => loan,
    };
    match possible_borrow(&borrow_limit, &already_borrowed, BORROW_LTV_PERCENTAGE) {
        Ok(borrow_amount) => Ok(
            Step::Done(PossibleBorrowResponse { borrow_limit, already_borrowed, borrow_amount }),
        ),
        Err(e) => Err(e),
    }
}

/// Takes the loan of `borrow_amount` with the market's message `bytes`, and hands the
/// `net` amount that the tax leaves on to `Swap`.
pub fn borrow_msgs(config: &Config, env: &Env, borrow_amount: Uint256, net: u128, bytes: Vec<u8>) -> (r:
    HandleResponse)
    ensures
        r@ == borrow_response(config@, env@, borrow_amount@, net, bytes@),
{
    let messages = two_calls(
        outside_call(&config.anchor_market_contract, bytes, no_coins()),
        own_call(env, HandleMsg::Swap { amount: net }),
    );
    HandleResponse {
        messages,
        log: log_of_three(
            "borrow",
            log_entry("borrow_amount", LogValue::Big(borrow_amount)),
            log_entry("borrow_amount_after_tax", LogValue::Amount(net)),
        ),
        data: HandleAnswer::Borrow,
    }
}

/// The `Borrow` step.
pub fn borrow(config: &Config, env: &Env, answers: &Answers) -> (r: Result<
    Step<HandleResponse>,
    ContractError,
>)
    ensures
        outcome_view(r) == borrow_spec(config@, env@, answers@),
{
    if !is_self_call(env) {
        return Err(ContractError::Unauthorized);
    }
    let figures = match get_possible_borrow(
        config,
        &env.contract_address,
        Some(env.block_time),
        Some(env.block_height),
        answers,
    ) {
        Err(e) => {
            return Err(e);
        },
        Ok(Step::Ask(request)) => {
            return Ok(Step::Ask(request));
        },
        Ok(Step::Done(figures)) => figures,
    };
    let gross: u128 = match figures.borrow_amount.to_u128() {
        None => {
            return Err(ContractError::Overflow);
        },
        Some(gross) => gross,
    };
    let net: u128 = match answers.after_tax {
        None => {
            return Ok(
                Step::Ask(
                    Request::TaxDeduction { amount: gross, denom: String::from_str(TERRASWAP_PAIR) },
                ),
            );
        },
        Some(net) => net,
    };
    let bytes = match anchor_borrow(figures.borrow_amount) {
        Ok(bytes) => bytes,
        Err(_) => {
            return Err(ContractError::Encoding);
        },
    };
    Ok(Step::Done(borrow_msgs(config, env, figures.borrow_amount, net, bytes)))
}

/// Offers `offer` of the stable asset to the pair with the pair's message `bytes`, and
/// hands on to `Redeposit` only where the offer is above the stop threshold.
pub fn swap_msgs(config: &Config, env: &Env, offer: u128, bytes: Vec<u8>) -> (r: HandleResponse)
    ensures
        r@ == swap_response(config@, env@, offer, bytes@),
{
    let ghost encoded = bytes@;
    let stable = String::from_str(TERRASWAP_PAIR);
    let exchange = outside_call(&config.terraswap_luna_ust, bytes, one_coin(offer, &stable));
    let mut messages: Vec<Execute> = Vec::new();
    messages.push(exchange);
    if continue_loop(offer, STOP_SWAPPING_ON) {
        messages.push(own_call(env, HandleMsg::Redeposit {  }));
    }
    assert(executes_view(messages@) =~= swap_calls(config@, env@, offer, encoded));
    HandleResponse {
        messages,
        log: log_of_two("swap", log_entry("swap_amount", LogValue::Amount(offer))),
        data: HandleAnswer::Borrow,
    }
}

/// The `Swap` step.
pub fn swap(config: &Config, env: &Env, amount: u128) -> (r: Result<
    Step<HandleResponse>,
    ContractError,
>)
    ensures
        outcome_view(r) == swap_spec(config@, env@, amount),
{
    if !is_self_call(env) {
        return Err(ContractError::Unauthorized);
    }
    let offer: u128 = swap_after_slippage(amount);
    let stable = String::from_str(TERRASWAP_PAIR);
    let bytes = match swap_to_collateral(offer, &stable) {
        Ok(bytes) => bytes,
        Err(_) => {
            return Err(ContractError::Encoding);
        },
    };
    Ok(Step::Done(swap_msgs(config, env, offer, bytes)))
}

/// The `Redeposit` step.
pub fn redeposit(config: &Config, env: &Env, answers: &Answers) -> (r: Result<
    Step<HandleResponse>,
    ContractError,
>)
    ensures
        outcome_view(r) == redeposit_spec(config@, env@, answers@),
{
    match &answers.native_balance {
        None => Ok(
            Step::Ask(
                Request::NativeBalance {
                    holder: env.contract_address.clone(),
                    denom: String::from_str(ACCEPTED_DENOM),
                },
            ),
        ),
        Some(balance) => Ok(Step::Done(deposit_msgs(config, env, balance))),
    }
}

/// Takes the step that `msg` names, as far as the answers gathered so far carry it: to
/// the next request for the host, to the finished response, or to the error that ends
/// the call. The host starts with no answers and calls again after each request.
pub fn handle(config: &Config, env: &Env, msg: HandleMsg, answers: &Answers) -> (r: Result<
    Step<HandleResponse>,
    ContractError,
>)
    ensures
        outcome_view(r) == handle_spec(config@, env@, msg, answers@),
        restricted(msg) && !called_by_self(env@) ==> r == Err::<Step<HandleResponse>, ContractError>(
            ContractError::Unauthorized,
        ),
{
    match msg {
        HandleMsg::Deposit {  } => deposit(config, env),
        HandleMsg::DepositCollateral {  } => deposit_collateral(config, env, answers),
        HandleMsg::Borrow {  } => borrow(config, env, answers),
        HandleMsg::Swap { amount } => swap(config, env, amount),
        HandleMsg::Redeposit {  } => redeposit(config, env, answers),
    }
}

/// The configuration that a deployment with `msg` starts from: each address as the
/// deployer wrote it.
pub open spec fn init_spec(msg: InitMsgView) -> ConfigView {
    ConfigView {
        basset_hub_contract: msg.config.basset_hub_contract,
        basset_token_contract: msg.config.basset_token_contract,
        basset_collateral_contract: msg.config.basset_collateral_contract,
        anchor_overseer_contract: msg.config.anchor_overseer_contract,
        anchor_market_contract: msg.config.anchor_market_contract,
        terraswap_luna_ust: msg.config.terraswap_luna_ust,
        preferred_validator: msg.config.preferred_validator,
    }
}

/// The configuration of a new deployment. The host keeps it and hands it to every step.
pub fn init(msg: InitMsg) -> (config: Config)
    ensures
        config@ == init_spec(msg@),
{
    Config {
        basset_hub_contract: msg.config.basset_hub_contract,
        basset_token_contract: msg.config.basset_token_contract,
        basset_collateral_contract: msg.config.basset_collateral_contract,
        anchor_overseer_contract: msg.config.anchor_overseer_contract,
        anchor_market_contract: msg.config.anchor_market_contract,
        terraswap_luna_ust: msg.config.terraswap_luna_ust,
        preferred_validator: msg.config.preferred_validator,
    }
}

/// The collateral of `contract_addr`, as the custody contract reports it.
pub open spec fn query_collateral_spec(config: ConfigView, contract_addr: Seq<char>, answers: AnswersView) -> Result<
    StepView<BorrowerResponseView>,
    ContractError,
> {
    match answers.collateral {
        None => Ok(
            StepView::Ask(
                RequestView::Collateral {
                    custody: config.basset_token_contract,
                    borrower: contract_addr,
                },
            ),
        ),
        Some(held) => Ok(StepView::Done(held)),
    }
}

/// What a query comes to, given the answers gathered so far. A query changes nothing
/// and asks no one who is calling.
pub open spec fn query_spec(config: ConfigView, msg: QueryMsgView, answers: AnswersView) -> Result<
    StepView<QueryResponseView>,
    ContractError,
> {
    match msg {
        QueryMsgView::PossibleBorrow { contract_addr, block_time, block_height } => {
            match get_possible_borrow_spec(config, contract_addr, block_time, block_height, answers) {
                Ok(StepView::Done(figures)) => Ok(
                    StepView::Done(QueryResponseView::PossibleBorrow(figures)),
                ),
                Ok(StepView::Ask(request)) => Ok(StepView::Ask(request)),
                Err(e) => Err(e),
            }
        },
        QueryMsgView::Collateral { contract_addr } => {
            match query_collateral_spec(config, contract_addr, answers) {
                Ok(StepView::Done(held)) => Ok(StepView::Done(QueryResponseView::Collateral(held))),
                Ok(StepView::Ask(request)) => Ok(StepView::Ask(request)),
                Err(e) => Err(e),
            }
        },
    }
}

/// What `contract_addr` could borrow, at the given block time and height where they are
/// given.
pub fn query_possible_borrow(
    config: &Config,
    contract_addr: &String,
    block_time: Option<u64>,
    block_height: Option<u64>,
    answers: &Answers,
) -> (r: Result<Step<PossibleBorrowResponse>, ContractError>)
    ensures
        outcome_view(r) == get_possible_borrow_spec(
            config@,
            contract_addr@,
            block_time,
            block_height,
            answers@,
        ),
{
    get_possible_borrow(config, contract_addr, block_time, block_height, answers)
}

/// The collateral that the custody contract holds for `contract_addr`.
pub fn query_collateral(config: &Config, contract_addr: &String, answers: &Answers) -> (r: Result<
    Step<BorrowerResponse>,
    ContractError,
>)
    ensures
        outcome_view(r) == query_collateral_spec(config@, contract_addr@, answers@),
{
    match &answers.collateral {
        None => Ok(
            Step::Ask(
                Request::Collateral {
                    custody: config.basset_token_contract.clone(),
                    borrower: contract_addr.clone(),
                },
            ),
        ),
        Some(held) => Ok(
            Step::Done(
                BorrowerResponse {
                    borrower: held.borrower.clone(),
                    balance: held.balance,
                    spendable: held.spendable,
                },
            ),
        ),
    }
}

/// Answers the query `msg`, as far as the answers gathered so far carry it.
pub fn query(config: &Config, msg: &QueryMsg, answers: &Answers) -> (r: Result<
    Step<QueryResponse>,
    ContractError,
>)
    ensures
        outcome_view(r) == query_spec(config@, msg@, answers@),
{
    match msg {
        QueryMsg::PossibleBorrow { contract_addr, block_time, block_height } => {
            match query_possible_borrow(config, contract_addr, *block_time, *block_height, answers) {
                Ok(Step::Done(figures)) => Ok(Step::Done(QueryResponse::PossibleBorrow(figures))),
                Ok(Step::Ask(request)) => Ok(Step::Ask(request)),
                Err(e) => Err(e),
            }
        },
        QueryMsg::Collateral { contract_addr } => {
            match query_collateral(config, contract_addr, answers) {
                Ok(Step::Done(held)) => Ok(Step::Done(QueryResponse::Collateral(held))),
                Ok(Step::Ask(request)) => Ok(Step::Ask(request)),
                Err(e) => Err(e),
            }
        },
    }
}


} // verus!
