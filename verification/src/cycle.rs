use vstd::prelude::*;
use crate::contract::{
    action_entry, called_by_self, deposit_response, handle_spec, query_spec, restricted,
    self_call, stake_call, valid_deposit, ACCEPTED_DENOM, STOP_SWAPPING_ON,
};
use crate::error::ContractError;
use crate::gateway::{AnswersView, EnvView, RequestView};
use crate::msg::{HandleMsg, QueryMsgView};
use crate::response::{HandleResponseView, PayloadView, StepView};
use crate::state::ConfigView;
use crate::utils::after_slippage;

verus! {

/// Whether the answers hold what `request` asks for.
pub open spec fn answered(answers: AnswersView, request: RequestView) -> bool {
    match request {
        RequestView::TokenBalance { .. } => answers.token_balance is Some,
        RequestView::BorrowLimit { .. } => answers.borrow_limit is Some,
        RequestView::LoanAmount { .. } => answers.loan_amount is Some,
        RequestView::TaxDeduction { .. } => answers.after_tax is Some,
        RequestView::NativeBalance { .. } => answers.native_balance is Some,
        RequestView::Collateral { .. } => answers.collateral is Some,
    }
}

/// The step with which a response has the contract call itself, as its last call; `None`
/// where the last call goes elsewhere, which ends the cycle.
pub open spec fn continuation(response: HandleResponseView) -> Option<HandleMsg> {
    if response.messages.len() > 0 {
        match response.messages.last().msg {
            PayloadView::Handle(msg) => Some(msg),
            PayloadView::Encoded(_) => None,
            PayloadView::Bond { .. } => None,
        }
    } else {
        None
    }
}

/// The step that follows `msg` in the cycle: collateral after a deposit, a borrow after
/// collateral, a swap of what the borrow left after tax, and after a swap another deposit
/// where the offer was above the stop threshold, else nothing.
pub open spec fn successor(msg: HandleMsg, answers: AnswersView) -> Option<HandleMsg> {
    match msg {
        HandleMsg::Deposit {  } => Some(HandleMsg::DepositCollateral {  }),
        HandleMsg::DepositCollateral {  } => Some(HandleMsg::Borrow {  }),
        HandleMsg::Borrow {  } => match answers.after_tax {
            Some(net) => Some(HandleMsg::Swap { amount: net }),
            None => None,
        },
        HandleMsg::Swap { amount } => if after_slippage(amount as nat) > STOP_SWAPPING_ON {
            Some(HandleMsg::Redeposit {  })
        } else {
            None
        },
        HandleMsg::Redeposit {  } => Some(HandleMsg::DepositCollateral {  }),
    }
}

/// A step that is for the contract itself stops with `Unauthorized` for every other
/// caller, whatever the answers: it asks for nothing and emits no call.
pub proof fn strangers_are_refused(
    config: ConfigView,
    env: EnvView,
    msg: HandleMsg,
    answers: AnswersView,
)
    requires
        restricted(msg),
        !called_by_self(env),
    ensures
        handle_spec(config, env, msg, answers) == Err::<StepView<HandleResponseView>, ContractError>(
            ContractError::Unauthorized,
        ),
{
}

/// A deposit with no coin, with two coins or more, or with one coin of another
/// denomination stops with `InvalidFunds`. A deposit with exactly one coin of the accepted
/// denomination is done at once, whatever the answers, with exactly two calls: the stake
/// of that coin at the hub with the preferred validator, then the contract's call to
/// itself to post the collateral.
pub proof fn deposit_takes_one_accepted_coin(config: ConfigView, env: EnvView, answers: AnswersView)
    ensures
        env.sent_funds.len() == 0 || env.sent_funds.len() >= 2 || env.sent_funds[0].denom
            != ACCEPTED_DENOM@ ==> handle_spec(config, env, HandleMsg::Deposit {  }, answers) == Err::<
            StepView<HandleResponseView>,
            ContractError,
        >(ContractError::InvalidFunds),
        valid_deposit(env.sent_funds) ==> handle_spec(config, env, HandleMsg::Deposit {  }, answers)
            == Ok::<StepView<HandleResponseView>, ContractError>(
            StepView::Done(deposit_response(config, env, env.sent_funds[0])),
        ),
        deposit_response(config, env, env.sent_funds[0]).messages.len() == 2,
        deposit_response(config, env, env.sent_funds[0]).messages[0] == stake_call(
            config.basset_hub_contract,
            config.preferred_validator,
            env.sent_funds[0],
        ),
        deposit_response(config, env, env.sent_funds[0]).messages[1] == self_call(
            env,
            HandleMsg::DepositCollateral {  },
        ),
{
}

/// A step never asks for what it was given already: the host that adds each answer
/// it is asked for is asked for it once.
pub proof fn asks_only_what_is_missing(
    config: ConfigView,
    env: EnvView,
    msg: HandleMsg,
    answers: AnswersView,
)
    ensures
        handle_spec(config, env, msg, answers) matches Ok(StepView::Ask(request)) ==> !answered(
            answers,
            request,
        ),
{
}

/// A query never asks for what it was given already.
pub proof fn query_asks_only_what_is_missing(config: ConfigView, msg: QueryMsgView, answers: AnswersView)
    ensures
        query_spec(config, msg, answers) matches Ok(StepView::Ask(request)) ==> !answered(
            answers,
            request,
        ),
{
}

/// The order of the cycle. A finished step emits at least one call; every call but the
/// last goes to a collaborating contract; and the last is the contract's call to itself
/// for the step that follows, or, where no step follows, a call to a collaborator too.
pub proof fn steps_follow_the_cycle(
    config: ConfigView,
    env: EnvView,
    msg: HandleMsg,
    answers: AnswersView,
    response: HandleResponseView,
)
    requires
        handle_spec(config, env, msg, answers) == Ok::<StepView<HandleResponseView>, ContractError>(
            StepView::Done(response),
        ),
    ensures
        response.messages.len() >= 1,
        forall|i: int|
            0 <= i < response.messages.len() - 1 ==> !((#[trigger] response.messages[i]).msg is Handle),
        continuation(response) == successor(msg, answers),
        continuation(response) matches Some(next) ==> response.messages.last() == self_call(
            env,
            next,
        ),
{
}

/// The name under which a step is logged. A redeposit is logged as the deposit it is.
pub open spec fn logged_action(msg: HandleMsg) -> Seq<char> {
    match msg {
        HandleMsg::Deposit {  } => "deposit"@,
        HandleMsg::DepositCollateral {  } => "deposit_collateral"@,
        HandleMsg::Borrow {  } => "borrow"@,
        HandleMsg::Swap { .. } => "swap"@,
        HandleMsg::Redeposit {  } => "deposit"@,
    }
}

/// The log of a finished step begins with the step's name, and then tells the amounts
/// the step moved: one for a deposit, a posting of collateral and a swap, two for a
/// borrow.
pub proof fn log_names_the_step(
    config: ConfigView,
    env: EnvView,
    msg: HandleMsg,
    answers: AnswersView,
    response: HandleResponseView,
)
    requires
        handle_spec(config, env, msg, answers) == Ok::<StepView<HandleResponseView>, ContractError>(
            StepView::Done(response),
        ),
    ensures
        response.log.len() == (if msg is Borrow { 3nat } else { 2nat }),
        response.log[0] == action_entry(logged_action(msg)),
{
}

} // verus!
