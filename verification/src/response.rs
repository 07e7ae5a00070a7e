use vstd::prelude::*;
use crate::gateway::{
    coins_view, BorrowerResponse, BorrowerResponseView, Coin, CoinView, Request, RequestView,
};
use crate::msg::{HandleAnswer, HandleMsg, PossibleBorrowResponse, PossibleBorrowResponseView};
use crate::uint256::Uint256;

verus! {

/// What a call to a contract carries.
#[derive(Clone, Debug, PartialEq)]
pub enum Payload {
    /// A message to a collaborating contract, in the bytes its own crate gives it.
    Encoded(Vec<u8>),
    /// The hub's message that stakes what is sent along with `validator`. The host puts
    /// it into the hub's bytes.
    Bond { validator: String },
    /// The next step of the cycle, for the contract itself.
    Handle(HandleMsg),
}

/// A `Payload` as plain values.
pub enum PayloadView {
    Encoded(Seq<u8>),
    Bond { validator: Seq<char> },
    Handle(HandleMsg),
}

impl View for Payload {
    type V = PayloadView;

    open spec fn view(&self) -> PayloadView {
        match self {
            Payload::Encoded(bytes) => PayloadView::Encoded(bytes@),
            Payload::Bond { validator } => PayloadView::Bond { validator: validator@ },
            Payload::Handle(msg) => PayloadView::Handle(*msg),
        }
    }
}

/// One outgoing call: the contract to call, what to tell it, and the coins to send along.
#[derive(Clone, Debug, PartialEq)]
pub struct Execute {
    pub contract_addr: String,
    pub msg: Payload,
    pub send: Vec<Coin>,
}

/// An `Execute` as plain values.
pub struct ExecuteView {
    pub contract_addr: Seq<char>,
    pub msg: PayloadView,
    pub send: Seq<CoinView>,
}

impl View for Execute {
    type V = ExecuteView;

    open spec fn view(&self) -> ExecuteView {
        ExecuteView {
            contract_addr: self.contract_addr@,
            msg: self.msg@,
            send: coins_view(self.send@),
        }
    }
}

/// The calls of a list, each as plain values.
pub open spec fn executes_view(calls: Seq<Execute>) -> Seq<ExecuteView> {
    calls.map_values(|call: Execute| call@)
}

/// What a log entry tells: a word, or an amount that the host writes out in decimal,
/// a coin as its amount, a space and its denomination.
#[derive(Clone, Debug, PartialEq)]
pub enum LogValue {
    Text(String),
    Amount(u128),
    Big(Uint256),
    Coin(Coin),
}

/// A `LogValue` as plain values.
pub enum LogValueView {
    Text(Seq<char>),
    Amount(u128),
    Big(nat),
    Coin(CoinView),
}

impl View for LogValue {
    type V = LogValueView;

    open spec fn view(&self) -> LogValueView {
        match self {
            LogValue::Text(text) => LogValueView::Text(text@),
            LogValue::Amount(amount) => LogValueView::Amount(*amount),
            LogValue::Big(amount) => LogValueView::Big(amount@),
            LogValue::Coin(coin) => LogValueView::Coin(coin@),
        }
    }
}

/// One line of a step's log.
#[derive(Clone, Debug, PartialEq)]
pub struct LogEntry {
    pub key: String,
    pub value: LogValue,
}

/// A `LogEntry` as plain values.
pub struct LogEntryView {
    pub key: Seq<char>,
    pub value: LogValueView,
}

impl View for LogEntry {
    type V = LogEntryView;

    open spec fn view(&self) -> LogEntryView {
        LogEntryView { key: self.key@, value: self.value@ }
    }
}

/// The entries of a log, each as plain values.
pub open spec fn log_view(log: Seq<LogEntry>) -> Seq<LogEntryView> {
    log.map_values(|entry: LogEntry| entry@)
}

/// What a finished step hands to the ledger: the outgoing calls, to be made in this
/// order once the step has returned, the log of what the step did, and the step's data.
#[derive(Clone, Debug, PartialEq)]
pub struct HandleResponse {
    pub messages: Vec<Execute>,
    pub log: Vec<LogEntry>,
    pub data: HandleAnswer,
}

/// A `HandleResponse` as plain values.
pub struct HandleResponseView {
    pub messages: Seq<ExecuteView>,
    pub log: Seq<LogEntryView>,
    pub data: HandleAnswer,
}

impl View for HandleResponse {
    type V = HandleResponseView;

    open spec fn view(&self) -> HandleResponseView {
        HandleResponseView {
            messages: executes_view(self.messages@),
            log: log_view(self.log@),
            data: self.data,
        }
    }
}

/// The answer to a query.
#[derive(Clone, Debug, PartialEq)]
pub enum QueryResponse {
    PossibleBorrow(PossibleBorrowResponse),
    Collateral(BorrowerResponse),
}

/// A `QueryResponse` as plain values.
pub enum QueryResponseView {
    PossibleBorrow(PossibleBorrowResponseView),
    Collateral(BorrowerResponseView),
}

impl View for QueryResponse {
    type V = QueryResponseView;

    open spec fn view(&self) -> QueryResponseView {
        match self {
            QueryResponse::PossibleBorrow(figures) => QueryResponseView::PossibleBorrow(figures@),
            QueryResponse::Collateral(held) => QueryResponseView::Collateral(held@),
        }
    }
}

/// Where a call stands: it needs an answer from outside, or it is done.
#[derive(Clone, Debug, PartialEq)]
pub enum Step<T> {
    /// The host is to perform the request, add the answer, and call again.
    Ask(Request),
    /// The call is finished, with this result.
    Done(T),
}

/// A `Step` as plain values.
pub enum StepView<V> {
    Ask(RequestView),
    Done(V),
}

impl<T: View> View for Step<T> {
    type V = StepView<T::V>;

    open spec fn view(&self) -> StepView<T::V> {
        match self {
            Step::Ask(request) => StepView::Ask(request@),
            Step::Done(result) => StepView::Done(result@),
        }
    }
}

/// How a call ended, as plain values: a step, or the error that stopped it.
pub open spec fn outcome_view<T: View, E>(outcome: Result<Step<T>, E>) -> Result<StepView<T::V>, E> {
    match outcome {
        Ok(step) => Ok(step@),
        Err(e) => Err(e),
    }
}

} // verus!
