use vstd::prelude::*;

verus! {

/// Why a step or a computation of the controller gave no result.
#[derive(Clone, Copy, Debug, PartialEq, Eq, Structural)]
pub enum ContractError {
    /// A deposit did not come with exactly one coin of the accepted denomination.
    InvalidFunds,
    /// A step that only the contract may take on itself was called by someone else.
    Unauthorized,
    /// The outstanding loan is larger than the capped borrow limit.
    Underflow,
    /// An amount is too large for the integer that has to hold it.
    Overflow,
    /// A message to a collaborating contract could not be put into bytes.
    Encoding,
}

} // verus!
