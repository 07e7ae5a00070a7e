//! The core of a leveraged-yield controller: it takes a deposit of the staking asset,
//! stakes it, posts the derivative as collateral, borrows the stable asset against it,
//! swaps that back into the staking asset, and goes round again until a swap is too
//! small to be worth it.
//!
//! The library decides; it neither reads the ledger nor sends anything. A host calls
//! [`contract::handle`] or [`contract::query`], performs each [`gateway::Request`] that
//! comes back, and calls again with the answer added, until the call is done.
//!
//! - [`utils`]: the fixed-point arithmetic of the cycle.
//! - [`uint256`]: amounts of up to 256 bits.
//! - [`msg`], [`state`]: the messages and the configuration.
//! - [`gateway`]: what a step learns from outside.
//! - [`querier`]: the messages to the collaborating contracts, in bytes.
//! - [`response`]: what a step hands back.
//! - [`contract`]: the steps.
//! - [`cycle`]: what holds of the steps taken together.
//! - [`error`]: why a step fails.

pub mod contract;
pub mod cycle;
pub mod error;
pub mod gateway;
pub mod msg;
pub mod querier;
pub mod response;
pub mod state;
pub mod uint256;
pub mod utils;
