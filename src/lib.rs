//! Verified building blocks for fungible-asset operations on a CosmWasm chain:
//! validation of token-factory denoms, the messages that transfer, mint and burn
//! them, and the continuation that finishes creating one after the chain replies.
pub mod denom;
pub mod error;
pub mod msg;
pub mod osmosis;
pub mod token;
