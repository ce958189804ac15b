//! Client-side helpers for a blockchain test network: building and signing
//! transactions, and the faucet funding workflow as a verified state machine.

mod clock;
pub mod decimal;
pub mod endpoint;
pub mod error;
pub mod faucet;
pub mod helpers;
pub mod hex_text;
pub mod transaction;
