//! Core logic for a wallet-fleet coordinator: bulk funding of many target
//! wallets from one distribution wallet, the reverse collection of value from
//! many wallets into one destination, and the bookkeeping of a confirmation
//! channel that multiplexes many "wait until this transaction confirms"
//! requests over one streaming connection.
//!
//! Network and database access live outside this crate; the functions here
//! take the values those calls return and make every decision: how many
//! lamports a job needs, whether balances suffice, which waiter a push
//! notification wakes, and how a fan-out of transfers is tracked.

pub mod errors;
pub mod funding;
pub mod wallet;
pub mod dispatch;
pub mod channel;
pub mod numeric;
pub mod cli;
pub mod rpc;
pub mod endpoints;
pub mod storage;
pub mod txn;
pub mod collecting;
