//! Custodial vaults that lock one indivisible asset and issue fungible claims
//! against it, with quorum-gated buyout, fee splitting and pro-rata redemption.
//!
//! The library is the accounting core of an on-chain program. It holds the
//! records and decides every operation; it never touches the ledger. Each
//! operation takes what it has to know of the outside (balances, the time,
//! the caller) as plain values, checks all of its gates before it changes a
//! record, and returns the amounts that the surrounding program then has to
//! move.
//!
//! - [`state`]: the vault, the ballot and the configuration records.
//! - [`instructions`]: creation, fractionalization, the opening of a buyout
//!   vote, voting, settlement and redemption.
//! - [`fees`]: the integer arithmetic they share.
//! - [`laws`]: what is proved of the operations taken together.
//! - [`counter`] and [`listing`]: a plain counter, and listed vaults with
//!   their buyout offers.
//! - [`constant`] and [`error`]: parameters and rejections.

pub mod constant;
pub mod counter;
pub mod error;
pub mod fees;
pub mod instructions;
pub mod laws;
pub mod listing;
pub mod state;
