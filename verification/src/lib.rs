//! Initialisation of a two-party token escrow on a ledger of accounts.
//!
//! The crate decodes the instruction bytes, checks the accounts that came
//! with the call, writes the escrow record into the state account and builds
//! the request that hands the holding account to an address only this program
//! controls. Sending that request to the token program is left to the caller.

pub mod account;
pub mod address;
pub mod entrypoint;
pub mod error;
pub mod instruction;
pub mod little_endian;
pub mod processor;
pub mod rent;
pub mod state;
pub mod token;
