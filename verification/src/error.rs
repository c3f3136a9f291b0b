//! The ways in which a call can fail.

use vstd::prelude::*;

verus! {

/// Why an instruction was refused.
#[derive(Clone, Copy, Debug, PartialEq, Eq, Structural)]
pub enum EscrowError {
    /// The instruction bytes are empty, cut short, or carry an unknown tag.
    InvalidInstruction,
    /// The balance of the state account does not exempt it from rent.
    NotRentExempt,
    /// The initializer did not sign the transaction.
    MissingRequiredSignature,
    /// An account that must belong to the token program, or be it, is not.
    IncorrectProgramId,
    /// The state account already holds an initialised record.
    AccountAlreadyInitialized,
    /// The bytes of the state account are no record, or cannot take one.
    InvalidAccountData,
    /// The buffer is too short to hold a record.
    AccountDataTooSmall,
    /// The call came with fewer accounts than the instruction reads.
    NotEnoughAccountKeys,
    /// The account in the rent position does not hold the rent parameters.
    InvalidArgument,
    /// No address can be derived for the program from the escrow seed.
    InvalidSeeds,
}

} // verus!
