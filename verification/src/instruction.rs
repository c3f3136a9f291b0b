//! The instructions of the program and their wire format.
//!
//! An instruction is one tag byte followed by what the tag calls for. Tag 0
//! is `InitEscrow`; its payload is the expected amount as eight little-endian
//! bytes. Bytes after the payload are not looked at.

use crate::error::EscrowError;
use crate::little_endian::{le_value, lemma_le_limit_8, lemma_le_value_bound, read_u64};
use vstd::prelude::*;
use vstd::slice::slice_subrange;

verus! {

/// A decoded request to the program.
#[derive(Clone, Copy, Debug, PartialEq, Eq)]
pub enum EscrowInstruction {
    /// Starts the trade: fills the state account and hands the holding
    /// account to the program.
    ///
    /// Accounts expected, by position:
    ///
    /// 0. the initializer, who must have signed
    /// 1. the holding account, created beforehand and owned by the initializer
    /// 2. the initializer's account for the tokens they are to receive
    /// 3. the state account, which takes the record
    /// 4. the rent parameters
    /// 5. the token program
    InitEscrow {
        /// What the initializer expects to receive from the other party.
        amount: u64,
    },
}

/// The amount spelled by the first eight bytes of `payload`.
pub open spec fn amount_of(payload: Seq<u8>) -> Result<u64, EscrowError> {
    if payload.len() >= 8 {
        Ok(le_value(payload.subrange(0, 8)) as u64)
    } else {
        Err(EscrowError::InvalidInstruction)
    }
}

/// The instruction that `input` stands for.
pub open spec fn instruction_of(input: Seq<u8>) -> Result<EscrowInstruction, EscrowError> {
    if input.len() >= 9 && input[0] == 0 {
        Ok(EscrowInstruction::InitEscrow { amount: le_value(input.subrange(1, 9)) as u64 })
    } else {
        Err(EscrowError::InvalidInstruction)
    }
}

impl EscrowInstruction {
    /// Decodes the instruction bytes of a call.
    ///
    /// Succeeds exactly on a buffer that starts with tag 0 and has at least
    /// eight bytes after it; every other buffer is an `InvalidInstruction`.
    pub fn unpack(input: &[u8]) -> (unpacked: Result<EscrowInstruction, EscrowError>)
        ensures
            unpacked == instruction_of(input@),
            input@.len() >= 9 && input@[0] == 0 ==> unpacked == Ok::<
                EscrowInstruction,
                EscrowError,
            >(EscrowInstruction::InitEscrow { amount: le_value(input@.subrange(1, 9)) as u64 }),
            input@.len() == 0 || input@[0] != 0 || input@.len() < 9 ==> unpacked == Err::<
                EscrowInstruction,
                EscrowError,
            >(EscrowError::InvalidInstruction),
    {
        if input.len() == 0 {
            return Err(EscrowError::InvalidInstruction);
        }
        let tag = input[0];
        let rest = slice_subrange(input, 1, input.len());
        if tag == 0 {
            match EscrowInstruction::unpack_amount(rest) {
                Ok(amount) => {
                    proof {
                        assert(rest@.subrange(0, 8) =~= input@.subrange(1, 9));
                    }
                    Ok(EscrowInstruction::InitEscrow { amount })
                },
                Err(error) => Err(error),
            }
        } else {
            Err(EscrowError::InvalidInstruction)
        }
    }

    /// Reads the amount at the front of a payload: eight little-endian bytes.
    /// A shorter payload is an `InvalidInstruction`.
    pub fn unpack_amount(input: &[u8]) -> (unpacked: Result<u64, EscrowError>)
        ensures
            unpacked == amount_of(input@),
    {
        if input.len() < 8 {
            return Err(EscrowError::InvalidInstruction);
        }
        proof {
            lemma_le_value_bound(input@.subrange(0, 8));
            lemma_le_limit_8();
        }
        Ok(read_u64(input, 0))
    }
}

} // verus!
