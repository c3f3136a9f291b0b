//! The one way into the program.

use crate::account::Account;
use crate::address::Address;
use crate::error::EscrowError;
use crate::instruction::{instruction_of, EscrowInstruction};
use crate::processor::{init_escrow_holds, refused, Processor};
use crate::token::Instruction;
use vstd::prelude::*;

verus! {

/// Carries out one call of the program: decodes `instruction_data` and hands
/// the instruction to the processor, whose answer it returns as it is.
///
/// On success the caller has to send the returned request to the token
/// program, with the holding account, the initializer and the token program
/// as its accounts, and to fail the call if the token program refuses.
pub fn process_instruction(
    program_id: &Address,
    accounts: &mut Vec<Account>,
    instruction_data: &[u8],
) -> (done: Result<Instruction, EscrowError>)
    ensures
        match instruction_of(instruction_data@) {
            Err(error) => refused(old(accounts)@, final(accounts)@, done, error),
            Ok(EscrowInstruction::InitEscrow { amount }) => init_escrow_holds(
                old(accounts)@,
                final(accounts)@,
                done,
                amount,
                program_id@,
            ),
        },
{
    Processor::process(program_id, accounts, instruction_data)
}

} // verus!
