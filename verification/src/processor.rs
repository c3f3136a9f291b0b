//! The processing of instructions: what is checked, what is written, and
//! what is asked of the token program.

use crate::account::{account_views, Account, AccountView};
use crate::address::{program_address, try_find_program_address, Address};
use crate::error::EscrowError;
use crate::instruction::{instruction_of, EscrowInstruction};
use crate::rent::{loaded_view, Rent, RentView};
use crate::state::{lemma_decode_encode, Escrow, EscrowView};
use crate::token::{
    set_authority, set_authority_request, token_program_bytes, token_program_id, AuthorityType,
    Instruction, InstructionView,
};
use vstd::prelude::*;

verus! {

/// Position of the initializer among the accounts of `InitEscrow`.
pub const INITIALIZER: usize = 0;

/// Position of the holding account.
pub const HOLDING_ACCOUNT: usize = 1;

/// Position of the initializer's receive account.
pub const RECEIVE_ACCOUNT: usize = 2;

/// Position of the state account.
pub const ESCROW_ACCOUNT: usize = 3;

/// Position of the account with the rent parameters.
pub const RENT_ACCOUNT: usize = 4;

/// Position of the token program.
pub const TOKEN_PROGRAM: usize = 5;

/// The seed of the program's authority: the ASCII bytes of `escrow`.
pub open spec fn authority_seed() -> Seq<u8> {
    seq![101u8, 115, 99, 114, 111, 119]
}

/// The address that takes authority over the holding accounts of the program
/// `program_id`, where the ledger derives one.
pub open spec fn authority_of(program_id: Seq<u8>) -> Option<Seq<u8>> {
    match program_address(authority_seed(), program_id) {
        Some((address, bump)) => Some(address),
        None => None,
    }
}

/// What `derive_authority` and the processor return, with each value as its
/// view.
pub open spec fn request_view(built: Result<Instruction, EscrowError>) -> Result<
    InstructionView,
    EscrowError,
> {
    match built {
        Ok(request) => Ok(request@),
        Err(error) => Err(error),
    }
}

/// Whether `InitEscrow` may write to the state account: the first refusal
/// among the checks on the accounts, taken in their order, or none.
pub open spec fn admission(accounts: Seq<AccountView>) -> Result<(), EscrowError> {
    if accounts.len() < 1 {
        Err(EscrowError::NotEnoughAccountKeys)
    } else if !accounts[0].is_signer {
        Err(EscrowError::MissingRequiredSignature)
    } else if accounts.len() < 3 {
        Err(EscrowError::NotEnoughAccountKeys)
    } else if accounts[2].owner != token_program_bytes() {
        Err(EscrowError::IncorrectProgramId)
    } else if accounts.len() < 5 {
        Err(EscrowError::NotEnoughAccountKeys)
    } else {
        match RentView::of_account(accounts[4]) {
            Err(error) => Err(error),
            Ok(rent) => if !rent.is_exempt(
                accounts[3].lamports,
                accounts[3].data.len() as usize,
            ) {
                Err(EscrowError::NotRentExempt)
            } else if EscrowView::decode_or_blank(accounts[3].data).is_initialized {
                Err(EscrowError::AccountAlreadyInitialized)
            } else if accounts[3].data.len() < 105 {
                Err(EscrowError::InvalidAccountData)
            } else {
                Ok(())
            },
        }
    }
}

/// The record that `InitEscrow` writes for the given accounts and amount.
pub open spec fn record_of(accounts: Seq<AccountView>, amount: u64) -> EscrowView {
    EscrowView {
        is_initialized: true,
        initializer_pubkey: accounts[0].key,
        temp_token_account_pubkey: accounts[1].key,
        initializer_token_to_receive_account_pubkey: accounts[2].key,
        expected_amount: amount,
    }
}

/// The accounts after `InitEscrow` has written its record: the first 105
/// bytes of the state account hold the record, and nothing else has changed.
pub open spec fn written(accounts: Seq<AccountView>, amount: u64) -> Seq<AccountView> {
    accounts.update(
        3,
        AccountView {
            data: record_of(accounts, amount).encode() + accounts[3].data.subrange(
                105,
                accounts[3].data.len() as int,
            ),
            ..accounts[3]
        },
    )
}

/// The request that hands the holding account to `authority`: the token
/// program is to make `authority` the owner of the holding account, on behalf
/// of the initializer, who signs. It takes the token program in its position
/// among the accounts.
pub open spec fn custody_transfer_to(accounts: Seq<AccountView>, authority: Seq<u8>) -> Result<
    InstructionView,
    EscrowError,
> {
    if accounts.len() < 6 {
        Err(EscrowError::NotEnoughAccountKeys)
    } else if accounts[5].key != token_program_bytes() {
        Err(EscrowError::IncorrectProgramId)
    } else {
        Ok(
            set_authority_request(
                accounts[5].key,
                accounts[1].key,
                Some(authority),
                AuthorityType::AccountOwner,
                accounts[0].key,
                seq![accounts[0].key],
            ),
        )
    }
}

/// The request that `InitEscrow` hands back once the record is written: the
/// custody transfer to the authority of the program `program_id`.
pub open spec fn custody_transfer(accounts: Seq<AccountView>, program_id: Seq<u8>) -> Result<
    InstructionView,
    EscrowError,
> {
    match authority_of(program_id) {
        None => Err(EscrowError::InvalidSeeds),
        Some(authority) => custody_transfer_to(accounts, authority),
    }
}

/// The initializer is there and has signed.
pub open spec fn signed(accounts: Seq<Account>) -> bool {
    accounts.len() >= 1 && accounts[0].is_signer
}

/// The initializer's receive account is there and belongs to the token
/// program.
pub open spec fn receives_tokens(accounts: Seq<Account>) -> bool {
    accounts.len() >= 3 && accounts[2].owner@ == token_program_bytes()
}

/// The rent parameters that came with the call, where the account in their
/// position holds them.
pub open spec fn rent_of(accounts: Seq<Account>) -> Option<RentView> {
    if accounts.len() >= 5 {
        match RentView::of_account(accounts[4]@) {
            Ok(rent) => Some(rent),
            Err(_) => None,
        }
    } else {
        None
    }
}

/// The rent parameters came with the call and the balance of the state
/// account exempts it from rent.
pub open spec fn rent_exempt(accounts: Seq<Account>) -> bool {
    rent_of(accounts) matches Some(rent) && rent.is_exempt(
        accounts[3].lamports,
        accounts[3].data@.len() as usize,
    )
}

/// The state account holds a whole record whose flag byte is 1.
pub open spec fn in_use(accounts: Seq<Account>) -> bool {
    accounts.len() >= 4 && accounts[3].data@.len() >= 105 && accounts[3].data@[0] == 1
}

/// The call is refused with `error` and has changed no account.
pub open spec fn refused(
    before: Seq<Account>,
    after: Seq<Account>,
    done: Result<Instruction, EscrowError>,
    error: EscrowError,
) -> bool {
    done == Err::<Instruction, EscrowError>(error) && after == before
}

/// What `InitEscrow` does to the accounts `before` and returns: a refusal and
/// the accounts as they were, or the accounts with the record written and
/// the custody transfer, which may itself be a refusal.
pub open spec fn init_escrow_holds(
    before: Seq<Account>,
    after: Seq<Account>,
    done: Result<Instruction, EscrowError>,
    amount: u64,
    program_id: Seq<u8>,
) -> bool {
    match admission(account_views(before)) {
        Err(error) => refused(before, after, done, error),
        Ok(_) => account_views(after) == written(account_views(before), amount) && request_view(
            done,
        ) == custody_transfer(account_views(before), program_id),
    }
}

/// Derives the address that takes authority over the holding accounts of the
/// program `program_id`, from the seed `escrow`.
pub fn derive_authority(program_id: &Address) -> (authority: Option<Address>)
    ensures
        match authority {
            Some(address) => authority_of(program_id@) == Some(address@),
            None => authority_of(program_id@) is None,
        },
{
    let seed: [u8; 6] = [101, 115, 99, 114, 111, 119];
    proof {
        assert(seed@ =~= authority_seed());
    }
    match try_find_program_address(seed.as_slice(), program_id) {
        Some((address, _)) => Some(address),
        None => None,
    }
}

/// The program's instruction processor.
pub struct Processor;

impl Processor {
    /// Decodes the instruction bytes and carries the instruction out.
    ///
    /// Bytes that are no instruction are refused before any account is looked
    /// at. For `InitEscrow` see `process_init_escrow`.
    pub fn process(
        program_id: &Address,
        accounts: &mut Vec<Account>,
        instruction_data: &[u8],
    ) -> (done: Result<Instruction, EscrowError>)
        ensures
            match instruction_of(instruction_data@) {
                Err(error) => refused(old(accounts)@, final(accounts)@, done, error),
                Ok(EscrowInstruction::InitEscrow { amount }) => init_escrow_holds(
                    old(accounts)@,
                    final(accounts)@,
                    done,
                    amount,
                    program_id@,
                ),
            },
    {
        match EscrowInstruction::unpack(instruction_data) {
            Err(error) => Err(error),
            Ok(EscrowInstruction::InitEscrow { amount }) => Processor::process_init_escrow(
                accounts,
                amount,
                program_id,
            ),
        }
    }

    /// Opens an escrow: checks the accounts, writes the record into the
    /// state account, and returns the request that hands the holding account
    /// to the program's authority.
    ///
    /// The accounts are read by position, and the first check that fails
    /// decides the error. Until every check of `admission` has passed nothing
    /// is written. After the write the call can still fail, where no
    /// authority can be derived or the token program is missing or is another
    /// program; the record then stands written, and it is for the ledger to
    /// undo the failed call.
    pub fn process_init_escrow(
        accounts: &mut Vec<Account>,
        amount: u64,
        program_id: &Address,
    ) -> (done: Result<Instruction, EscrowError>)
        ensures
            init_escrow_holds(old(accounts)@, final(accounts)@, done, amount, program_id@),
            in_use(old(accounts)@) ==> done is Err && final(accounts)@ == old(accounts)@,
            done is Ok ==> in_use(final(accounts)@) && EscrowView::decode(
                final(accounts)@[3].data@,
            ) == Ok::<EscrowView, EscrowError>(record_of(account_views(old(accounts)@), amount)),
            old(accounts)@.len() >= 1 && !old(accounts)@[0].is_signer ==> refused(
                old(accounts)@,
                final(accounts)@,
                done,
                EscrowError::MissingRequiredSignature,
            ),
            signed(old(accounts)@) && old(accounts)@.len() >= 3 && !receives_tokens(
                old(accounts)@,
            ) ==> refused(
                old(accounts)@,
                final(accounts)@,
                done,
                EscrowError::IncorrectProgramId,
            ),
            signed(old(accounts)@) && receives_tokens(old(accounts)@) && rent_of(
                old(accounts)@,
            ) is Some && !rent_exempt(old(accounts)@) ==> refused(
                old(accounts)@,
                final(accounts)@,
                done,
                EscrowError::NotRentExempt,
            ),
            signed(old(accounts)@) && receives_tokens(old(accounts)@) && rent_exempt(
                old(accounts)@,
            ) && in_use(old(accounts)@) ==> refused(
                old(accounts)@,
                final(accounts)@,
                done,
                EscrowError::AccountAlreadyInitialized,
            ),
    {
        let ghost before = account_views(accounts@);
        if accounts.len() < 1 {
            return Err(EscrowError::NotEnoughAccountKeys);
        }
        if !accounts[INITIALIZER].is_signer {
            return Err(EscrowError::MissingRequiredSignature);
        }
        if accounts.len() < 3 {
            return Err(EscrowError::NotEnoughAccountKeys);
        }
        if accounts[RECEIVE_ACCOUNT].owner != token_program_id() {
            return Err(EscrowError::IncorrectProgramId);
        }
        if accounts.len() < 5 {
            return Err(EscrowError::NotEnoughAccountKeys);
        }
        let rent = match Rent::from_account_info(&accounts[RENT_ACCOUNT]) {
            Ok(rent) => rent,
            Err(error) => {
                return Err(error);
            },
        };
        if !rent.is_exempt(accounts[ESCROW_ACCOUNT].lamports, accounts[ESCROW_ACCOUNT].data.len()) {
            return Err(EscrowError::NotRentExempt);
        }
        let mut escrow_info = Escrow::unpack_unchecked(accounts[ESCROW_ACCOUNT].data.as_slice());
        if escrow_info.is_initialized() {
            return Err(EscrowError::AccountAlreadyInitialized);
        }
        if accounts[ESCROW_ACCOUNT].data.len() < Escrow::LEN {
            return Err(EscrowError::InvalidAccountData);
        }
        escrow_info.is_initialized = true;
        escrow_info.initializer_pubkey = accounts[INITIALIZER].key;
        escrow_info.temp_token_account_pubkey = accounts[HOLDING_ACCOUNT].key;
        escrow_info.initializer_token_to_receive_account_pubkey = accounts[RECEIVE_ACCOUNT].key;
        escrow_info.expected_amount = amount;
        escrow_info.pack_into_slice(accounts[ESCROW_ACCOUNT].data.as_mut_slice());
        proof {
            assert(account_views(accounts@) =~= written(before, amount));
            lemma_decode_encode(
                record_of(before, amount),
                before[3].data.subrange(105, before[3].data.len() as int),
            );
        }
        match derive_authority(program_id) {
            Some(authority) => Processor::transfer_custody(accounts, &authority),
            None => Err(EscrowError::InvalidSeeds),
        }
    }

    /// Builds the request that hands the holding account to `authority`.
    ///
    /// Fails with `NotEnoughAccountKeys` where the call came with fewer than
    /// six accounts, and with `IncorrectProgramId` where the sixth is not the
    /// token program.
    pub fn transfer_custody(accounts: &Vec<Account>, authority: &Address) -> (built: Result<
        Instruction,
        EscrowError,
    >)
        ensures
            request_view(built) == custody_transfer_to(account_views(accounts@), authority@),
    {
        if accounts.len() < 6 {
            return Err(EscrowError::NotEnoughAccountKeys);
        }
        match set_authority(
            &accounts[TOKEN_PROGRAM].key,
            &accounts[HOLDING_ACCOUNT].key,
            Some(authority),
            AuthorityType::AccountOwner,
            &accounts[INITIALIZER].key,
            &accounts[INITIALIZER].key,
        ) {
            Ok(request) => Ok(request),
            Err(_) => Err(EscrowError::IncorrectProgramId),
        }
    }
}

} // verus!
