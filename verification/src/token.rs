//! What the escrow asks of the token program: its identity, and the request
//! that changes who has authority over a token account.

use crate::address::Address;
use spl_token::instruction::{set_authority as token_set_authority, AuthorityType as TokenAuthority};
use vstd::prelude::*;

verus! {

/// The failure type of the ledger's programs. Nothing is read from it here.
#[verifier::external_type_specification]
#[verifier::external_body]
pub struct ExProgramError(solana_program::program_error::ProgramError);

/// The bytes of the token program's address,
/// `TokenkegQfeZyiNwAJbNbGKPFXCWuBvf9Ss623VQ5DA` in base 58.
pub open spec fn token_program_bytes() -> Seq<u8> {
    seq![
        6u8, 221, 246, 225, 215, 101, 161, 147, 217, 203, 225, 70, 206, 235, 121, 172,
        28, 180, 133, 237, 95, 91, 55, 145, 58, 140, 245, 133, 126, 255, 0, 169,
    ]
}

/// Which authority over a mint or a token account a request changes.
#[derive(Clone, Copy, Debug, PartialEq, Eq)]
pub enum AuthorityType {
    /// Authority to mint new tokens.
    MintTokens,
    /// Authority to freeze any account of a mint.
    FreezeAccount,
    /// Owner of a token account.
    AccountOwner,
    /// Authority to close a token account.
    CloseAccount,
}

impl AuthorityType {
    /// The byte that stands for the authority type in a request.
    pub open spec fn code(self) -> u8 {
        match self {
            AuthorityType::MintTokens => 0,
            AuthorityType::FreezeAccount => 1,
            AuthorityType::AccountOwner => 2,
            AuthorityType::CloseAccount => 3,
        }
    }
}

/// An account that a request names, and how the request uses it.
#[derive(Clone, Copy, Debug, PartialEq, Eq)]
pub struct AccountMeta {
    pub pubkey: Address,
    pub is_signer: bool,
    pub is_writable: bool,
}

/// An `AccountMeta` with the address as its byte string.
pub struct AccountMetaView {
    pub pubkey: Seq<u8>,
    pub is_signer: bool,
    pub is_writable: bool,
}

impl View for AccountMeta {
    type V = AccountMetaView;

    open spec fn view(&self) -> AccountMetaView {
        AccountMetaView {
            pubkey: self.pubkey@,
            is_signer: self.is_signer,
            is_writable: self.is_writable,
        }
    }
}

/// A request to another program: whom it is for, the accounts it names, and
/// its bytes.
#[derive(Clone, Debug, PartialEq, Eq)]
pub struct Instruction {
    pub program_id: Address,
    pub accounts: Vec<AccountMeta>,
    pub data: Vec<u8>,
}

/// An `Instruction` as a mathematical value.
pub struct InstructionView {
    pub program_id: Seq<u8>,
    pub accounts: Seq<AccountMetaView>,
    pub data: Seq<u8>,
}

impl View for Instruction {
    type V = InstructionView;

    open spec fn view(&self) -> InstructionView {
        InstructionView {
            program_id: self.program_id@,
            accounts: self.accounts@.map_values(|meta: AccountMeta| meta@),
            data: self.data@,
        }
    }
}

/// The request that sets the authority of kind `authority_type` over the
/// account or mint `owned` to `new_authority`, asked for by `owner`.
///
/// The request names `owned` as writable, then `owner`, who signs where no
/// other signers are given, then each of `signers` as a signer. Its bytes are
/// the tag 6, the code of the authority type, and the new authority as an
/// option: 1 and the address, or 0 alone.
pub open spec fn set_authority_request(
    token_program: Seq<u8>,
    owned: Seq<u8>,
    new_authority: Option<Seq<u8>>,
    authority_type: AuthorityType,
    owner: Seq<u8>,
    signers: Seq<Seq<u8>>,
) -> InstructionView {
    InstructionView {
        program_id: token_program,
        accounts: seq![
            AccountMetaView { pubkey: owned, is_signer: false, is_writable: true },
            AccountMetaView { pubkey: owner, is_signer: signers.len() == 0, is_writable: false },
        ] + signers.map_values(
            |signer: Seq<u8>| AccountMetaView { pubkey: signer, is_signer: true, is_writable: false },
        ),
        data: seq![6u8, authority_type.code()] + match new_authority {
            Some(address) => seq![1u8] + address,
            None => seq![0u8],
        },
    }
}

/// The address of the token program.
///
/// Trusted: calls `spl_token::id` and claims that it returns the address
/// whose bytes are `token_program_bytes()`.
#[verifier::external_body]
pub(crate) fn token_program_id() -> (id: Address)
    ensures
        id@ == token_program_bytes(),
{
    Address { bytes: spl_token::id().to_bytes() }
}

/// Builds a request to the token program that sets an authority and that
/// one party signs.
///
/// Trusted: calls `spl_token::instruction::set_authority` with `signer` as
/// its only signer, and claims that it fails exactly where `token_program` is
/// not the token program's address, and otherwise returns the request
/// described by `set_authority_request`.
#[verifier::external_body]
pub(crate) fn set_authority(
    token_program: &Address,
    owned: &Address,
    new_authority: Option<&Address>,
    authority_type: AuthorityType,
    owner: &Address,
    signer: &Address,
) -> (built: Result<Instruction, solana_program::program_error::ProgramError>)
    ensures
        built is Ok <==> token_program@ == token_program_bytes(),
        built matches Ok(request) ==> request@ == set_authority_request(
            token_program@,
            owned@,
            match new_authority {
                Some(address) => Some(address@),
                None => None,
            },
            authority_type,
            owner@,
            seq![signer@],
        ),
{
    let kind = match authority_type {
        AuthorityType::MintTokens => TokenAuthority::MintTokens,
        AuthorityType::FreezeAccount => TokenAuthority::FreezeAccount,
        AuthorityType::AccountOwner => TokenAuthority::AccountOwner,
        AuthorityType::CloseAccount => TokenAuthority::CloseAccount,
    };
    token_set_authority(&token_program.bytes.into(), &owned.bytes.into(),
        new_authority.map(|a| a.bytes.into()).as_ref(), kind, &owner.bytes.into(), &[&signer.bytes.into()])
    .map(|ix| Instruction {
        program_id: Address { bytes: ix.program_id.to_bytes() },
        accounts: ix.accounts.iter().map(|m| AccountMeta {
            pubkey: Address { bytes: m.pubkey.to_bytes() }, is_signer: m.is_signer, is_writable: m.is_writable }).collect(),
        data: ix.data,
    })
}

} // verus!
