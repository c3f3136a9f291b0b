use escrow::account::Account;
use escrow::address::Address;
use escrow::error::EscrowError;
use escrow::processor::{derive_authority, Processor};
use escrow::token::{AccountMeta, Instruction};

const AMOUNT: u64 = 1000;

fn key(byte: u8) -> Address {
    Address::new_from_array([byte; 32])
}

fn token_program() -> Address {
    Address::new_from_array(spl_token::id().to_bytes())
}

fn program_id() -> Address {
    key(42)
}

fn plain(address: Address) -> Account {
    Account { key: address, owner: key(0), is_signer: false, lamports: 0, data: Vec::new() }
}

fn rent_account() -> Account {
    let mut data = 6960u64.to_le_bytes().to_vec();
    data.extend_from_slice(&1f64.to_le_bytes());
    data.push(50);
    Account {
        key: Address::new_from_array(solana_program::sysvar::rent::id().to_bytes()),
        owner: key(0),
        is_signer: false,
        lamports: 1,
        data,
    }
}

/// The accounts of a call that succeeds: A signs, H holds, R receives, E is
/// zeroed and rent-exempt.
fn good_accounts() -> Vec<Account> {
    let mut initializer = plain(key(1));
    initializer.is_signer = true;
    let holding = plain(key(2));
    let mut receive = plain(key(3));
    receive.owner = token_program();
    let mut state = plain(key(4));
    state.owner = program_id();
    state.lamports = 1_621_680;
    state.data = vec![0u8; 105];
    vec![initializer, holding, receive, state, rent_account(), plain(token_program())]
}

fn expected_record() -> Vec<u8> {
    let mut bytes = vec![1u8];
    bytes.extend_from_slice(&[1u8; 32]);
    bytes.extend_from_slice(&[2u8; 32]);
    bytes.extend_from_slice(&[3u8; 32]);
    bytes.extend_from_slice(&[232, 3, 0, 0, 0, 0, 0, 0]);
    bytes
}

fn ledger_authority() -> Address {
    let program = solana_program::pubkey::Pubkey::new_from_array(program_id().to_bytes());
    let (address, _) = solana_program::pubkey::Pubkey::find_program_address(&[b"escrow"], &program);
    Address::new_from_array(address.to_bytes())
}

fn run(accounts: &mut Vec<Account>) -> Result<Instruction, EscrowError> {
    Processor::process_init_escrow(accounts, AMOUNT, &program_id())
}

fn refused_unchanged(mut accounts: Vec<Account>, error: EscrowError) {
    let before = accounts.clone();
    assert_eq!(run(&mut accounts), Err(error));
    assert_eq!(accounts, before);
}

#[test]
fn the_token_program_has_the_known_address() {
    let expected = [
        6u8, 221, 246, 225, 215, 101, 161, 147, 217, 203, 225, 70, 206, 235, 121, 172, 28, 180,
        133, 237, 95, 91, 55, 145, 58, 140, 245, 133, 126, 255, 0, 169,
    ];
    assert_eq!(token_program().to_bytes(), expected);
}

#[test]
fn init_escrow_writes_the_record_and_asks_for_the_transfer() {
    let mut accounts = good_accounts();
    let before = accounts.clone();
    let request = run(&mut accounts).unwrap();

    assert_eq!(accounts[3].data, expected_record());
    for position in [0usize, 1, 2, 4, 5] {
        assert_eq!(accounts[position], before[position]);
    }
    assert_eq!(accounts[3].key, before[3].key);
    assert_eq!(accounts[3].owner, before[3].owner);
    assert_eq!(accounts[3].lamports, before[3].lamports);

    let authority = ledger_authority();
    let mut data = vec![6u8, 2, 1];
    data.extend_from_slice(&authority.to_bytes());
    assert_eq!(
        request,
        Instruction {
            program_id: token_program(),
            accounts: vec![
                AccountMeta { pubkey: key(2), is_signer: false, is_writable: true },
                AccountMeta { pubkey: key(1), is_signer: false, is_writable: false },
                AccountMeta { pubkey: key(1), is_signer: true, is_writable: false },
            ],
            data,
        }
    );
}

#[test]
fn the_request_is_the_one_the_token_program_builds() {
    let mut accounts = good_accounts();
    let request = run(&mut accounts).unwrap();
    let initializer = solana_program::pubkey::Pubkey::new_from_array([1u8; 32]);
    let holding = solana_program::pubkey::Pubkey::new_from_array([2u8; 32]);
    let authority = solana_program::pubkey::Pubkey::new_from_array(ledger_authority().to_bytes());
    let theirs = spl_token::instruction::set_authority(
        &spl_token::id(),
        &holding,
        Some(&authority),
        spl_token::instruction::AuthorityType::AccountOwner,
        &initializer,
        &[&initializer],
    )
    .unwrap();
    assert_eq!(request.program_id.to_bytes(), theirs.program_id.to_bytes());
    assert_eq!(request.data, theirs.data);
    assert_eq!(request.accounts.len(), theirs.accounts.len());
    for (ours, other) in request.accounts.iter().zip(theirs.accounts.iter()) {
        assert_eq!(ours.pubkey.to_bytes(), other.pubkey.to_bytes());
        assert_eq!(ours.is_signer, other.is_signer);
        assert_eq!(ours.is_writable, other.is_writable);
    }
}

#[test]
fn the_authority_is_derived_from_the_seed_and_the_program() {
    let authority = derive_authority(&program_id()).unwrap();
    assert_eq!(authority, ledger_authority());
    assert_ne!(authority, program_id());
    assert_eq!(derive_authority(&program_id()), Some(authority));
    assert_ne!(derive_authority(&key(43)), Some(authority));
    let point = solana_program::pubkey::Pubkey::new_from_array(authority.to_bytes());
    assert!(!point.is_on_curve());
}

#[test]
fn init_escrow_keeps_the_bytes_after_the_record() {
    let mut accounts = good_accounts();
    accounts[3].data = vec![0u8; 105];
    accounts[3].data.extend_from_slice(&[7, 8, 9]);
    accounts[3].lamports = 10_000_000;
    assert!(run(&mut accounts).is_ok());
    assert_eq!(&accounts[3].data[..105], &expected_record()[..]);
    assert_eq!(&accounts[3].data[105..], &[7u8, 8, 9][..]);
}

#[test]
fn init_escrow_overwrites_bytes_that_are_no_record() {
    let mut accounts = good_accounts();
    accounts[3].data = vec![2u8; 105];
    assert!(run(&mut accounts).is_ok());
    assert_eq!(accounts[3].data, expected_record());
}

#[test]
fn init_escrow_needs_the_initializer() {
    refused_unchanged(Vec::new(), EscrowError::NotEnoughAccountKeys);
}

#[test]
fn init_escrow_needs_the_initializers_signature() {
    let mut accounts = good_accounts();
    accounts[0].is_signer = false;
    refused_unchanged(accounts, EscrowError::MissingRequiredSignature);
}

#[test]
fn the_signature_is_checked_before_anything_else() {
    let mut lone = plain(key(1));
    refused_unchanged(vec![lone.clone()], EscrowError::MissingRequiredSignature);
    lone.is_signer = true;
    refused_unchanged(vec![lone], EscrowError::NotEnoughAccountKeys);

    let mut accounts = good_accounts();
    accounts[0].is_signer = false;
    accounts[2].owner = key(9);
    accounts[3].data[0] = 1;
    refused_unchanged(accounts, EscrowError::MissingRequiredSignature);
}

#[test]
fn init_escrow_needs_a_receive_account_of_the_token_program() {
    let mut accounts = good_accounts();
    accounts[2].owner = key(9);
    refused_unchanged(accounts, EscrowError::IncorrectProgramId);
    let mut accounts = good_accounts();
    accounts.truncate(2);
    refused_unchanged(accounts, EscrowError::NotEnoughAccountKeys);
}

#[test]
fn init_escrow_needs_the_rent_parameters() {
    let mut accounts = good_accounts();
    accounts.truncate(4);
    refused_unchanged(accounts, EscrowError::NotEnoughAccountKeys);
    let mut accounts = good_accounts();
    accounts.truncate(3);
    refused_unchanged(accounts, EscrowError::NotEnoughAccountKeys);
    let mut accounts = good_accounts();
    accounts[4].key = key(8);
    refused_unchanged(accounts, EscrowError::InvalidArgument);
    let mut accounts = good_accounts();
    accounts[4].data.truncate(16);
    refused_unchanged(accounts, EscrowError::InvalidArgument);
}

#[test]
fn init_escrow_needs_a_rent_exempt_state_account() {
    let mut accounts = good_accounts();
    accounts[3].lamports = 1_621_679;
    refused_unchanged(accounts, EscrowError::NotRentExempt);
    let mut accounts = good_accounts();
    accounts[3].lamports = 0;
    accounts[3].data[0] = 1;
    refused_unchanged(accounts, EscrowError::NotRentExempt);
}

#[test]
fn init_escrow_refuses_a_state_account_in_use() {
    let mut accounts = good_accounts();
    accounts[3].data[0] = 1;
    refused_unchanged(accounts, EscrowError::AccountAlreadyInitialized);
    let mut accounts = good_accounts();
    let mut first = good_accounts();
    assert!(run(&mut first).is_ok());
    accounts[3].data = first[3].data.clone();
    refused_unchanged(accounts, EscrowError::AccountAlreadyInitialized);
}

#[test]
fn init_escrow_needs_room_for_the_record() {
    let mut accounts = good_accounts();
    accounts[3].data = vec![0u8; 104];
    refused_unchanged(accounts, EscrowError::InvalidAccountData);
    let mut accounts = good_accounts();
    accounts[3].data = vec![1u8];
    refused_unchanged(accounts, EscrowError::InvalidAccountData);
}

#[test]
fn init_escrow_needs_the_token_program() {
    let mut accounts = good_accounts();
    accounts.truncate(5);
    assert_eq!(run(&mut accounts), Err(EscrowError::NotEnoughAccountKeys));
    assert_eq!(accounts[3].data, expected_record());

    let mut accounts = good_accounts();
    accounts[5].key = key(6);
    assert_eq!(run(&mut accounts), Err(EscrowError::IncorrectProgramId));
    assert_eq!(accounts[3].data, expected_record());
}

#[test]
fn process_decodes_and_carries_out() {
    let mut accounts = good_accounts();
    let input = [0u8, 232, 3, 0, 0, 0, 0, 0, 0];
    let request = Processor::process(&program_id(), &mut accounts, &input).unwrap();
    assert_eq!(accounts[3].data, expected_record());
    assert_eq!(request.program_id, token_program());
    let mut again = good_accounts();
    assert_eq!(run(&mut again), Ok(request));
    assert_eq!(again, accounts);
}

#[test]
fn process_refuses_bad_bytes_before_it_looks_at_accounts() {
    let mut accounts = good_accounts();
    let before = accounts.clone();
    assert_eq!(
        Processor::process(&program_id(), &mut accounts, &[5u8]),
        Err(EscrowError::InvalidInstruction)
    );
    assert_eq!(accounts, before);
    let mut none: Vec<Account> = Vec::new();
    assert_eq!(
        Processor::process(&program_id(), &mut none, &[0u8, 1, 2]),
        Err(EscrowError::InvalidInstruction)
    );
    assert_eq!(
        Processor::process(&program_id(), &mut none, &[0u8, 1, 0, 0, 0, 0, 0, 0, 0]),
        Err(EscrowError::NotEnoughAccountKeys)
    );
}
