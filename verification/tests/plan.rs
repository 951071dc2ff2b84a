//! The built instructions and the account wiring of each prepared step,
//! checked against the collaborating programs' own builders.

use mint::addr::Address;
use mint::derivation::holding_address;
use mint::error::{MintError, Step};
use mint::orchestrator::AccountSet;
use mint::plan::{
    prepare_allocate, prepare_create_holding, prepare_initialize_mint, prepare_mint_to,
};

fn addr(tag: u8) -> Address {
    Address([tag; 32])
}

fn token_program_id() -> Address {
    Address(spl_token::id().to_bytes())
}

fn accounts() -> AccountSet {
    AccountSet {
        mint: addr(2),
        holding: holding_address(&addr(1), &addr(2)),
        authority: addr(1),
        rent: Address(solana_program::sysvar::rent::id().to_bytes()),
        system_program: Address(solana_program::system_program::id().to_bytes()),
        token_program: token_program_id(),
        associated_token_program: Address(spl_associated_token_account::id().to_bytes()),
    }
}

#[test]
fn allocate_instruction_lists_payer_and_mint() {
    let accounts = accounts();
    let prepared = prepare_allocate(&accounts, 1_461_600);
    assert_eq!(prepared.account_positions, vec![0, 2, 5]);
    assert_eq!(prepared.instruction.program, accounts.system_program);
    assert_eq!(prepared.instruction.accounts.len(), 2);
    assert_eq!(prepared.instruction.accounts[0].address, accounts.authority);
    assert!(prepared.instruction.accounts[0].is_signer);
    assert!(prepared.instruction.accounts[0].is_writable);
    assert_eq!(prepared.instruction.accounts[1].address, accounts.mint);
    assert!(prepared.instruction.accounts[1].is_signer);
    assert!(prepared.instruction.accounts[1].is_writable);
    let data = &prepared.instruction.data;
    assert_eq!(data.len(), 52);
    assert_eq!(&data[0..4], &[0, 0, 0, 0]);
    assert_eq!(&data[4..12], &1_461_600u64.to_le_bytes());
    assert_eq!(&data[12..20], &82u64.to_le_bytes());
    assert_eq!(&data[20..52], &accounts.token_program.0);
}

#[test]
fn initialize_mint_instruction_encodes_fixed_parameters() {
    let accounts = accounts();
    let prepared = prepare_initialize_mint(&accounts).expect("the canonical token program id");
    assert_eq!(prepared.account_positions, vec![0, 2, 5, 3]);
    assert_eq!(prepared.instruction.program, accounts.token_program);
    assert_eq!(prepared.instruction.accounts.len(), 2);
    assert_eq!(prepared.instruction.accounts[0].address, accounts.mint);
    assert!(!prepared.instruction.accounts[0].is_signer);
    assert!(prepared.instruction.accounts[0].is_writable);
    assert_eq!(prepared.instruction.accounts[1].address, accounts.rent);
    assert!(!prepared.instruction.accounts[1].is_signer);
    assert!(!prepared.instruction.accounts[1].is_writable);
    let data = &prepared.instruction.data;
    assert_eq!(data.len(), 67);
    assert_eq!(data[0], 0);
    assert_eq!(data[1], 0);
    assert_eq!(&data[2..34], &accounts.authority.0);
    assert_eq!(data[34], 1);
    assert_eq!(&data[35..67], &accounts.authority.0);
}

#[test]
fn initialize_mint_rejects_unknown_token_program() {
    let mut accounts = accounts();
    accounts.token_program = addr(9);
    let result = prepare_initialize_mint(&accounts);
    assert_eq!(result, Err(MintError::DelegateFailure(Step::InitializeMint)));
}

#[test]
fn create_holding_instruction_lists_derived_address() {
    let accounts = accounts();
    let prepared = prepare_create_holding(&accounts);
    assert_eq!(prepared.account_positions, vec![0, 1, 2, 5, 6]);
    assert_eq!(prepared.instruction.program, accounts.associated_token_program);
    assert_eq!(prepared.instruction.accounts.len(), 6);
    assert_eq!(prepared.instruction.accounts[0].address, accounts.authority);
    assert!(prepared.instruction.accounts[0].is_signer);
    assert!(prepared.instruction.accounts[0].is_writable);
    assert_eq!(prepared.instruction.accounts[1].address, accounts.holding);
    assert!(!prepared.instruction.accounts[1].is_signer);
    assert!(prepared.instruction.accounts[1].is_writable);
    assert_eq!(prepared.instruction.accounts[2].address, accounts.authority);
    assert_eq!(prepared.instruction.accounts[3].address, accounts.mint);
    assert_eq!(prepared.instruction.accounts[4].address, accounts.system_program);
    assert_eq!(prepared.instruction.accounts[5].address, accounts.token_program);
}

#[test]
fn mint_to_instruction_encodes_one_unit() {
    let accounts = accounts();
    let prepared = prepare_mint_to(&accounts).expect("the canonical token program id");
    assert_eq!(prepared.account_positions, vec![0, 2, 1, 5, 3]);
    assert_eq!(prepared.instruction.program, accounts.token_program);
    assert_eq!(prepared.instruction.accounts.len(), 4);
    assert_eq!(prepared.instruction.accounts[0].address, accounts.mint);
    assert!(prepared.instruction.accounts[0].is_writable);
    assert_eq!(prepared.instruction.accounts[1].address, accounts.holding);
    assert!(prepared.instruction.accounts[1].is_writable);
    assert_eq!(prepared.instruction.accounts[2].address, accounts.authority);
    assert!(!prepared.instruction.accounts[2].is_signer);
    assert_eq!(prepared.instruction.accounts[3].address, accounts.authority);
    assert!(prepared.instruction.accounts[3].is_signer);
    assert!(!prepared.instruction.accounts[3].is_writable);
    assert_eq!(prepared.instruction.data, vec![7, 1, 0, 0, 0, 0, 0, 0, 0]);
}

#[test]
fn mint_to_rejects_unknown_token_program() {
    let mut accounts = accounts();
    accounts.token_program = addr(9);
    let result = prepare_mint_to(&accounts);
    assert_eq!(result, Err(MintError::DelegateFailure(Step::MintTo)));
}
