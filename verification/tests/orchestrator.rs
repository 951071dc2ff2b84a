//! Runs of the modelled pipeline: success, every error, every injected
//! fault, and the invariants of the post-state.

use mint::addr::Address;
use mint::derivation::holding_address;
use mint::error::{MintError, Step};
use mint::ledger::{
    HoldingAccountState, HoldingRecord, Ledger, MintAccountState, MintRecord, MINT_ACCOUNT_SPACE,
};
use mint::orchestrator::process;
use mint::steps::{step_initialize_mint, step_mint_to};

const RENT_MINIMUM: u64 = 1_461_600;

fn addr(tag: u8) -> Address {
    Address([tag; 32])
}

fn authority() -> Address {
    addr(1)
}

fn mint_account() -> Address {
    addr(2)
}

fn token_program() -> Address {
    addr(5)
}

fn fresh_ledger() -> Ledger {
    Ledger {
        authority_lamports: 2_000_000,
        rent_exempt_minimum: RENT_MINIMUM,
        mint: MintAccountState { lamports: 0, owner: None, space: 0, record: None },
        holding: HoldingAccountState { record: None },
    }
}

fn account_list() -> Vec<Address> {
    vec![
        mint_account(),
        holding_address(&authority(), &mint_account()),
        authority(),
        addr(3),
        addr(4),
        token_program(),
        addr(6),
    ]
}

#[test]
fn end_to_end_success() {
    let mut ledger = fresh_ledger();
    let result = process(&account_list(), true, None, &mut ledger);
    assert_eq!(result, Ok(()));
    assert_eq!(ledger.authority_lamports, 2_000_000 - RENT_MINIMUM);
    assert_eq!(ledger.mint.lamports, RENT_MINIMUM);
    assert_eq!(ledger.mint.owner, Some(token_program()));
    assert_eq!(ledger.mint.space, MINT_ACCOUNT_SPACE);
    let record = ledger.mint.record.expect("the mint must be initialized");
    assert_eq!(record.supply, 1);
    assert_eq!(record.decimals, 0);
    assert_eq!(record.mint_authority, authority());
    assert_eq!(record.freeze_authority, Some(authority()));
    let held = ledger.holding.record.expect("the holding account must exist");
    assert_eq!(held.owner, authority());
    assert_eq!(held.mint, mint_account());
    assert_eq!(held.balance, 1);
}

#[test]
fn six_accounts_yield_missing_account() {
    let mut ledger = fresh_ledger();
    let before = ledger;
    let mut addrs = account_list();
    addrs.pop();
    let result = process(&addrs, true, None, &mut ledger);
    assert_eq!(result, Err(MintError::MissingAccount));
    assert_eq!(ledger, before);
}

#[test]
fn fault_at_allocate_leaves_ledger_unchanged() {
    let mut ledger = fresh_ledger();
    let before = ledger;
    let result = process(&account_list(), true, Some(Step::Allocate), &mut ledger);
    assert_eq!(result, Err(MintError::DelegateFailure(Step::Allocate)));
    assert_eq!(ledger, before);
}

#[test]
fn fault_at_initialize_mint_leaves_ledger_unchanged() {
    let mut ledger = fresh_ledger();
    let before = ledger;
    let result = process(&account_list(), true, Some(Step::InitializeMint), &mut ledger);
    assert_eq!(result, Err(MintError::DelegateFailure(Step::InitializeMint)));
    assert_eq!(ledger, before);
}

#[test]
fn fault_at_create_holding_leaves_ledger_unchanged() {
    let mut ledger = fresh_ledger();
    let before = ledger;
    let result = process(&account_list(), true, Some(Step::CreateHolding), &mut ledger);
    assert_eq!(result, Err(MintError::DelegateFailure(Step::CreateHolding)));
    assert_eq!(ledger, before);
}

#[test]
fn fault_at_mint_to_leaves_ledger_unchanged() {
    let mut ledger = fresh_ledger();
    let before = ledger;
    let result = process(&account_list(), true, Some(Step::MintTo), &mut ledger);
    assert_eq!(result, Err(MintError::DelegateFailure(Step::MintTo)));
    assert_eq!(ledger, before);
}

#[test]
fn unsigned_authority_fails_allocation() {
    let mut ledger = fresh_ledger();
    let before = ledger;
    let result = process(&account_list(), false, None, &mut ledger);
    assert_eq!(result, Err(MintError::AllocationFailed));
    assert_eq!(ledger, before);
}

#[test]
fn insufficient_balance_fails_allocation() {
    let mut ledger = fresh_ledger();
    ledger.authority_lamports = RENT_MINIMUM - 1;
    let before = ledger;
    let result = process(&account_list(), true, None, &mut ledger);
    assert_eq!(result, Err(MintError::AllocationFailed));
    assert_eq!(ledger, before);
}

#[test]
fn occupied_mint_address_fails_allocation() {
    let mut ledger = fresh_ledger();
    ledger.mint.lamports = 1;
    let before = ledger;
    let result = process(&account_list(), true, None, &mut ledger);
    assert_eq!(result, Err(MintError::AllocationFailed));
    assert_eq!(ledger, before);
}

#[test]
fn wrong_holding_address_fails_derivation() {
    let mut ledger = fresh_ledger();
    let before = ledger;
    let mut addrs = account_list();
    addrs[1] = addr(9);
    let result = process(&addrs, true, None, &mut ledger);
    assert_eq!(result, Err(MintError::DerivationMismatch));
    assert_eq!(ledger, before);
}

#[test]
fn fresh_preexisting_holding_account_is_reused() {
    let mut ledger = fresh_ledger();
    ledger.holding.record = Some(HoldingRecord {
        owner: authority(),
        mint: mint_account(),
        balance: 0,
    });
    let result = process(&account_list(), true, None, &mut ledger);
    assert_eq!(result, Ok(()));
    assert_eq!(ledger.holding.record.unwrap().balance, 1);
    assert_eq!(ledger.mint.record.unwrap().supply, 1);
}

#[test]
fn incompatible_preexisting_holding_account_fails() {
    let mut ledger = fresh_ledger();
    ledger.holding.record = Some(HoldingRecord {
        owner: addr(9),
        mint: mint_account(),
        balance: 0,
    });
    let before = ledger;
    let result = process(&account_list(), true, None, &mut ledger);
    assert_eq!(result, Err(MintError::DelegateFailure(Step::CreateHolding)));
    assert_eq!(ledger, before);
}

#[test]
fn derivation_is_idempotent() {
    let first = holding_address(&authority(), &mint_account());
    let second = holding_address(&authority(), &mint_account());
    assert_eq!(first, second);
    assert_ne!(first, authority());
    assert_ne!(first, mint_account());
}

#[test]
fn initialize_mint_requires_token_program_ownership() {
    let mut ledger = fresh_ledger();
    ledger.mint.lamports = RENT_MINIMUM;
    ledger.mint.owner = Some(addr(9));
    ledger.mint.space = MINT_ACCOUNT_SPACE;
    let before = ledger;
    let result = step_initialize_mint(&mut ledger, &token_program(), &authority(), None, 0);
    assert_eq!(result, Err(MintError::NotOwnedByTokenProgram));
    assert_eq!(ledger, before);
}

#[test]
fn initialize_mint_rejects_initialized_record() {
    let mut ledger = fresh_ledger();
    ledger.mint.owner = Some(token_program());
    ledger.mint.record = Some(MintRecord {
        supply: 0,
        decimals: 0,
        mint_authority: authority(),
        freeze_authority: None,
    });
    let before = ledger;
    let result = step_initialize_mint(&mut ledger, &token_program(), &authority(), None, 0);
    assert_eq!(result, Err(MintError::AlreadyInitialized));
    assert_eq!(ledger, before);
}

#[test]
fn initialize_mint_records_given_fields() {
    let mut ledger = fresh_ledger();
    ledger.mint.owner = Some(token_program());
    let result = step_initialize_mint(&mut ledger, &token_program(), &authority(), Some(addr(7)), 5);
    assert_eq!(result, Ok(()));
    let record = ledger.mint.record.unwrap();
    assert_eq!(record.supply, 0);
    assert_eq!(record.decimals, 5);
    assert_eq!(record.mint_authority, authority());
    assert_eq!(record.freeze_authority, Some(addr(7)));
}

#[test]
fn mint_to_rejects_wrong_authority() {
    let mut ledger = minted_ready_ledger();
    let before = ledger;
    let result = step_mint_to(&mut ledger, true, &addr(9), &mint_account(), 1);
    assert_eq!(result, Err(MintError::AuthorityMismatch));
    assert_eq!(ledger, before);
}

#[test]
fn mint_to_rejects_missing_signature() {
    let mut ledger = minted_ready_ledger();
    let before = ledger;
    let result = step_mint_to(&mut ledger, false, &authority(), &mint_account(), 1);
    assert_eq!(result, Err(MintError::AuthorityMismatch));
    assert_eq!(ledger, before);
}

#[test]
fn mint_to_rejects_supply_overflow() {
    let mut ledger = minted_ready_ledger();
    if let Some(record) = ledger.mint.record.as_mut() {
        record.supply = u64::MAX;
    }
    let before = ledger;
    let result = step_mint_to(&mut ledger, true, &authority(), &mint_account(), 1);
    assert_eq!(result, Err(MintError::SupplyOverflow));
    assert_eq!(ledger, before);
}

#[test]
fn mint_to_rejects_uninitialized_mint() {
    let mut ledger = fresh_ledger();
    let before = ledger;
    let result = step_mint_to(&mut ledger, true, &authority(), &mint_account(), 1);
    assert_eq!(result, Err(MintError::DelegateFailure(Step::MintTo)));
    assert_eq!(ledger, before);
}

#[test]
fn mint_to_adds_the_given_amount() {
    let mut ledger = minted_ready_ledger();
    let result = step_mint_to(&mut ledger, true, &authority(), &mint_account(), 3);
    assert_eq!(result, Ok(()));
    assert_eq!(ledger.mint.record.unwrap().supply, 3);
    assert_eq!(ledger.holding.record.unwrap().balance, 3);
}

fn minted_ready_ledger() -> Ledger {
    Ledger {
        authority_lamports: 2_000_000 - RENT_MINIMUM,
        rent_exempt_minimum: RENT_MINIMUM,
        mint: MintAccountState {
            lamports: RENT_MINIMUM,
            owner: Some(token_program()),
            space: MINT_ACCOUNT_SPACE,
            record: Some(MintRecord {
                supply: 0,
                decimals: 0,
                mint_authority: authority(),
                freeze_authority: Some(authority()),
            }),
        },
        holding: HoldingAccountState {
            record: Some(HoldingRecord { owner: authority(), mint: mint_account(), balance: 0 }),
        },
    }
}
