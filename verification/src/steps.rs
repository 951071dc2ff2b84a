//! The four delegated operations, each modelled on the ledger slice with the
//! exact conditions under which its delegate succeeds, the error it surfaces
//! otherwise, and its side effects. Each operation is atomic on its own: on
//! failure it leaves the ledger slice untouched.

use vstd::prelude::*;

use crate::addr::Address;
use crate::derivation::{derive_holding_address, derived_of};
use crate::error::{MintError, Step};
use crate::ledger::{HoldingRecord, Ledger, MintAccountState, MintRecord};

verus! {

/// Step 1 — account creation, delegated to the system allocator: fund the
/// mint address with `lamports` from the authority, allocate `space` bytes
/// there and assign the account to `owner`. Fails with `AllocationFailed` if
/// the authority did not sign, the address is already funded or occupied, or
/// the payer's balance is insufficient.
pub fn step_allocate(
    l: &mut Ledger,
    authority_signed: bool,
    lamports: u64,
    space: u64,
    owner: &Address,
) -> (r: Result<(), MintError>)
    ensures
        r is Ok <==> (authority_signed && old(l).mint.vacant() && old(l).authority_lamports
            >= lamports),
        r matches Err(e) ==> e == MintError::AllocationFailed && *final(l) == *old(l),
        r is Ok ==> final(l).authority_lamports == old(l).authority_lamports - lamports,
        r is Ok ==> final(l).mint == (MintAccountState {
            lamports: lamports,
            owner: Some(*owner),
            space: space,
            record: None,
        }),
        r is Ok ==> final(l).holding == old(l).holding,
        r is Ok ==> final(l).rent_exempt_minimum == old(l).rent_exempt_minimum,
{
    if !authority_signed || !l.mint.is_vacant() || l.authority_lamports < lamports {
        return Err(MintError::AllocationFailed);
    }
    l.authority_lamports = l.authority_lamports - lamports;
    l.mint.lamports = lamports;
    l.mint.owner = Some(*owner);
    l.mint.space = space;
    Ok(())
}

/// Step 2 — mint initialization, delegated to the token program: write the
/// mint record into the mint account and mark it initialized. Fails with
/// `NotOwnedByTokenProgram` if step 1's owner assignment did not take effect,
/// and with `AlreadyInitialized` if the record's initialized flag is already
/// set. It never succeeds unless the mint account is owned by the token
/// program.
pub fn step_initialize_mint(
    l: &mut Ledger,
    token_program: &Address,
    mint_authority: &Address,
    freeze_authority: Option<Address>,
    decimals: u8,
) -> (r: Result<(), MintError>)
    ensures
        r is Ok <==> (old(l).mint.owner == Some(*token_program) && old(l).mint.record is None),
        r is Ok ==> old(l).mint.owner == Some(*token_program),
        old(l).mint.owner != Some(*token_program) ==> r == Err::<(), MintError>(
            MintError::NotOwnedByTokenProgram,
        ),
        old(l).mint.owner == Some(*token_program) && old(l).mint.record is Some ==> r == Err::<
            (),
            MintError,
        >(MintError::AlreadyInitialized),
        r is Err ==> *final(l) == *old(l),
        r is Ok ==> final(l).mint == (MintAccountState {
            record: Some(MintRecord {
                supply: 0,
                decimals: decimals,
                mint_authority: *mint_authority,
                freeze_authority: freeze_authority,
            }),
            ..old(l).mint
        }),
        r is Ok ==> final(l).authority_lamports == old(l).authority_lamports && final(l).holding
            == old(l).holding && final(l).rent_exempt_minimum == old(l).rent_exempt_minimum,
{
    let owned_by_token_program = match &l.mint.owner {
        Some(current) => current.eq_addr(token_program),
        None => false,
    };
    if !owned_by_token_program {
        return Err(MintError::NotOwnedByTokenProgram);
    }
    if l.mint.record.is_some() {
        return Err(MintError::AlreadyInitialized);
    }
    l.mint.record = Some(
        MintRecord {
            supply: 0,
            decimals: decimals,
            mint_authority: *mint_authority,
            freeze_authority: freeze_authority,
        },
    );
    Ok(())
}

/// Step 3 — holding-account creation, delegated to the associated-account
/// program: create, at the address derived from the authority and the mint,
/// a holding account owned by the authority with zero balance. Fails with
/// `DerivationMismatch` if the supplied holding-account address is not the
/// derived one; succeeds as a no-op if the account already exists in the
/// correct (freshly created) state; surfaces a delegate failure if it exists
/// in any other state.
pub fn step_create_holding(
    l: &mut Ledger,
    authority: &Address,
    mint: &Address,
    holding: &Address,
) -> (r: Result<(), MintError>)
    ensures
        r is Ok <==> (holding@ == derived_of(authority@, mint@) && (old(l).holding.record is None
            || old(l).holding.record == Some(HoldingRecord {
            owner: *authority,
            mint: *mint,
            balance: 0,
        }))),
        holding@ != derived_of(authority@, mint@) ==> r == Err::<(), MintError>(
            MintError::DerivationMismatch,
        ),
        holding@ == derived_of(authority@, mint@) && !(old(l).holding.record is None || old(
            l,
        ).holding.record == Some(HoldingRecord { owner: *authority, mint: *mint, balance: 0 }))
            ==> r == Err::<(), MintError>(MintError::DelegateFailure(Step::CreateHolding)),
        r is Err ==> *final(l) == *old(l),
        r is Ok ==> final(l).holding.record == Some(HoldingRecord {
            owner: *authority,
            mint: *mint,
            balance: 0,
        }),
        r is Ok ==> final(l).authority_lamports == old(l).authority_lamports && final(l).mint
            == old(l).mint && final(l).rent_exempt_minimum == old(l).rent_exempt_minimum,
{
    let derived = derive_holding_address(authority, mint);
    if !holding.eq_addr(&derived) {
        return Err(MintError::DerivationMismatch);
    }
    match &l.holding.record {
        None => {},
        Some(existing) => {
            if !(existing.owner.eq_addr(authority) && existing.mint.eq_addr(mint)
                && existing.balance == 0) {
                return Err(MintError::DelegateFailure(Step::CreateHolding));
            }
        },
    }
    l.holding.record = Some(HoldingRecord { owner: *authority, mint: *mint, balance: 0 });
    Ok(())
}

/// Step 4 — mint-to, delegated to the token program: mint `amount` units to
/// the holding account, incrementing the mint's recorded supply and the
/// holding account's balance together. Fails with `AuthorityMismatch` if the
/// authority did not sign or is not the recorded mint authority, and with
/// `SupplyOverflow` if either counter would pass its maximum; surfaces a
/// delegate failure if the mint is uninitialized, the holding account is
/// missing, or it holds units of a different mint.
pub fn step_mint_to(
    l: &mut Ledger,
    authority_signed: bool,
    authority: &Address,
    mint: &Address,
    amount: u64,
) -> (r: Result<(), MintError>)
    ensures
        r is Ok <==> (old(l).mint.record matches Some(rec)
            && old(l).holding.record matches Some(h) && h.mint == *mint && authority_signed
            && rec.mint_authority == *authority && rec.supply + amount <= u64::MAX && h.balance
            + amount <= u64::MAX),
        r is Err ==> *final(l) == *old(l),
        !(old(l).mint.record matches Some(rec) && old(l).holding.record matches Some(h) && h.mint
            == *mint) ==> r == Err::<(), MintError>(MintError::DelegateFailure(Step::MintTo)),
        old(l).mint.record matches Some(rec) && old(l).holding.record matches Some(h) && h.mint
            == *mint && !(authority_signed && rec.mint_authority == *authority) ==> r == Err::<
            (),
            MintError,
        >(MintError::AuthorityMismatch),
        old(l).mint.record matches Some(rec) && old(l).holding.record matches Some(h) && h.mint
            == *mint && authority_signed && rec.mint_authority == *authority && (rec.supply
            + amount > u64::MAX || h.balance + amount > u64::MAX) ==> r == Err::<(), MintError>(
            MintError::SupplyOverflow,
        ),
        r is Ok ==> final(l).mint == (MintAccountState {
            record: Some(MintRecord {
                supply: (old(l).mint.record->Some_0.supply + amount) as u64,
                ..old(l).mint.record->Some_0
            }),
            ..old(l).mint
        }),
        r is Ok ==> final(l).holding.record == Some(HoldingRecord {
            balance: (old(l).holding.record->Some_0.balance + amount) as u64,
            ..old(l).holding.record->Some_0
        }),
        r is Ok ==> final(l).authority_lamports == old(l).authority_lamports
            && final(l).rent_exempt_minimum == old(l).rent_exempt_minimum,
{
    let rec = match &l.mint.record {
        Some(rec) => *rec,
        None => {
            return Err(MintError::DelegateFailure(Step::MintTo));
        },
    };
    let held = match &l.holding.record {
        Some(h) => *h,
        None => {
            return Err(MintError::DelegateFailure(Step::MintTo));
        },
    };
    if !held.mint.eq_addr(mint) {
        return Err(MintError::DelegateFailure(Step::MintTo));
    }
    if !authority_signed || !rec.mint_authority.eq_addr(authority) {
        return Err(MintError::AuthorityMismatch);
    }
    if amount > u64::MAX - rec.supply || amount > u64::MAX - held.balance {
        return Err(MintError::SupplyOverflow);
    }
    l.mint.record = Some(MintRecord { supply: rec.supply + amount, ..rec });
    l.holding.record = Some(HoldingRecord { balance: held.balance + amount, ..held });
    Ok(())
}

} // verus!
