//! The pipeline itself: bind the seven accounts, drive the four delegated
//! operations in order, stop at the first failure, and leave the ledger
//! untouched unless every step succeeded.

use vstd::prelude::*;

use crate::addr::Address;
use crate::derivation::derived_of;
use crate::error::{MintError, Step};
use crate::ledger::{
    HoldingAccountState, HoldingRecord, Ledger, MintAccountState, MintRecord, MINT_ACCOUNT_SPACE,
};
use crate::steps;

verus! {

/// The seven accounts of an invocation, bound by position: mint, holding
/// account, authority, rent sysvar, system allocator, token program,
/// associated-account program.
#[derive(Clone, Copy, Debug, PartialEq, Eq)]
pub struct AccountSet {
    /// Position 0: the account to become the mint.
    pub mint: Address,
    /// Position 1: the account to hold the minted unit.
    pub holding: Address,
    /// Position 2: the signing, paying authority.
    pub authority: Address,
    /// Position 3: the rent sysvar.
    pub rent: Address,
    /// Position 4: the system allocator program.
    pub system_program: Address,
    /// Position 5: the token program.
    pub token_program: Address,
    /// Position 6: the associated-account program.
    pub associated_token_program: Address,
}

/// The account set that a supplied account list binds, position by position.
pub open spec fn bound_set(addrs: Seq<Address>) -> AccountSet {
    AccountSet {
        mint: addrs[0],
        holding: addrs[1],
        authority: addrs[2],
        rent: addrs[3],
        system_program: addrs[4],
        token_program: addrs[5],
        associated_token_program: addrs[6],
    }
}

/// Destructure the supplied account list positionally. No semantic check of
/// identity or ownership happens here: that validation is deferred to the
/// delegated programs, which already enforce it authoritatively.
pub fn bind_accounts(addrs: &Vec<Address>) -> (r: Result<AccountSet, MintError>)
    ensures
        r is Ok <==> addrs@.len() >= 7,
        r matches Err(e) ==> e == MintError::MissingAccount,
        r matches Ok(s) ==> s == bound_set(addrs@),
{
    if addrs.len() < 7 {
        return Err(MintError::MissingAccount);
    }
    Ok(
        AccountSet {
            mint: addrs[0],
            holding: addrs[1],
            authority: addrs[2],
            rent: addrs[3],
            system_program: addrs[4],
            token_program: addrs[5],
            associated_token_program: addrs[6],
        },
    )
}

/// Step 1 succeeds on this pre-state: the authority signed, nothing occupies
/// the mint address, and the authority can pay the rent-exempt minimum.
pub open spec fn allocation_accepted(l: Ledger, authority_signed: bool) -> bool {
    authority_signed && l.mint.vacant() && l.authority_lamports >= l.rent_exempt_minimum
}

/// The freshly created holding-account state for this account set.
pub open spec fn fresh_holding(a: AccountSet) -> HoldingRecord {
    HoldingRecord { owner: a.authority, mint: a.mint, balance: 0 }
}

/// Step 3 succeeds on this pre-state: the bound holding address is the
/// derived one, and the holding account either does not exist yet or exists
/// exactly in the freshly created state.
pub open spec fn holding_accepted(l: Ledger, a: AccountSet) -> bool {
    &&& a.holding@ == derived_of(a.authority@, a.mint@)
    &&& (l.holding.record is None || l.holding.record == Some(fresh_holding(a)))
}

/// What a run of the pipeline returns on a given pre-state, account set,
/// signature flag and injected fault. The steps run in their fixed order and
/// the first failure is final; a fault injected at a step makes that step's
/// delegate fail if the pipeline reaches it. On a pre-state that step 1
/// accepts, step 2 cannot fail (step 1 just assigned the mint to the token
/// program and left it uninitialized), and once step 3 has prepared the
/// holding account, step 4 cannot fail either (the recorded authority is the
/// signer and both counters move from zero to one).
pub open spec fn run_spec(
    l: Ledger,
    a: AccountSet,
    authority_signed: bool,
    fault: Option<Step>,
) -> Result<(), MintError> {
    if fault == Some(Step::Allocate) {
        Err(MintError::DelegateFailure(Step::Allocate))
    } else if !allocation_accepted(l, authority_signed) {
        Err(MintError::AllocationFailed)
    } else if fault == Some(Step::InitializeMint) {
        Err(MintError::DelegateFailure(Step::InitializeMint))
    } else if fault == Some(Step::CreateHolding) {
        Err(MintError::DelegateFailure(Step::CreateHolding))
    } else if a.holding@ != derived_of(a.authority@, a.mint@) {
        Err(MintError::DerivationMismatch)
    } else if !(l.holding.record is None || l.holding.record == Some(fresh_holding(a))) {
        Err(MintError::DelegateFailure(Step::CreateHolding))
    } else if fault == Some(Step::MintTo) {
        Err(MintError::DelegateFailure(Step::MintTo))
    } else {
        Ok(())
    }
}

/// The ledger after a successful run: the authority paid the rent-exempt
/// minimum into the freshly allocated mint account, the mint is owned by the
/// token program and records one unit of supply at zero decimals under the
/// authority's two authorities, and the holding account holds that one unit.
pub open spec fn success_state(l: Ledger, a: AccountSet) -> Ledger {
    Ledger {
        authority_lamports: (l.authority_lamports - l.rent_exempt_minimum) as u64,
        rent_exempt_minimum: l.rent_exempt_minimum,
        mint: MintAccountState {
            lamports: l.rent_exempt_minimum,
            owner: Some(a.token_program),
            space: MINT_ACCOUNT_SPACE,
            record: Some(
                MintRecord {
                    supply: 1,
                    decimals: 0,
                    mint_authority: a.authority,
                    freeze_authority: Some(a.authority),
                },
            ),
        },
        holding: HoldingAccountState {
            record: Some(HoldingRecord { owner: a.authority, mint: a.mint, balance: 1 }),
        },
    }
}

/// The fixed-supply and authority invariants, read off a post-state: the
/// mint is owned by the token program, its recorded supply is exactly 1 at
/// 0 decimals, mint authority and freeze authority both equal the authority
/// account, and the holding account holds exactly 1 unit of this mint for
/// the authority.
pub open spec fn minted_once(l: Ledger, a: AccountSet) -> bool {
    &&& l.mint.owner == Some(a.token_program)
    &&& l.mint.record matches Some(rec) && rec.supply == 1 && rec.decimals == 0
        && rec.mint_authority == a.authority && rec.freeze_authority == Some(a.authority)
    &&& l.holding.record matches Some(h) && h.owner == a.authority && h.mint == a.mint
        && h.balance == 1
}

/// Whether the injected fault names the step about to run.
fn fault_hits(fault: &Option<Step>, step: Step) -> (r: bool)
    ensures
        r == (*fault == Some(step)),
{
    match fault {
        Some(f) => *f == step,
        None => false,
    }
}

/// Drive the four delegated operations in order over the bound account set.
///
/// The run is all-or-nothing: it works on a scratch copy of the ledger slice
/// and commits only after every step has succeeded, exactly as the
/// surrounding transaction boundary discards the effects of a partial chain.
/// A fault injected at a step stands for that step's delegate failing for a
/// cause outside the model; the pipeline propagates it untouched.
pub fn run(
    l: &mut Ledger,
    accounts: &AccountSet,
    authority_signed: bool,
    fault: Option<Step>,
) -> (r: Result<(), MintError>)
    ensures
        r == run_spec(*old(l), *accounts, authority_signed, fault),
        r is Err ==> *final(l) == *old(l),
        r is Ok ==> *final(l) == success_state(*old(l), *accounts),
        r is Ok ==> minted_once(*final(l), *accounts),
{
    let mut work = *l;
    if fault_hits(&fault, Step::Allocate) {
        return Err(MintError::DelegateFailure(Step::Allocate));
    }
    let rent_minimum = work.rent_exempt_minimum;
    match steps::step_allocate(
        &mut work,
        authority_signed,
        rent_minimum,
        MINT_ACCOUNT_SPACE,
        &accounts.token_program,
    ) {
        Ok(()) => {},
        Err(e) => {
            return Err(e);
        },
    }
    if fault_hits(&fault, Step::InitializeMint) {
        return Err(MintError::DelegateFailure(Step::InitializeMint));
    }
    match steps::step_initialize_mint(
        &mut work,
        &accounts.token_program,
        &accounts.authority,
        Some(accounts.authority),
        0,
    ) {
        Ok(()) => {},
        Err(e) => {
            return Err(e);
        },
    }
    if fault_hits(&fault, Step::CreateHolding) {
        return Err(MintError::DelegateFailure(Step::CreateHolding));
    }
    match steps::step_create_holding(
        &mut work,
        &accounts.authority,
        &accounts.mint,
        &accounts.holding,
    ) {
        Ok(()) => {},
        Err(e) => {
            return Err(e);
        },
    }
    if fault_hits(&fault, Step::MintTo) {
        return Err(MintError::DelegateFailure(Step::MintTo));
    }
    match steps::step_mint_to(&mut work, authority_signed, &accounts.authority, &accounts.mint, 1) {
        Ok(()) => {},
        Err(e) => {
            return Err(e);
        },
    }
    *l = work;
    Ok(())
}

/// The single entry point: bind the supplied account list and run the
/// pipeline over it. Fails with `MissingAccount`, touching nothing, if fewer
/// than seven accounts are supplied.
pub fn process(
    addrs: &Vec<Address>,
    authority_signed: bool,
    fault: Option<Step>,
    l: &mut Ledger,
) -> (r: Result<(), MintError>)
    ensures
        addrs@.len() < 7 ==> r == Err::<(), MintError>(MintError::MissingAccount),
        addrs@.len() >= 7 ==> r == run_spec(*old(l), bound_set(addrs@), authority_signed, fault),
        r is Err ==> *final(l) == *old(l),
        r is Ok ==> *final(l) == success_state(*old(l), bound_set(addrs@)),
        r is Ok ==> minted_once(*final(l), bound_set(addrs@)),
{
    let accounts = match bind_accounts(addrs) {
        Ok(accounts) => accounts,
        Err(e) => {
            return Err(e);
        },
    };
    run(l, &accounts, authority_signed, fault)
}

} // verus!
