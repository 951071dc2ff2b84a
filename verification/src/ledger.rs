//! A model of the slice of ledger state that the pipeline reads and writes.
//!
//! The orchestrator owns no state of its own: every entity is a ledger
//! account. The model holds, for each account role the pipeline touches, the
//! attributes that the four delegated operations read or write — the
//! authority's balance, the mint account's balance, owner and record, and the
//! holding account's record. The rent sysvar is read-only; the model keeps
//! only what it exposes: the minimum balance for a mint-sized account.

use vstd::prelude::*;

use crate::addr::Address;

verus! {

/// The byte size of the token program's fixed mint record.
pub const MINT_ACCOUNT_SPACE: u64 = 82;

/// The fields of an initialized mint record. A mint account whose record is
/// present has its initialized flag set; one whose record is absent holds
/// only raw storage.
#[derive(Clone, Copy, Debug, PartialEq, Eq)]
pub struct MintRecord {
    /// Units in circulation.
    pub supply: u64,
    /// Decimal places of one unit.
    pub decimals: u8,
    /// The address allowed to mint further units.
    pub mint_authority: Address,
    /// The address allowed to freeze transfers, if one was set.
    pub freeze_authority: Option<Address>,
}

/// The fields of a created holding account.
#[derive(Clone, Copy, Debug, PartialEq, Eq)]
pub struct HoldingRecord {
    /// The wallet that owns the held balance.
    pub owner: Address,
    /// The mint whose units the account holds.
    pub mint: Address,
    /// Units held.
    pub balance: u64,
}

/// The ledger's state at the mint address.
#[derive(Clone, Copy, Debug, PartialEq, Eq)]
pub struct MintAccountState {
    /// The account's balance.
    pub lamports: u64,
    /// The program that owns the account, once one does.
    pub owner: Option<Address>,
    /// Bytes of storage allocated at the address.
    pub space: u64,
    /// The mint record, once the account is initialized as a mint.
    pub record: Option<MintRecord>,
}

/// The ledger's state at the holding-account address.
#[derive(Clone, Copy, Debug, PartialEq, Eq)]
pub struct HoldingAccountState {
    /// The holding record, once the account is created.
    pub record: Option<HoldingRecord>,
}

/// The slice of the ledger that one invocation of the pipeline touches.
#[derive(Clone, Copy, Debug, PartialEq, Eq)]
pub struct Ledger {
    /// The authority's balance; debited once, in step 1.
    pub authority_lamports: u64,
    /// What the rent sysvar exposes: the minimum balance that keeps a
    /// mint-sized account rent-exempt. Never written by the pipeline.
    pub rent_exempt_minimum: u64,
    /// The account at the mint address.
    pub mint: MintAccountState,
    /// The account at the holding-account address.
    pub holding: HoldingAccountState,
}

impl MintAccountState {
    /// Nothing occupies the address: no balance, no owner, no storage, no
    /// record. Step 1 demands this of the mint address.
    pub open spec fn vacant(self) -> bool {
        self.lamports == 0 && self.owner is None && self.space == 0 && self.record is None
    }

    /// Executable test for [`Self::vacant`].
    pub fn is_vacant(&self) -> (r: bool)
        ensures
            r == self.vacant(),
    {
        self.lamports == 0 && self.owner.is_none() && self.space == 0 && self.record.is_none()
    }
}

} // verus!
