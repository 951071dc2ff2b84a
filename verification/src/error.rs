//! The pipeline's steps and its error taxonomy.

use vstd::prelude::*;

verus! {

/// The four delegated operations of the pipeline, in their fixed order.
#[derive(Clone, Copy, Debug, PartialEq, Eq, Structural)]
pub enum Step {
    /// Step 1: allocate the mint account and assign it to the token program.
    Allocate,
    /// Step 2: initialize the allocated account as a zero-decimal mint.
    InitializeMint,
    /// Step 3: create the holding account at the derived address.
    CreateHolding,
    /// Step 4: mint one unit into the holding account.
    MintTo,
}

/// Why an invocation failed. Every error is fatal to the whole run: the first
/// failure short-circuits the remaining steps and, the run being
/// all-or-nothing, discards every ledger effect of the earlier ones.
#[derive(Clone, Copy, Debug, PartialEq, Eq, Structural)]
pub enum MintError {
    /// Fewer than seven accounts were supplied.
    MissingAccount,
    /// Step 1 failed: the payer's balance is insufficient, the mint address is
    /// already funded or occupied, or the authority did not sign.
    AllocationFailed,
    /// Step 2 failed: the mint record's initialized flag is already set.
    AlreadyInitialized,
    /// Step 2 failed: step 1's owner assignment did not take effect, so the
    /// mint account is not owned by the token program.
    NotOwnedByTokenProgram,
    /// Step 3 failed: the supplied holding-account address is not the address
    /// derived from the authority and the mint.
    DerivationMismatch,
    /// Step 4 failed: the signer is not the recorded mint authority.
    AuthorityMismatch,
    /// Step 4 failed: the mint's supply, or the holding account's balance, is
    /// already at its maximum.
    SupplyOverflow,
    /// A delegate surfaced an error at the given step that maps to none of the
    /// variants above.
    DelegateFailure(Step),
}

} // verus!
