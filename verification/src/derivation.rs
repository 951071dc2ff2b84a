//! The deterministic derivation of the holding-account address.

use vstd::prelude::*;

use crate::addr::Address;
use solana_program::pubkey::Pubkey;

verus! {

/// The canonical holding-account address for a wallet and a mint, derived
/// under the canonical token program by the associated-account program's
/// rule. The derivation takes pages to state (it hashes the three addresses),
/// but it is a pure function of its arguments; this names its result.
pub uninterp spec fn derived_of(wallet: Seq<u8>, mint: Seq<u8>) -> Seq<u8>;

/// Relies on `spl_associated_token_account::get_associated_token_address`:
/// derives the canonical holding-account address for the wallet and the mint
/// under the canonical token program. The result is a pure function of the
/// two addresses.
#[verifier::external_body]
pub(crate) fn derive_holding_address(wallet: &Address, mint: &Address) -> (r: Address)
    ensures
        r@ == derived_of(wallet@, mint@),
{
    Address(
        spl_associated_token_account::get_associated_token_address(
            &Pubkey::new_from_array(wallet.0),
            &Pubkey::new_from_array(mint.0),
        )
        .to_bytes(),
    )
}

/// The canonical holding-account address for an authority's wallet and a
/// mint. Step 3 creates the holding account at exactly this address, and
/// step 4 mints into it.
pub fn holding_address(authority: &Address, mint: &Address) -> (r: Address)
    ensures
        r@ == derived_of(authority@, mint@),
{
    derive_holding_address(authority, mint)
}

/// Law: the derivation is a pure function of the authority and mint
/// addresses — recomputing it from equal inputs yields the same address.
pub proof fn lemma_derivation_idempotent(
    wallet1: Seq<u8>,
    mint1: Seq<u8>,
    wallet2: Seq<u8>,
    mint2: Seq<u8>,
)
    requires
        wallet1 == wallet2,
        mint1 == mint2,
    ensures
        derived_of(wallet1, mint1) == derived_of(wallet2, mint2),
{
}

} // verus!
