//! The delegated calls' instructions, built by the collaborating programs'
//! own builders and handed back as plain values.
//!
//! Each builder here is the one the delegate's crate publishes; the wrappers
//! state, over plain values, what the builder's source shows: which accounts
//! the instruction lists, with which signer and writability flags, and — as
//! named, uninterpreted byte strings — the instruction data it encodes.

use vstd::prelude::*;

use crate::addr::Address;
use crate::derivation::derived_of;
use solana_program::pubkey::Pubkey;

verus! {

/// One account reference inside a built instruction: the address, whether
/// the account must sign, and whether the delegate may write to it.
#[derive(Clone, Copy, Debug, PartialEq, Eq)]
pub struct AccountRef {
    /// The referenced account's address.
    pub address: Address,
    /// Whether the account must co-sign the delegated call.
    pub is_signer: bool,
    /// Whether the delegate may write to the account.
    pub is_writable: bool,
}

/// A built instruction as plain values: the program to route it to, the
/// accounts it lists, and its data bytes.
#[derive(Clone, Debug, PartialEq, Eq)]
pub struct InstructionParts {
    /// The program that executes the instruction.
    pub program: Address,
    /// The accounts the instruction lists, in order.
    pub accounts: Vec<AccountRef>,
    /// The instruction's serialized payload.
    pub data: Vec<u8>,
}

/// Whether an address is the canonical token program's id; names the verdict
/// of `spl_token::check_program_account`, which the token program's builders
/// apply to every supplied program id.
pub uninterp spec fn is_spl_token_id(id: Seq<u8>) -> bool;

/// The bytes that `system_instruction::create_account` encodes for the given
/// allocation parameters.
pub uninterp spec fn create_account_data(lamports: u64, space: u64, owner: Seq<u8>) -> Seq<u8>;

/// The bytes that `spl_token::instruction::initialize_mint` encodes for the
/// given decimals and authorities.
pub uninterp spec fn initialize_mint_data(
    decimals: u8,
    mint_authority: Seq<u8>,
    freeze_authority: Seq<u8>,
) -> Seq<u8>;

/// The bytes that `spl_token::instruction::mint_to` encodes for the given
/// amount.
pub uninterp spec fn mint_to_data(amount: u64) -> Seq<u8>;

/// Relies on `solana_program::system_instruction::create_account`: builds
/// the system program's allocation instruction, listing the payer and the
/// new account, both writable signers.
#[verifier::external_body]
pub(crate) fn build_create_account(
    payer: &Address,
    new_account: &Address,
    lamports: u64,
    space: u64,
    owner: &Address,
) -> (r: InstructionParts)
    ensures
        r.accounts@.len() == 2,
        r.accounts@[0] == (AccountRef { address: *payer, is_signer: true, is_writable: true }),
        r.accounts@[1] == (AccountRef {
            address: *new_account,
            is_signer: true,
            is_writable: true,
        }),
        r.data@ == create_account_data(lamports, space, owner@),
{
    let ix = solana_program::system_instruction::create_account(
        &Pubkey::new_from_array(payer.0), &Pubkey::new_from_array(new_account.0),
        lamports, space, &Pubkey::new_from_array(owner.0));
    InstructionParts {
        program: Address(ix.program_id.to_bytes()),
        accounts: ix.accounts.iter().map(|m| AccountRef {
            address: Address(m.pubkey.to_bytes()), is_signer: m.is_signer, is_writable: m.is_writable,
        }).collect(),
        data: ix.data,
    }
}

/// Relies on `spl_token::instruction::initialize_mint`: builds the token
/// program's mint-initialization instruction, succeeding exactly when the
/// supplied token program id is the canonical one, and listing the mint
/// (writable) and the rent sysvar (read-only).
#[verifier::external_body]
pub(crate) fn build_initialize_mint(
    token_program: &Address,
    mint: &Address,
    mint_authority: &Address,
    freeze_authority: &Address,
    decimals: u8,
) -> (r: Option<InstructionParts>)
    ensures
        r is Some <==> is_spl_token_id(token_program@),
        r matches Some(p) ==> p.program == *token_program,
        r matches Some(p) ==> p.accounts@.len() == 2,
        r matches Some(p) ==> p.accounts@[0] == (AccountRef {
            address: *mint,
            is_signer: false,
            is_writable: true,
        }),
        r matches Some(p) ==> p.accounts@[1].is_signer == false && p.accounts@[1].is_writable
            == false,
        r matches Some(p) ==> p.data@ == initialize_mint_data(
            decimals,
            mint_authority@,
            freeze_authority@,
        ),
{
    let ix = spl_token::instruction::initialize_mint(
        &Pubkey::new_from_array(token_program.0), &Pubkey::new_from_array(mint.0),
        &Pubkey::new_from_array(mint_authority.0),
        Some(&Pubkey::new_from_array(freeze_authority.0)), decimals);
    match ix {
        Err(_) => None,
        Ok(i) => Some(InstructionParts {
            program: Address(i.program_id.to_bytes()),
            accounts: i.accounts.iter().map(|m| AccountRef {
                address: Address(m.pubkey.to_bytes()), is_signer: m.is_signer, is_writable: m.is_writable,
            }).collect(),
            data: i.data,
        }),
    }
}

/// Relies on `spl_associated_token_account::instruction::create_associated_token_account`:
/// builds the associated-account program's creation instruction, listing the
/// funder (writable signer), the holding account it derives itself
/// (writable), then the wallet, the mint, the system program and the token
/// program, all read-only. Under the canonical token program the derived
/// address in the list is the canonical holding-account address.
#[verifier::external_body]
pub(crate) fn build_create_holding(
    funder: &Address,
    wallet: &Address,
    mint: &Address,
    token_program: &Address,
) -> (r: InstructionParts)
    ensures
        r.accounts@.len() == 6,
        r.accounts@[0] == (AccountRef { address: *funder, is_signer: true, is_writable: true }),
        r.accounts@[1].is_signer == false && r.accounts@[1].is_writable == true,
        is_spl_token_id(token_program@) ==> r.accounts@[1].address@ == derived_of(wallet@, mint@),
        r.accounts@[2] == (AccountRef { address: *wallet, is_signer: false, is_writable: false }),
        r.accounts@[3] == (AccountRef { address: *mint, is_signer: false, is_writable: false }),
        r.accounts@[4].is_signer == false && r.accounts@[4].is_writable == false,
        r.accounts@[5] == (AccountRef {
            address: *token_program,
            is_signer: false,
            is_writable: false,
        }),
{
    let ix = spl_associated_token_account::instruction::create_associated_token_account(
        &Pubkey::new_from_array(funder.0), &Pubkey::new_from_array(wallet.0),
        &Pubkey::new_from_array(mint.0), &Pubkey::new_from_array(token_program.0));
    InstructionParts {
        program: Address(ix.program_id.to_bytes()),
        accounts: ix.accounts.iter().map(|m| AccountRef {
            address: Address(m.pubkey.to_bytes()), is_signer: m.is_signer, is_writable: m.is_writable,
        }).collect(),
        data: ix.data,
    }
}

/// Relies on `spl_token::instruction::mint_to`: builds the token program's
/// mint-to instruction with the authority as the single listed signer,
/// succeeding exactly when the supplied token program id is the canonical
/// one, and listing the mint and the destination (writable), the authority
/// (read-only), and the authority again as the signer.
#[verifier::external_body]
pub(crate) fn build_mint_to(
    token_program: &Address,
    mint: &Address,
    destination: &Address,
    authority: &Address,
    amount: u64,
) -> (r: Option<InstructionParts>)
    ensures
        r is Some <==> is_spl_token_id(token_program@),
        r matches Some(p) ==> p.program == *token_program,
        r matches Some(p) ==> p.accounts@.len() == 4,
        r matches Some(p) ==> p.accounts@[0] == (AccountRef {
            address: *mint,
            is_signer: false,
            is_writable: true,
        }),
        r matches Some(p) ==> p.accounts@[1] == (AccountRef {
            address: *destination,
            is_signer: false,
            is_writable: true,
        }),
        r matches Some(p) ==> p.accounts@[2] == (AccountRef {
            address: *authority,
            is_signer: false,
            is_writable: false,
        }),
        r matches Some(p) ==> p.accounts@[3] == (AccountRef {
            address: *authority,
            is_signer: true,
            is_writable: false,
        }),
        r matches Some(p) ==> p.data@ == mint_to_data(amount),
{
    let authority_key = Pubkey::new_from_array(authority.0);
    let ix = spl_token::instruction::mint_to(
        &Pubkey::new_from_array(token_program.0), &Pubkey::new_from_array(mint.0),
        &Pubkey::new_from_array(destination.0), &authority_key, &[&authority_key], amount);
    match ix {
        Err(_) => None,
        Ok(i) => Some(InstructionParts {
            program: Address(i.program_id.to_bytes()),
            accounts: i.accounts.iter().map(|m| AccountRef {
                address: Address(m.pubkey.to_bytes()), is_signer: m.is_signer, is_writable: m.is_writable,
            }).collect(),
            data: i.data,
        }),
    }
}

} // verus!
