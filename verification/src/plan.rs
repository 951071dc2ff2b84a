//! The concrete call plan: for each step, the built instruction and the
//! positions, within the seven bound accounts, of the accounts handed to the
//! delegated call. The fixed parameters of the pipeline — 82 bytes of mint
//! storage, zero decimals, the authority as both authorities, an amount of
//! exactly one — are decided here.

use vstd::prelude::*;

use crate::error::{MintError, Step};
use crate::instructions::{
    build_create_account, build_create_holding, build_initialize_mint, build_mint_to,
    create_account_data, initialize_mint_data, is_spl_token_id, mint_to_data, AccountRef,
    InstructionParts,
};
use crate::derivation::derived_of;
use crate::ledger::MINT_ACCOUNT_SPACE;
use crate::orchestrator::AccountSet;

verus! {

/// Position of the mint account in the bound account list.
pub const MINT_POS: usize = 0;

/// Position of the holding account.
pub const HOLDING_POS: usize = 1;

/// Position of the authority account.
pub const AUTHORITY_POS: usize = 2;

/// Position of the rent sysvar.
pub const RENT_POS: usize = 3;

/// Position of the system allocator program.
pub const SYSTEM_PROGRAM_POS: usize = 4;

/// Position of the token program.
pub const TOKEN_PROGRAM_POS: usize = 5;

/// Position of the associated-account program.
pub const ASSOCIATED_PROGRAM_POS: usize = 6;

/// One delegated call, ready to perform: the built instruction and the
/// positions of the bound accounts that the call receives, in order.
#[derive(Clone, Debug, PartialEq, Eq)]
pub struct PreparedStep {
    /// The instruction to route to the delegate.
    pub instruction: InstructionParts,
    /// Positions into the seven bound accounts of the accounts shared with
    /// the delegated call.
    pub account_positions: Vec<usize>,
}

/// Prepare step 1: allocate the mint account. The payer is the authority,
/// the new account is the mint, the size is the token program's fixed mint
/// record size, the owner-to-be is the token program; `lamports` is the
/// rent-exempt minimum for that size, supplied from the rent sysvar by the
/// caller. The call receives the mint, the authority and the token program.
pub fn prepare_allocate(accounts: &AccountSet, lamports: u64) -> (r: PreparedStep)
    ensures
        r.instruction.accounts@.len() == 2,
        r.instruction.accounts@[0] == (AccountRef {
            address: accounts.authority,
            is_signer: true,
            is_writable: true,
        }),
        r.instruction.accounts@[1] == (AccountRef {
            address: accounts.mint,
            is_signer: true,
            is_writable: true,
        }),
        r.instruction.data@ == create_account_data(
            lamports,
            MINT_ACCOUNT_SPACE,
            accounts.token_program@,
        ),
        r.account_positions@ == seq![MINT_POS, AUTHORITY_POS, TOKEN_PROGRAM_POS],
{
    let instruction = build_create_account(
        &accounts.authority,
        &accounts.mint,
        lamports,
        MINT_ACCOUNT_SPACE,
        &accounts.token_program,
    );
    let mut account_positions: Vec<usize> = Vec::new();
    account_positions.push(MINT_POS);
    account_positions.push(AUTHORITY_POS);
    account_positions.push(TOKEN_PROGRAM_POS);
    proof {
        assert(account_positions@ =~= seq![MINT_POS, AUTHORITY_POS, TOKEN_PROGRAM_POS]);
    }
    PreparedStep { instruction, account_positions }
}

/// Prepare step 2: initialize the mint. Mint authority and freeze authority
/// are both the authority account — the freeze authority is set, not
/// omitted — and decimals is fixed at zero: exactly one indivisible unit
/// will ever exist. Fails, surfacing a delegate failure for this step, only
/// if the bound token program is not the canonical one, which the builder
/// itself rejects. The call receives the mint, the authority, the token
/// program and the rent sysvar.
pub fn prepare_initialize_mint(accounts: &AccountSet) -> (r: Result<PreparedStep, MintError>)
    ensures
        r is Ok <==> is_spl_token_id(accounts.token_program@),
        r matches Err(e) ==> e == MintError::DelegateFailure(Step::InitializeMint),
        r matches Ok(p) ==> p.instruction.program == accounts.token_program,
        r matches Ok(p) ==> p.instruction.accounts@.len() == 2,
        r matches Ok(p) ==> p.instruction.accounts@[0] == (AccountRef {
            address: accounts.mint,
            is_signer: false,
            is_writable: true,
        }),
        r matches Ok(p) ==> p.instruction.data@ == initialize_mint_data(
            0,
            accounts.authority@,
            accounts.authority@,
        ),
        r matches Ok(p) ==> p.account_positions@ == seq![
            MINT_POS,
            AUTHORITY_POS,
            TOKEN_PROGRAM_POS,
            RENT_POS,
        ],
{
    let instruction = match build_initialize_mint(
        &accounts.token_program,
        &accounts.mint,
        &accounts.authority,
        &accounts.authority,
        0,
    ) {
        Some(instruction) => instruction,
        None => {
            return Err(MintError::DelegateFailure(Step::InitializeMint));
        },
    };
    let mut account_positions: Vec<usize> = Vec::new();
    account_positions.push(MINT_POS);
    account_positions.push(AUTHORITY_POS);
    account_positions.push(TOKEN_PROGRAM_POS);
    account_positions.push(RENT_POS);
    proof {
        assert(account_positions@ =~= seq![
            MINT_POS,
            AUTHORITY_POS,
            TOKEN_PROGRAM_POS,
            RENT_POS,
        ]);
    }
    Ok(PreparedStep { instruction, account_positions })
}

/// Prepare step 3: create the holding account. The authority funds it and
/// owns it; the delegate derives the target address itself, and under the
/// canonical token program that derived address is the canonical
/// holding-account address for the authority and the mint. The call receives
/// the mint, the holding account, the authority, the token program and the
/// associated-account program.
pub fn prepare_create_holding(accounts: &AccountSet) -> (r: PreparedStep)
    ensures
        r.instruction.accounts@.len() == 6,
        r.instruction.accounts@[0] == (AccountRef {
            address: accounts.authority,
            is_signer: true,
            is_writable: true,
        }),
        is_spl_token_id(accounts.token_program@) ==> r.instruction.accounts@[1].address@
            == derived_of(accounts.authority@, accounts.mint@),
        r.instruction.accounts@[2] == (AccountRef {
            address: accounts.authority,
            is_signer: false,
            is_writable: false,
        }),
        r.instruction.accounts@[3] == (AccountRef {
            address: accounts.mint,
            is_signer: false,
            is_writable: false,
        }),
        r.instruction.accounts@[5] == (AccountRef {
            address: accounts.token_program,
            is_signer: false,
            is_writable: false,
        }),
        r.account_positions@ == seq![
            MINT_POS,
            HOLDING_POS,
            AUTHORITY_POS,
            TOKEN_PROGRAM_POS,
            ASSOCIATED_PROGRAM_POS,
        ],
{
    let instruction = build_create_holding(
        &accounts.authority,
        &accounts.authority,
        &accounts.mint,
        &accounts.token_program,
    );
    let mut account_positions: Vec<usize> = Vec::new();
    account_positions.push(MINT_POS);
    account_positions.push(HOLDING_POS);
    account_positions.push(AUTHORITY_POS);
    account_positions.push(TOKEN_PROGRAM_POS);
    account_positions.push(ASSOCIATED_PROGRAM_POS);
    proof {
        assert(account_positions@ =~= seq![
            MINT_POS,
            HOLDING_POS,
            AUTHORITY_POS,
            TOKEN_PROGRAM_POS,
            ASSOCIATED_PROGRAM_POS,
        ]);
    }
    PreparedStep { instruction, account_positions }
}

/// Prepare step 4: mint to the holding account. The destination is the
/// holding account, the mint authority is the authority account — the same
/// address step 2 recorded — the signer set is exactly the authority, and
/// the amount is fixed at one. Fails, surfacing a delegate failure for this
/// step, only if the bound token program is not the canonical one. The call
/// receives the mint, the authority, the holding account, the token program
/// and the rent sysvar.
pub fn prepare_mint_to(accounts: &AccountSet) -> (r: Result<PreparedStep, MintError>)
    ensures
        r is Ok <==> is_spl_token_id(accounts.token_program@),
        r matches Err(e) ==> e == MintError::DelegateFailure(Step::MintTo),
        r matches Ok(p) ==> p.instruction.program == accounts.token_program,
        r matches Ok(p) ==> p.instruction.accounts@.len() == 4,
        r matches Ok(p) ==> p.instruction.accounts@[0] == (AccountRef {
            address: accounts.mint,
            is_signer: false,
            is_writable: true,
        }),
        r matches Ok(p) ==> p.instruction.accounts@[1] == (AccountRef {
            address: accounts.holding,
            is_signer: false,
            is_writable: true,
        }),
        r matches Ok(p) ==> p.instruction.accounts@[3] == (AccountRef {
            address: accounts.authority,
            is_signer: true,
            is_writable: false,
        }),
        r matches Ok(p) ==> p.instruction.data@ == mint_to_data(1),
        r matches Ok(p) ==> p.account_positions@ == seq![
            MINT_POS,
            AUTHORITY_POS,
            HOLDING_POS,
            TOKEN_PROGRAM_POS,
            RENT_POS,
        ],
{
    let instruction = match build_mint_to(
        &accounts.token_program,
        &accounts.mint,
        &accounts.holding,
        &accounts.authority,
        1,
    ) {
        Some(instruction) => instruction,
        None => {
            return Err(MintError::DelegateFailure(Step::MintTo));
        },
    };
    let mut account_positions: Vec<usize> = Vec::new();
    account_positions.push(MINT_POS);
    account_positions.push(AUTHORITY_POS);
    account_positions.push(HOLDING_POS);
    account_positions.push(TOKEN_PROGRAM_POS);
    account_positions.push(RENT_POS);
    proof {
        assert(account_positions@ =~= seq![
            MINT_POS,
            AUTHORITY_POS,
            HOLDING_POS,
            TOKEN_PROGRAM_POS,
            RENT_POS,
        ]);
    }
    Ok(PreparedStep { instruction, account_positions })
}

} // verus!
