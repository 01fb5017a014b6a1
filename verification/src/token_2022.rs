//! Helpers for Token-2022 mint and token-account flows.

use vstd::prelude::*;
use pinocchio::{cpi::Seed as CpiSeed, error::ProgramError, AccountView, Address};
use pinocchio_token_2022::instructions::AuthorityType;
use pinocchio_token_2022::state::{Account as TokenAccount, Mint};

use crate::cpi::{
    answer_of,
    answer_result,
    authority_of,
    create_then,
    invokes,
    rent_of,
    invoke_token_2022_approve,
    invoke_token_2022_approve_checked,
    invoke_token_2022_burn,
    invoke_token_2022_burn_checked,
    invoke_token_2022_close_account,
    invoke_token_2022_freeze_account,
    invoke_token_2022_init_immutable_owner,
    invoke_token_2022_initialize_account3,
    invoke_token_2022_initialize_mint2,
    invoke_token_2022_mint_to,
    invoke_token_2022_mint_to_checked,
    invoke_token_2022_revoke,
    invoke_token_2022_set_authority,
    invoke_token_2022_sync_native,
    invoke_token_2022_thaw_account,
    invoke_token_2022_transfer,
    invoke_token_2022_transfer_checked,
    Instruction,
    Record,
    Step,
    TokenInstruction,
};
use crate::error::{from_program_result, UtilError};
use crate::ids::{same_address, token_2022_program_id, TOKEN_2022_PROGRAM_ID};
use crate::runtime::{data_view, observe_account, read_owner, Observation, Owned};
use crate::{create_account_owned_by, DataLen};

verus! {

/// Offset of the account type byte in extensible Token-2022 account data.
pub const TOKEN_2022_ACCOUNT_DISCRIMINATOR_OFFSET: usize = 165;
/// Account type byte of an extensible Token-2022 mint.
pub const TOKEN_2022_MINT_DISCRIMINATOR: u8 = 1;
/// Account type byte of an extensible Token-2022 token account.
pub const TOKEN_2022_TOKEN_ACCOUNT_DISCRIMINATOR: u8 = 2;

/// A Token-2022 token account.
#[verifier::external_type_specification]
#[verifier::external_body]
pub struct ExTokenAccount2022(pinocchio_token_2022::state::Account);

/// A Token-2022 mint.
#[verifier::external_type_specification]
#[verifier::external_body]
pub struct ExMint2022(pinocchio_token_2022::state::Mint);

/// The kinds of authority that `set_authority` can change.
#[verifier::external_type_specification]
#[verifier::external_body]
pub struct ExAuthorityType(pinocchio_token_2022::instructions::AuthorityType);

/// Whether Token-2022 account data has the base length `base_len`, or
/// extends past the base token account and is marked with `account_type`.
pub open spec fn spec_extensible_len_ok(data: Seq<u8>, base_len: usize, account_type: u8) -> bool {
    data.len() == base_len || (data.len() > TOKEN_2022_ACCOUNT_DISCRIMINATOR_OFFSET
        && data[TOKEN_2022_ACCOUNT_DISCRIMINATOR_OFFSET as int] == account_type)
}

/// Validates Token-2022 account data: either exactly `base_len` bytes, or
/// extended data whose account type byte is `account_type`.
pub fn check_extensible_len(data: &[u8], base_len: usize, account_type: u8) -> (r: Result<(), UtilError>)
    ensures
        r == (if spec_extensible_len_ok(data@, base_len, account_type) {
            Ok(())
        } else {
            Err(UtilError::InvalidAccountData)
        }),
{
    if data.len() != base_len && (data.len() <= TOKEN_2022_ACCOUNT_DISCRIMINATOR_OFFSET
        || data[TOKEN_2022_ACCOUNT_DISCRIMINATOR_OFFSET] != account_type) {
        return Err(UtilError::InvalidAccountData);
    }
    Ok(())
}

impl DataLen for TokenAccount {
    const LEN: usize = 165;

    /// Validates Token-2022 account base length or extension discriminator.
    fn check_data_len(account: &AccountView) -> (r: (Result<(), UtilError>, Ghost<Observation>))
        ensures
            r.0 == spec_check_layout(r.1@.data(), 165, TOKEN_2022_TOKEN_ACCOUNT_DISCRIMINATOR),
    {
        let (state, seen) = observe_account(account);
        let r = match state.data {
            Ok(data) => check_extensible_len(data.as_slice(), token_account_len(), TOKEN_2022_TOKEN_ACCOUNT_DISCRIMINATOR),
            Err(e) => Err(UtilError::Program(e)),
        };
        (r, seen)
    }
}

impl DataLen for Mint {
    const LEN: usize = 82;

    /// Validates Token-2022 mint base length or extension discriminator.
    fn check_data_len(account: &AccountView) -> (r: (Result<(), UtilError>, Ghost<Observation>))
        ensures
            r.0 == spec_check_layout(r.1@.data(), 82, TOKEN_2022_MINT_DISCRIMINATOR),
    {
        let (state, seen) = observe_account(account);
        let r = match state.data {
            Ok(data) => check_extensible_len(data.as_slice(), mint_len(), TOKEN_2022_MINT_DISCRIMINATOR),
            Err(e) => Err(UtilError::Program(e)),
        };
        (r, seen)
    }
}

/// The Token-2022 account lengths that `DataLen` gives: 165 bytes for a
/// token account and 82 for a mint.
pub proof fn lemma_data_lens()
    ensures
        <TokenAccount as DataLen>::LEN == 165,
        <Mint as DataLen>::LEN == 82,
{
}

/// The length of token account data (`Account::BASE_LEN`, the size of the base token account layout).
/// Claimed: 165 bytes.
#[verifier::external_body]
fn token_account_len() -> (r: usize)
    ensures
        r == 165,
{
    TokenAccount::BASE_LEN
}

/// The length of mint data (`Mint::BASE_LEN`, the size of the base mint layout). Claimed: 82
/// bytes.
#[verifier::external_body]
fn mint_len() -> (r: usize)
    ensures
        r == 82,
{
    Mint::BASE_LEN
}

/// Whether an account owner is the Token-2022 program.
pub fn check_owner_address(owner: &[u8; 32]) -> (r: Result<(), UtilError>)
    ensures
        r == (if owner@ == TOKEN_2022_PROGRAM_ID@ {
            Ok(())
        } else {
            Err(UtilError::InvalidAccountOwner)
        }),
{
    if !same_address(owner, &token_2022_program_id()) {
        return Err(UtilError::InvalidAccountOwner);
    }
    Ok(())
}

/// Ensures the account is owned by the Token-2022 program.
///
/// The record is the read of the owner that the result was decided on.
pub fn check_owner(account: &AccountView) -> (r: (Result<(), UtilError>, Ghost<Owned>))
    ensures
        r.1@.account() == *account,
        r.0 == (if r.1@.owner() == TOKEN_2022_PROGRAM_ID@ {
            Ok(())
        } else {
            Err(UtilError::InvalidAccountOwner)
        }),
{
    let (owner, seen) = read_owner(account);
    (check_owner_address(&owner), seen)
}

/// The result of checking Token-2022 account data of kind `account_type`
/// with base length `base_len`: the owner first, then the data (whose
/// borrow may have failed), then its layout.
pub open spec fn spec_check_extensible(
    owner: Seq<u8>,
    data: Result<Seq<u8>, ProgramError>,
    base_len: usize,
    account_type: u8,
) -> Result<(), UtilError> {
    if owner != TOKEN_2022_PROGRAM_ID@ {
        Err(UtilError::InvalidAccountOwner)
    } else {
        spec_check_layout(data, base_len, account_type)
    }
}

/// The result of checking the layout of Token-2022 account data of kind
/// `account_type` with base length `base_len`, whose borrow may have
/// failed.
pub open spec fn spec_check_layout(data: Result<Seq<u8>, ProgramError>, base_len: usize, account_type: u8) -> Result<(), UtilError> {
    match data {
        Err(e) => Err(UtilError::Program(e)),
        Ok(d) => if spec_extensible_len_ok(d, base_len, account_type) {
            Ok(())
        } else {
            Err(UtilError::InvalidAccountData)
        },
    }
}

/// The result of checking a Token-2022 token account.
pub open spec fn spec_check_token_account(owner: Seq<u8>, data: Result<Seq<u8>, ProgramError>) -> Result<(), UtilError> {
    spec_check_extensible(owner, data, 165, TOKEN_2022_TOKEN_ACCOUNT_DISCRIMINATOR)
}

/// The result of checking a Token-2022 mint.
pub open spec fn spec_check_mint(owner: Seq<u8>, data: Result<Seq<u8>, ProgramError>) -> Result<(), UtilError> {
    spec_check_extensible(owner, data, 82, TOKEN_2022_MINT_DISCRIMINATOR)
}

/// Checks a Token-2022 token account from its owner and data.
pub fn check_token_account_state(owner: &[u8; 32], data: Result<Vec<u8>, ProgramError>) -> (r: Result<(), UtilError>)
    ensures
        r == spec_check_token_account(owner@, data_view(data)),
{
    if check_owner_address(owner).is_err() {
        return Err(UtilError::InvalidAccountOwner);
    }
    match data {
        Ok(data) => check_extensible_len(data.as_slice(), token_account_len(), TOKEN_2022_TOKEN_ACCOUNT_DISCRIMINATOR),
        Err(e) => Err(UtilError::Program(e)),
    }
}

/// Validates a Token-2022 token account owner and layout.
///
/// The record is the read of `account` that the result was decided on.
pub fn check_token_account(account: &AccountView) -> (r: (Result<(), UtilError>, Ghost<Observation>))
    ensures
        r.1@.account() == *account,
        r.0 == spec_check_token_account(r.1@.owner(), r.1@.data()),
{
    let (state, seen) = observe_account(account);
    (check_token_account_state(&state.owner, state.data), seen)
}

/// The instruction that initializes `account` as a Token-2022 token account.
pub open spec fn initialize_account(account: AccountView, mint: AccountView, owner: Address) -> Instruction {
    Instruction::InitializeAccount3 { program: TOKEN_2022_PROGRAM_ID, account, mint, owner }
}

/// Creates and initializes a Token-2022 token account: `account` is
/// created with the base token account length, owned by Token-2022 and
/// paid by `payer`, then initialized for `mint` and `owner`.
pub fn init_token_account<'a>(
    account: &AccountView,
    mint: &AccountView,
    payer: &AccountView,
    rent: Option<&pinocchio::sysvars::rent::Rent>,
    signer_seeds: &'a [CpiSeed<'a>],
    owner: &Address,
) -> (r: (Result<(), UtilError>, Ghost<Seq<Record<'a>>>))
    ensures
        create_then(
            r.1@,
            r.0,
            rent_of(rent),
            *payer,
            *account,
            165,
            TOKEN_2022_PROGRAM_ID,
            signer_seeds@,
            Some(initialize_account(*account, *mint, *owner)),
        ),
{
    let (created, calls) = create_account_owned_by(
        payer,
        account,
        rent,
        signer_seeds,
        token_account_len(),
        &token_2022_program_id(),
    );
    if created.is_err() {
        return (created, calls);
    }
    let (answer, call) = invoke_token_2022_initialize_account3(account, mint, owner);
    (from_program_result(answer), Ghost(calls@.push(call@)))
}

/// Creates and initializes a Token-2022 token account only when it does
/// not already pass `check_token_account`.
///
/// The record is the read the check was decided on and the invocations
/// issued: none when the check passes, else those of `init_token_account`,
/// whose result is returned (the check's error is not reported).
pub fn init_token_account_if_needed<'a>(
    account: &AccountView,
    mint: &AccountView,
    payer: &AccountView,
    rent: Option<&pinocchio::sysvars::rent::Rent>,
    signer_seeds: &'a [CpiSeed<'a>],
    owner: &Address,
) -> (r: (Result<(), UtilError>, Ghost<(Observation, Seq<Record<'a>>)>))
    ensures
        r.1@.0.account() == *account,
        spec_check_token_account(r.1@.0.owner(), r.1@.0.data()) is Ok ==> r.0 is Ok && r.1@.1.len() == 0,
        spec_check_token_account(r.1@.0.owner(), r.1@.0.data()) is Err ==> create_then(
            r.1@.1,
            r.0,
            rent_of(rent),
            *payer,
            *account,
            165,
            TOKEN_2022_PROGRAM_ID,
            signer_seeds@,
            Some(initialize_account(*account, *mint, *owner)),
        ),
{
    let (checked, seen) = check_token_account(account);
    match checked {
        Ok(()) => (Ok(()), Ghost((seen@, Seq::empty()))),
        Err(_) => {
            let (r, calls) = init_token_account(account, mint, payer, rent, signer_seeds, owner);
            (r, Ghost((seen@, calls@)))
        },
    }
}

/// Checks a Token-2022 mint from its owner and data.
pub fn check_mint_state(owner: &[u8; 32], data: Result<Vec<u8>, ProgramError>) -> (r: Result<(), UtilError>)
    ensures
        r == spec_check_mint(owner@, data_view(data)),
{
    if check_owner_address(owner).is_err() {
        return Err(UtilError::InvalidAccountOwner);
    }
    match data {
        Ok(data) => check_extensible_len(data.as_slice(), mint_len(), TOKEN_2022_MINT_DISCRIMINATOR),
        Err(e) => Err(UtilError::Program(e)),
    }
}

/// Validates a Token-2022 mint owner and layout.
///
/// The record is the read of `account` that the result was decided on.
pub fn check_mint(account: &AccountView) -> (r: (Result<(), UtilError>, Ghost<Observation>))
    ensures
        r.1@.account() == *account,
        r.0 == spec_check_mint(r.1@.owner(), r.1@.data()),
{
    let (state, seen) = observe_account(account);
    (check_mint_state(&state.owner, state.data), seen)
}

/// The instruction that initializes `mint` as a Token-2022 mint.
pub open spec fn initialize_mint(mint: AccountView, decimals: u8, mint_authority: Address, freeze_authority: Option<Address>) -> Instruction {
    Instruction::InitializeMint2 { program: TOKEN_2022_PROGRAM_ID, mint, decimals, mint_authority, freeze_authority }
}

/// Creates and initializes a Token-2022 mint account: `account` is created
/// with the base mint length, owned by Token-2022 and paid by `payer`, then
/// initialized with `decimals` and the authorities.
pub fn init_mint<'a>(
    account: &AccountView,
    payer: &AccountView,
    rent: Option<&pinocchio::sysvars::rent::Rent>,
    signer_seeds: &'a [CpiSeed<'a>],
    decimals: u8,
    mint_authority: &Address,
    freeze_authority: Option<&Address>,
) -> (r: (Result<(), UtilError>, Ghost<Seq<Record<'a>>>))
    ensures
        create_then(
            r.1@,
            r.0,
            rent_of(rent),
            *payer,
            *account,
            82,
            TOKEN_2022_PROGRAM_ID,
            signer_seeds@,
            Some(initialize_mint(*account, decimals, *mint_authority, authority_of(freeze_authority))),
        ),
{
    let (created, calls) = create_account_owned_by(
        payer,
        account,
        rent,
        signer_seeds,
        mint_len(),
        &token_2022_program_id(),
    );
    if created.is_err() {
        return (created, calls);
    }
    let (answer, call) = invoke_token_2022_initialize_mint2(account, decimals, mint_authority, freeze_authority);
    (from_program_result(answer), Ghost(calls@.push(call@)))
}

/// An instruction of Token-2022 itself.
pub open spec fn token_2022_instruction(instruction: TokenInstruction) -> Instruction {
    Instruction::TokenProgram { program: TOKEN_2022_PROGRAM_ID, instruction }
}

/// Transfers `amount` tokens from `from` to `to`.
///
/// The record is the one invocation, whose answer is returned.
pub fn transfer<'a>(
    from: &AccountView,
    to: &AccountView,
    authority: &AccountView,
    signer_seeds: &'a [CpiSeed<'a>],
    amount: u64,
) -> (r: (Result<(), UtilError>, Ghost<Record<'a>>))
    ensures
        r.1@.signers() == signer_seeds@,
        invokes(r.1@, token_2022_instruction(TokenInstruction::Transfer { from: *from, to: *to, authority: *authority, amount })),
        r.0 == answer_result(answer_of(r.1@)),
{
    let (answer, call) = invoke_token_2022_transfer(from, to, authority, amount, signer_seeds);
    (from_program_result(answer), call)
}

/// Transfers `amount` tokens, checking the mint and its decimals.
///
/// The record is the one invocation, whose answer is returned.
pub fn transfer_checked<'a>(
    from: &AccountView,
    mint: &AccountView,
    to: &AccountView,
    authority: &AccountView,
    signer_seeds: &'a [CpiSeed<'a>],
    amount: u64,
    decimals: u8,
) -> (r: (Result<(), UtilError>, Ghost<Record<'a>>))
    ensures
        r.1@.signers() == signer_seeds@,
        invokes(r.1@, token_2022_instruction(TokenInstruction::TransferChecked { from: *from, mint: *mint, to: *to, authority: *authority, amount, decimals })),
        r.0 == answer_result(answer_of(r.1@)),
{
    let (answer, call) = invoke_token_2022_transfer_checked(from, mint, to, authority, amount, decimals, signer_seeds);
    (from_program_result(answer), call)
}

/// Mints `amount` new tokens to `account`.
///
/// The record is the one invocation, whose answer is returned.
pub fn mint_to<'a>(
    mint: &AccountView,
    account: &AccountView,
    mint_authority: &AccountView,
    signer_seeds: &'a [CpiSeed<'a>],
    amount: u64,
) -> (r: (Result<(), UtilError>, Ghost<Record<'a>>))
    ensures
        r.1@.signers() == signer_seeds@,
        invokes(r.1@, token_2022_instruction(TokenInstruction::MintTo { mint: *mint, account: *account, mint_authority: *mint_authority, amount })),
        r.0 == answer_result(answer_of(r.1@)),
{
    let (answer, call) = invoke_token_2022_mint_to(mint, account, mint_authority, amount, signer_seeds);
    (from_program_result(answer), call)
}

/// Mints `amount` new tokens to `account`, checking the mint's decimals.
///
/// The record is the one invocation, whose answer is returned.
pub fn mint_to_checked<'a>(
    mint: &AccountView,
    account: &AccountView,
    mint_authority: &AccountView,
    signer_seeds: &'a [CpiSeed<'a>],
    amount: u64,
    decimals: u8,
) -> (r: (Result<(), UtilError>, Ghost<Record<'a>>))
    ensures
        r.1@.signers() == signer_seeds@,
        invokes(r.1@, token_2022_instruction(TokenInstruction::MintToChecked { mint: *mint, account: *account, mint_authority: *mint_authority, amount, decimals })),
        r.0 == answer_result(answer_of(r.1@)),
{
    let (answer, call) = invoke_token_2022_mint_to_checked(mint, account, mint_authority, amount, decimals, signer_seeds);
    (from_program_result(answer), call)
}

/// Burns `amount` tokens from `account`.
///
/// The record is the one invocation, whose answer is returned.
pub fn burn<'a>(
    account: &AccountView,
    mint: &AccountView,
    authority: &AccountView,
    signer_seeds: &'a [CpiSeed<'a>],
    amount: u64,
) -> (r: (Result<(), UtilError>, Ghost<Record<'a>>))
    ensures
        r.1@.signers() == signer_seeds@,
        invokes(r.1@, token_2022_instruction(TokenInstruction::Burn { account: *account, mint: *mint, authority: *authority, amount })),
        r.0 == answer_result(answer_of(r.1@)),
{
    let (answer, call) = invoke_token_2022_burn(account, mint, authority, amount, signer_seeds);
    (from_program_result(answer), call)
}

/// Burns `amount` tokens from `account`, checking the mint's decimals.
///
/// The record is the one invocation, whose answer is returned.
pub fn burn_checked<'a>(
    account: &AccountView,
    mint: &AccountView,
    authority: &AccountView,
    signer_seeds: &'a [CpiSeed<'a>],
    amount: u64,
    decimals: u8,
) -> (r: (Result<(), UtilError>, Ghost<Record<'a>>))
    ensures
        r.1@.signers() == signer_seeds@,
        invokes(r.1@, token_2022_instruction(TokenInstruction::BurnChecked { account: *account, mint: *mint, authority: *authority, amount, decimals })),
        r.0 == answer_result(answer_of(r.1@)),
{
    let (answer, call) = invoke_token_2022_burn_checked(account, mint, authority, amount, decimals, signer_seeds);
    (from_program_result(answer), call)
}

/// Approves `delegate` to transfer up to `amount` tokens from `source`.
///
/// The record is the one invocation, whose answer is returned.
pub fn approve<'a>(
    source: &AccountView,
    delegate: &AccountView,
    authority: &AccountView,
    signer_seeds: &'a [CpiSeed<'a>],
    amount: u64,
) -> (r: (Result<(), UtilError>, Ghost<Record<'a>>))
    ensures
        r.1@.signers() == signer_seeds@,
        invokes(r.1@, token_2022_instruction(TokenInstruction::Approve { source: *source, delegate: *delegate, authority: *authority, amount })),
        r.0 == answer_result(answer_of(r.1@)),
{
    let (answer, call) = invoke_token_2022_approve(source, delegate, authority, amount, signer_seeds);
    (from_program_result(answer), call)
}

/// Approves a delegate, checking the mint and its decimals.
///
/// The record is the one invocation, whose answer is returned.
pub fn approve_checked<'a>(
    source: &AccountView,
    mint: &AccountView,
    delegate: &AccountView,
    authority: &AccountView,
    signer_seeds: &'a [CpiSeed<'a>],
    amount: u64,
    decimals: u8,
) -> (r: (Result<(), UtilError>, Ghost<Record<'a>>))
    ensures
        r.1@.signers() == signer_seeds@,
        invokes(r.1@, token_2022_instruction(TokenInstruction::ApproveChecked { source: *source, mint: *mint, delegate: *delegate, authority: *authority, amount, decimals })),
        r.0 == answer_result(answer_of(r.1@)),
{
    let (answer, call) = invoke_token_2022_approve_checked(source, mint, delegate, authority, amount, decimals, signer_seeds);
    (from_program_result(answer), call)
}

/// Revokes the delegate of `source`.
///
/// The record is the one invocation, whose answer is returned.
pub fn revoke<'a>(
    source: &AccountView,
    authority: &AccountView,
    signer_seeds: &'a [CpiSeed<'a>],
) -> (r: (Result<(), UtilError>, Ghost<Record<'a>>))
    ensures
        r.1@.signers() == signer_seeds@,
        invokes(r.1@, token_2022_instruction(TokenInstruction::Revoke { source: *source, authority: *authority })),
        r.0 == answer_result(answer_of(r.1@)),
{
    let (answer, call) = invoke_token_2022_revoke(source, authority, signer_seeds);
    (from_program_result(answer), call)
}

/// Sets or clears an authority of `account`.
///
/// The record is the one invocation, whose answer is returned.
pub fn set_authority<'a>(
    account: &AccountView,
    authority: &AccountView,
    signer_seeds: &'a [CpiSeed<'a>],
    authority_type: AuthorityType,
    new_authority: Option<&Address>,
) -> (r: (Result<(), UtilError>, Ghost<Record<'a>>))
    ensures
        r.1@.signers() == signer_seeds@,
        invokes(r.1@, token_2022_instruction(TokenInstruction::SetAuthority { account: *account, authority: *authority, authority_type, new_authority: authority_of(new_authority) })),
        r.0 == answer_result(answer_of(r.1@)),
{
    let (answer, call) = invoke_token_2022_set_authority(account, authority, authority_type, new_authority, signer_seeds);
    (from_program_result(answer), call)
}

/// Freezes `account`.
///
/// The record is the one invocation, whose answer is returned.
pub fn freeze_account<'a>(
    account: &AccountView,
    mint: &AccountView,
    freeze_authority: &AccountView,
    signer_seeds: &'a [CpiSeed<'a>],
) -> (r: (Result<(), UtilError>, Ghost<Record<'a>>))
    ensures
        r.1@.signers() == signer_seeds@,
        invokes(r.1@, token_2022_instruction(TokenInstruction::FreezeAccount { account: *account, mint: *mint, freeze_authority: *freeze_authority })),
        r.0 == answer_result(answer_of(r.1@)),
{
    let (answer, call) = invoke_token_2022_freeze_account(account, mint, freeze_authority, signer_seeds);
    (from_program_result(answer), call)
}

/// Thaws a frozen `account`.
///
/// The record is the one invocation, whose answer is returned.
pub fn thaw_account<'a>(
    account: &AccountView,
    mint: &AccountView,
    freeze_authority: &AccountView,
    signer_seeds: &'a [CpiSeed<'a>],
) -> (r: (Result<(), UtilError>, Ghost<Record<'a>>))
    ensures
        r.1@.signers() == signer_seeds@,
        invokes(r.1@, token_2022_instruction(TokenInstruction::ThawAccount { account: *account, mint: *mint, freeze_authority: *freeze_authority })),
        r.0 == answer_result(answer_of(r.1@)),
{
    let (answer, call) = invoke_token_2022_thaw_account(account, mint, freeze_authority, signer_seeds);
    (from_program_result(answer), call)
}

/// Closes `account`, moving its lamports to `destination`.
///
/// The record is the one invocation, whose answer is returned.
pub fn close_account<'a>(
    account: &AccountView,
    destination: &AccountView,
    authority: &AccountView,
    signer_seeds: &'a [CpiSeed<'a>],
) -> (r: (Result<(), UtilError>, Ghost<Record<'a>>))
    ensures
        r.1@.signers() == signer_seeds@,
        invokes(r.1@, token_2022_instruction(TokenInstruction::CloseAccount { account: *account, destination: *destination, authority: *authority })),
        r.0 == answer_result(answer_of(r.1@)),
{
    let (answer, call) = invoke_token_2022_close_account(account, destination, authority, signer_seeds);
    (from_program_result(answer), call)
}

/// Updates the token amount of a native (wrapped SOL) account to its
/// lamports. The signer seeds are not used.
///
/// The record is the one invocation, whose answer is returned.
pub fn sync_native<'a>(
    native_token: &AccountView,
    _signer_seeds: &'a [CpiSeed<'a>],
) -> (r: (Result<(), UtilError>, Ghost<Record<'a>>))
    ensures
        r.1@.signers() == Seq::<CpiSeed<'a>>::empty(),
        invokes(r.1@, token_2022_instruction(TokenInstruction::SyncNative { native_token: *native_token })),
        r.0 == answer_result(answer_of(r.1@)),
{
    let (answer, call) = invoke_token_2022_sync_native(native_token);
    (from_program_result(answer), call)
}

/// Whatever seeds `sync_native` is handed, it issues the same unsigned
/// instruction: two records that meet its contract for one account carry
/// the same instruction and no seeds, and differ at most in the runtime's
/// answer.
pub proof fn lemma_sync_native_ignores_seeds<'a>(native_token: AccountView, first: Record<'a>, second: Record<'a>)
    requires
        first.signers() == Seq::<CpiSeed<'a>>::empty(),
        invokes(first, token_2022_instruction(TokenInstruction::SyncNative { native_token })),
        second.signers() == Seq::<CpiSeed<'a>>::empty(),
        invokes(second, token_2022_instruction(TokenInstruction::SyncNative { native_token })),
    ensures
        first.signers() == second.signers(),
        first.step() matches Step::Invoke { instruction, .. } && second.step() matches Step::Invoke {
            instruction: other,
            ..
        } && instruction == other,
{
}

/// Initializes the immutable-owner extension of `account`. The signer seeds
/// are not used.
///
/// The record is the one invocation, whose answer is returned.
pub fn init_immutable_owner<'a>(
    account: &AccountView,
    _signer_seeds: &'a [CpiSeed<'a>],
) -> (r: (Result<(), UtilError>, Ghost<Record<'a>>))
    ensures
        r.1@.signers() == Seq::<CpiSeed<'a>>::empty(),
        invokes(r.1@, token_2022_instruction(TokenInstruction::InitializeImmutableOwner { account: *account })),
        r.0 == answer_result(answer_of(r.1@)),
{
    let (answer, call) = invoke_token_2022_init_immutable_owner(account);
    (from_program_result(answer), call)
}

} // verus!
