//! Helpers for SPL Token (legacy program) mint and token-account flows.

use vstd::prelude::*;
use pinocchio::{cpi::Seed as CpiSeed, AccountView, Address};
use pinocchio_token::state::{Account as TokenAccount, Mint};

use crate::cpi::{
    authority_of, create_then, rent_of, invoke_token_initialize_account3, invoke_token_initialize_mint2,
    Instruction, Record,
};
use crate::error::{from_program_result, UtilError};
use crate::ids::{same_address, token_program_id, TOKEN_PROGRAM_ID};
use crate::runtime::{read_owner, Owned, observe_account, Observation};
use crate::{check_len, create_account_owned_by, DataLen};

verus! {

/// An SPL Token account.
#[verifier::external_type_specification]
#[verifier::external_body]
pub struct ExTokenAccount(pinocchio_token::state::Account);

/// An SPL Token mint.
#[verifier::external_type_specification]
#[verifier::external_body]
pub struct ExMint(pinocchio_token::state::Mint);

impl DataLen for TokenAccount {
    const LEN: usize = 165;
}

impl DataLen for Mint {
    const LEN: usize = 82;
}

/// The SPL Token account lengths that `DataLen` gives: 165 bytes for a
/// token account and 82 for a mint.
pub proof fn lemma_data_lens()
    ensures
        <TokenAccount as DataLen>::LEN == 165,
        <Mint as DataLen>::LEN == 82,
{
}

/// The length of token account data (`Account::LEN`, the size of the token account layout).
/// Claimed: 165 bytes.
#[verifier::external_body]
fn token_account_len() -> (r: usize)
    ensures
        r == 165,
{
    TokenAccount::LEN
}

/// The length of mint data (`Mint::LEN`, the size of the mint layout). Claimed: 82
/// bytes.
#[verifier::external_body]
fn mint_len() -> (r: usize)
    ensures
        r == 82,
{
    Mint::LEN
}

/// Whether an account owner is the SPL Token program.
pub fn check_owner_address(owner: &[u8; 32]) -> (r: Result<(), UtilError>)
    ensures
        r == (if owner@ == TOKEN_PROGRAM_ID@ {
            Ok(())
        } else {
            Err(UtilError::InvalidAccountOwner)
        }),
{
    if !same_address(owner, &token_program_id()) {
        return Err(UtilError::InvalidAccountOwner);
    }
    Ok(())
}

/// Ensures the account is owned by the SPL Token program.
///
/// The record is the read of the owner that the result was decided on.
pub fn check_owner(account: &AccountView) -> (r: (Result<(), UtilError>, Ghost<Owned>))
    ensures
        r.1@.account() == *account,
        r.0 == (if r.1@.owner() == TOKEN_PROGRAM_ID@ {
            Ok(())
        } else {
            Err(UtilError::InvalidAccountOwner)
        }),
{
    let (owner, seen) = read_owner(account);
    (check_owner_address(&owner), seen)
}

/// The result of checking an SPL Token account: the owner first, then the
/// data length, which must be the token account length.
pub open spec fn spec_check_token_account(owner: Seq<u8>, data_len: int) -> Result<(), UtilError> {
    if owner != TOKEN_PROGRAM_ID@ {
        Err(UtilError::InvalidAccountOwner)
    } else if data_len != 165 {
        Err(UtilError::InvalidAccountData)
    } else {
        Ok(())
    }
}

/// Checks an SPL Token account from its owner and data length.
pub fn check_token_account_state(owner: &[u8; 32], data_len: usize) -> (r: Result<(), UtilError>)
    ensures
        r == spec_check_token_account(owner@, data_len as int),
{
    match check_owner_address(owner) {
        Ok(()) => check_len(data_len, token_account_len()),
        Err(e) => Err(e),
    }
}

/// Validates a token account's owner and canonical data length.
///
/// The record is the read of `account` that the result was decided on.
pub fn check_token_account(account: &AccountView) -> (r: (Result<(), UtilError>, Ghost<Observation>))
    ensures
        r.1@.account() == *account,
        r.0 == spec_check_token_account(r.1@.owner(), r.1@.data_len() as int),
{
    let (state, seen) = observe_account(account);
    (check_token_account_state(&state.owner, state.data_len), seen)
}

/// The instruction that initializes `account` as an SPL Token account.
pub open spec fn initialize_account(account: AccountView, mint: AccountView, owner: Address) -> Instruction {
    Instruction::InitializeAccount3 { program: TOKEN_PROGRAM_ID, account, mint, owner }
}

/// Creates and initializes an SPL Token account: `account` is created with
/// the token account length, owned by the SPL Token program and paid by
/// `payer`, then initialized for `mint` and `owner`.
pub fn init_token_account<'a>(
    account: &AccountView,
    mint: &AccountView,
    payer: &AccountView,
    rent: Option<&pinocchio::sysvars::rent::Rent>,
    signer_seeds: &'a [CpiSeed<'a>],
    owner: &Address,
) -> (r: (Result<(), UtilError>, Ghost<Seq<Record<'a>>>))
    ensures
        create_then(
            r.1@,
            r.0,
            rent_of(rent),
            *payer,
            *account,
            165,
            TOKEN_PROGRAM_ID,
            signer_seeds@,
            Some(initialize_account(*account, *mint, *owner)),
        ),
{
    let (created, calls) = create_account_owned_by(
        payer,
        account,
        rent,
        signer_seeds,
        token_account_len(),
        &token_program_id(),
    );
    if created.is_err() {
        return (created, calls);
    }
    let (answer, call) = invoke_token_initialize_account3(account, mint, owner);
    (from_program_result(answer), Ghost(calls@.push(call@)))
}

/// Creates and initializes an SPL Token account only when it does not
/// already pass `check_token_account`.
///
/// The record is the read the check was decided on and the invocations
/// issued: none when the check passes, else those of `init_token_account`,
/// whose result is returned (the check's error is not reported).
pub fn init_token_account_if_needed<'a>(
    account: &AccountView,
    mint: &AccountView,
    payer: &AccountView,
    rent: Option<&pinocchio::sysvars::rent::Rent>,
    signer_seeds: &'a [CpiSeed<'a>],
    owner: &Address,
) -> (r: (Result<(), UtilError>, Ghost<(Observation, Seq<Record<'a>>)>))
    ensures
        r.1@.0.account() == *account,
        spec_check_token_account(r.1@.0.owner(), r.1@.0.data_len() as int) is Ok ==> r.0 is Ok && r.1@.1.len()
            == 0,
        spec_check_token_account(r.1@.0.owner(), r.1@.0.data_len() as int) is Err ==> create_then(
            r.1@.1,
            r.0,
            rent_of(rent),
            *payer,
            *account,
            165,
            TOKEN_PROGRAM_ID,
            signer_seeds@,
            Some(initialize_account(*account, *mint, *owner)),
        ),
{
    let (checked, seen) = check_token_account(account);
    match checked {
        Ok(()) => (Ok(()), Ghost((seen@, Seq::empty()))),
        Err(_) => {
            let (r, calls) = init_token_account(account, mint, payer, rent, signer_seeds, owner);
            (r, Ghost((seen@, calls@)))
        },
    }
}

/// The result of checking an SPL Token mint: the owner first, then the
/// data length, which must be the mint length.
pub open spec fn spec_check_mint(owner: Seq<u8>, data_len: int) -> Result<(), UtilError> {
    if owner != TOKEN_PROGRAM_ID@ {
        Err(UtilError::InvalidAccountOwner)
    } else if data_len != 82 {
        Err(UtilError::InvalidAccountData)
    } else {
        Ok(())
    }
}

/// Checks an SPL Token mint from its owner and data length.
pub fn check_mint_state(owner: &[u8; 32], data_len: usize) -> (r: Result<(), UtilError>)
    ensures
        r == spec_check_mint(owner@, data_len as int),
{
    if let Err(e) = check_owner_address(owner) {
        return Err(e);
    }
    check_len(data_len, mint_len())
}

/// Validates a mint account's owner and canonical data length.
///
/// The record is the read of `account` that the result was decided on.
pub fn check_mint(account: &AccountView) -> (r: (Result<(), UtilError>, Ghost<Observation>))
    ensures
        r.1@.account() == *account,
        r.0 == spec_check_mint(r.1@.owner(), r.1@.data_len() as int),
{
    let (state, seen) = observe_account(account);
    (check_mint_state(&state.owner, state.data_len), seen)
}

/// The instruction that initializes `mint` as an SPL Token mint.
pub open spec fn initialize_mint(mint: AccountView, decimals: u8, mint_authority: Address, freeze_authority: Option<Address>) -> Instruction {
    Instruction::InitializeMint2 { program: TOKEN_PROGRAM_ID, mint, decimals, mint_authority, freeze_authority }
}

/// Creates and initializes an SPL Token mint account: `account` is created
/// with the mint length, owned by the SPL Token program and paid by
/// `payer`, then initialized with `decimals` and the authorities.
pub fn init_mint<'a>(
    account: &AccountView,
    payer: &AccountView,
    rent: Option<&pinocchio::sysvars::rent::Rent>,
    signer_seeds: &'a [CpiSeed<'a>],
    decimals: u8,
    mint_authority: &Address,
    freeze_authority: Option<&Address>,
) -> (r: (Result<(), UtilError>, Ghost<Seq<Record<'a>>>))
    ensures
        create_then(
            r.1@,
            r.0,
            rent_of(rent),
            *payer,
            *account,
            82,
            TOKEN_PROGRAM_ID,
            signer_seeds@,
            Some(initialize_mint(*account, decimals, *mint_authority, authority_of(freeze_authority))),
        ),
{
    let (created, calls) = create_account_owned_by(
        payer,
        account,
        rent,
        signer_seeds,
        mint_len(),
        &token_program_id(),
    );
    if created.is_err() {
        return (created, calls);
    }
    let (answer, call) = invoke_token_initialize_mint2(account, decimals, mint_authority, freeze_authority);
    (from_program_result(answer), Ghost(calls@.push(call@)))
}

} // verus!
