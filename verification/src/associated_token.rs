//! Helpers for associated token account checks and initialization flows.

use vstd::prelude::*;
use pinocchio::{cpi::Seed as CpiSeed, error::ProgramError, AccountView, Address};

use crate::cpi::{answer_of, answer_result, invoke_create_associated_token_account, invoke_create_idempotent_associated_token_account, invokes, Instruction, Record};
use crate::error::{from_program_result, UtilError};
use crate::ids::same_address;
use crate::runtime::{data_view, locate_account, observe_account, AccountState, Located, Observation};
use crate::token_interface;

verus! {

/// The associated token account address of `wallet` for `mint` under
/// `token_program`: the program address that
/// `Address::derive_program_address` derives from those three seeds and
/// the Associated Token Account program, when one exists.
pub uninterp spec fn associated_token_address(wallet: Seq<u8>, token_program: Seq<u8>, mint: Seq<u8>) -> Option<Seq<u8>>;

/// Derives the associated token account address of `wallet` for `mint`
/// under `token_program` (`Address::derive_program_address` with the
/// Associated Token Account program id).
///
/// Claimed of the outside function: its result depends only on the three
/// seeds, and is named `associated_token_address`.
#[verifier::external_body]
fn derive_associated_token_address(
    wallet: &[u8; 32],
    token_program: &[u8; 32],
    mint: &[u8; 32],
) -> (r: Option<[u8; 32]>)
    ensures
        match r {
            Some(address) => associated_token_address(wallet@, token_program@, mint@) == Some(address@),
            None => associated_token_address(wallet@, token_program@, mint@) is None,
        },
{
    match Address::derive_program_address(
        &[wallet.as_ref(), token_program.as_ref(), mint.as_ref()],
        &pinocchio_associated_token_account::ID,
    ) {
        Some((address, _bump)) => Some(address.to_bytes()),
        None => None,
    }
}

/// Whether `actual` is the expected derived address; a derivation that
/// found no address rejects every account.
pub fn check_derived_address(expected: Option<[u8; 32]>, actual: &[u8; 32]) -> (r: Result<(), UtilError>)
    ensures
        r == (if expected matches Some(e) && e@ == actual@ {
            Ok(())
        } else {
            Err(UtilError::InvalidSeeds)
        }),
{
    match expected {
        None => Err(UtilError::InvalidSeeds),
        Some(expected_address) => {
            if !same_address(&expected_address, actual) {
                return Err(UtilError::InvalidSeeds);
            }
            Ok(())
        },
    }
}

/// Whether `account` is the associated token account address of `wallet`
/// for `mint` under `token_program`.
pub fn check_address(
    account: &[u8; 32],
    wallet: &[u8; 32],
    mint: &[u8; 32],
    token_program: &[u8; 32],
) -> (r: Result<(), UtilError>)
    ensures
        r == (if associated_token_address(wallet@, token_program@, mint@) == Some(account@) {
            Ok(())
        } else {
            Err(UtilError::InvalidSeeds)
        }),
{
    let expected_address = derive_associated_token_address(wallet, token_program, mint);
    check_derived_address(expected_address, account)
}

/// The result of checking an associated token account: first the token
/// account check on its owner and data, then whether its address is the
/// associated token account address of `wallet` for `mint` under
/// `token_program` (`InvalidSeeds` when not).
pub open spec fn spec_check(
    owner: Seq<u8>,
    data_len: int,
    data: Result<Seq<u8>, ProgramError>,
    address: Seq<u8>,
    wallet: Seq<u8>,
    mint: Seq<u8>,
    token_program: Seq<u8>,
) -> Result<(), UtilError> {
    match token_interface::spec_check_token_account(owner, data_len, data) {
        Err(e) => Err(e),
        Ok(()) => if associated_token_address(wallet, token_program, mint) == Some(address) {
            Ok(())
        } else {
            Err(UtilError::InvalidSeeds)
        },
    }
}

/// An associated token account passes exactly when it passes the token
/// account check and its address is the one derived from the wallet, the
/// token program handed over and the mint. A failed token account check is
/// reported first; an address that is not the derived one is reported as
/// `InvalidSeeds`.
pub proof fn lemma_check_derives_from_the_given_program(
    owner: Seq<u8>,
    data_len: int,
    data: Result<Seq<u8>, ProgramError>,
    address: Seq<u8>,
    wallet: Seq<u8>,
    mint: Seq<u8>,
    token_program: Seq<u8>,
)
    ensures
        spec_check(owner, data_len, data, address, wallet, mint, token_program) is Ok ==> associated_token_address(
            wallet,
            token_program,
            mint,
        ) == Some(address),
        spec_check(owner, data_len, data, address, wallet, mint, token_program) is Ok <==> (
        token_interface::spec_check_token_account(owner, data_len, data) is Ok && associated_token_address(
            wallet,
            token_program,
            mint,
        ) == Some(address)),
        token_interface::spec_check_token_account(owner, data_len, data) is Err ==> spec_check(
            owner,
            data_len,
            data,
            address,
            wallet,
            mint,
            token_program,
        ) == token_interface::spec_check_token_account(owner, data_len, data),
        token_interface::spec_check_token_account(owner, data_len, data) is Ok && associated_token_address(
            wallet,
            token_program,
            mint,
        ) != Some(address) ==> spec_check(owner, data_len, data, address, wallet, mint, token_program)
            == Err::<(), UtilError>(UtilError::InvalidSeeds),
{
}

/// Checks an associated token account from what was read of it and the
/// addresses of the wallet, mint and token program.
pub fn check_state(
    state: AccountState,
    wallet: &[u8; 32],
    mint: &[u8; 32],
    token_program: &[u8; 32],
) -> (r: Result<(), UtilError>)
    ensures
        r == spec_check(
            state.owner@,
            state.data_len as int,
            data_view(state.data),
            state.address@,
            wallet@,
            mint@,
            token_program@,
        ),
{
    let address = state.address;
    token_interface::check_token_account_state(state)?;
    check_address(&address, wallet, mint, token_program)
}

/// Validates an associated token account's owner, token layout, and PDA
/// derivation.
///
/// The record is the reads the result was decided on: of `account`, and of
/// the addresses of `wallet`, `mint` and `token_program`.
pub fn check(
    account: &AccountView,
    wallet: &AccountView,
    mint: &AccountView,
    token_program: &AccountView,
) -> (r: (Result<(), UtilError>, Ghost<(Observation, Located, Located, Located)>))
    ensures
        r.1@.0.account() == *account,
        r.1@.1.account() == *wallet,
        r.1@.2.account() == *mint,
        r.1@.3.account() == *token_program,
        r.0 == spec_check(
            r.1@.0.owner(),
            r.1@.0.data_len() as int,
            r.1@.0.data(),
            r.1@.0.address(),
            r.1@.1.address(),
            r.1@.2.address(),
            r.1@.3.address(),
        ),
{
    let (state, seen) = observe_account(account);
    let (wallet_address, wallet_seen) = locate_account(wallet);
    let (mint_address, mint_seen) = locate_account(mint);
    let (program_address, program_seen) = locate_account(token_program);
    let r = check_state(state, &wallet_address, &mint_address, &program_address);
    (r, Ghost((seen@, wallet_seen@, mint_seen@, program_seen@)))
}

/// The instruction that creates `account` as the associated token account
/// of `wallet` for `mint`, paid by `payer`.
pub open spec fn create_instruction(
    idempotent: bool,
    payer: AccountView,
    account: AccountView,
    wallet: AccountView,
    mint: AccountView,
    system_program: AccountView,
    token_program: AccountView,
) -> Instruction {
    Instruction::CreateAssociatedTokenAccount {
        idempotent,
        funding_account: payer,
        account,
        wallet,
        mint,
        system_program,
        token_program,
    }
}

/// Creates and initializes an associated token account.
///
/// Returns an error if the target account already exists. The record is the
/// one `Create` invocation, whose answer is returned.
pub fn init<'a>(
    account: &AccountView,
    mint: &AccountView,
    payer: &AccountView,
    wallet: &AccountView,
    system_program: &AccountView,
    token_program: &AccountView,
    signer_seeds: &'a [CpiSeed<'a>],
) -> (r: (Result<(), UtilError>, Ghost<Seq<Record<'a>>>))
    ensures
        r.1@.len() == 1,
        r.1@[0].signers() == signer_seeds@,
        invokes(r.1@[0], create_instruction(false, *payer, *account, *wallet, *mint, *system_program, *token_program)),
        r.0 == answer_result(answer_of(r.1@[0])),
{
    let (answer, call) = invoke_create_associated_token_account(
        payer,
        account,
        wallet,
        mint,
        system_program,
        token_program,
        signer_seeds,
    );
    (from_program_result(answer), Ghost(Seq::empty().push(call@)))
}

/// Creates and initializes an associated token account only when missing.
///
/// Returns an error if the account exists with a different owner. The
/// record is the one `CreateIdempotent` invocation, whose answer is
/// returned.
pub fn init_if_needed<'a>(
    account: &AccountView,
    mint: &AccountView,
    payer: &AccountView,
    wallet: &AccountView,
    system_program: &AccountView,
    token_program: &AccountView,
    signer_seeds: &'a [CpiSeed<'a>],
) -> (r: (Result<(), UtilError>, Ghost<Seq<Record<'a>>>))
    ensures
        r.1@.len() == 1,
        r.1@[0].signers() == signer_seeds@,
        invokes(r.1@[0], create_instruction(true, *payer, *account, *wallet, *mint, *system_program, *token_program)),
        r.0 == answer_result(answer_of(r.1@[0])),
{
    let (answer, call) = invoke_create_idempotent_associated_token_account(
        payer,
        account,
        wallet,
        mint,
        system_program,
        token_program,
        signer_seeds,
    );
    (from_program_result(answer), Ghost(Seq::empty().push(call@)))
}

} // verus!
