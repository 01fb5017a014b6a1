use pinocchio::error::ProgramError;
use pinocchio::Address;
use pinocchio_util::associated_token;
use pinocchio_util::ids::{TOKEN_2022_PROGRAM_ID, TOKEN_PROGRAM_ID};
use pinocchio_util::runtime::AccountState;
use pinocchio_util::{token, token_2022, token_interface, UtilError};

fn extended(len: usize, account_type: u8) -> Vec<u8> {
    let mut data = vec![0u8; len];
    data[165] = account_type;
    data
}

fn state(owner: [u8; 32], data: Result<Vec<u8>, ProgramError>) -> AccountState {
    let data_len = match &data {
        Ok(d) => d.len(),
        Err(_) => 0,
    };
    AccountState { address: [5u8; 32], owner, data_len, data }
}

#[test]
fn spl_token_account_checks_owner_then_length() {
    assert_eq!(token::check_token_account_state(&TOKEN_PROGRAM_ID, 165), Ok(()));
    assert_eq!(token::check_token_account_state(&TOKEN_PROGRAM_ID, 166), Err(UtilError::InvalidAccountData));
    assert_eq!(token::check_token_account_state(&TOKEN_2022_PROGRAM_ID, 165), Err(UtilError::InvalidAccountOwner));
    assert_eq!(token::check_token_account_state(&[3u8; 32], 7), Err(UtilError::InvalidAccountOwner));
}

#[test]
fn spl_mint_checks_owner_then_length() {
    assert_eq!(token::check_mint_state(&TOKEN_PROGRAM_ID, 82), Ok(()));
    assert_eq!(token::check_mint_state(&TOKEN_PROGRAM_ID, 165), Err(UtilError::InvalidAccountData));
    assert_eq!(token::check_mint_state(&TOKEN_2022_PROGRAM_ID, 82), Err(UtilError::InvalidAccountOwner));
}

#[test]
fn token_2022_account_checks_owner_data_then_layout() {
    assert_eq!(token_2022::check_token_account_state(&TOKEN_2022_PROGRAM_ID, Ok(vec![0u8; 165])), Ok(()));
    assert_eq!(token_2022::check_token_account_state(&TOKEN_2022_PROGRAM_ID, Ok(extended(170, 2))), Ok(()));
    assert_eq!(
        token_2022::check_token_account_state(&TOKEN_2022_PROGRAM_ID, Ok(extended(170, 1))),
        Err(UtilError::InvalidAccountData)
    );
    assert_eq!(
        token_2022::check_token_account_state(&TOKEN_2022_PROGRAM_ID, Err(ProgramError::AccountBorrowFailed)),
        Err(UtilError::Program(ProgramError::AccountBorrowFailed))
    );
    assert_eq!(
        token_2022::check_token_account_state(&TOKEN_PROGRAM_ID, Err(ProgramError::AccountBorrowFailed)),
        Err(UtilError::InvalidAccountOwner)
    );
}

#[test]
fn token_2022_mint_checks_owner_data_then_layout() {
    assert_eq!(token_2022::check_mint_state(&TOKEN_2022_PROGRAM_ID, Ok(vec![0u8; 82])), Ok(()));
    assert_eq!(token_2022::check_mint_state(&TOKEN_2022_PROGRAM_ID, Ok(extended(200, 1))), Ok(()));
    assert_eq!(
        token_2022::check_mint_state(&TOKEN_2022_PROGRAM_ID, Ok(extended(200, 2))),
        Err(UtilError::InvalidAccountData)
    );
    assert_eq!(token_2022::check_mint_state(&TOKEN_PROGRAM_ID, Ok(vec![0u8; 82])), Err(UtilError::InvalidAccountOwner));
}

#[test]
fn interface_check_dispatches_on_the_owner() {
    let spl = state(TOKEN_PROGRAM_ID, Ok(extended(170, 2)));
    assert_eq!(token_interface::check_token_account_state(spl), Err(UtilError::InvalidAccountData));
    let spl = AccountState { address: [0u8; 32], owner: TOKEN_PROGRAM_ID, data_len: 165, data: Err(ProgramError::AccountBorrowFailed) };
    assert_eq!(token_interface::check_token_account_state(spl), Ok(()));
    let t22 = state(TOKEN_2022_PROGRAM_ID, Ok(extended(170, 2)));
    assert_eq!(token_interface::check_token_account_state(t22), Ok(()));
    let t22 = state(TOKEN_2022_PROGRAM_ID, Ok(vec![0u8; 82]));
    assert_eq!(token_interface::check_token_account_state(t22), Err(UtilError::InvalidAccountData));
    let other = state([1u8; 32], Ok(vec![0u8; 165]));
    assert_eq!(token_interface::check_token_account_state(other), Err(UtilError::InvalidAccountOwner));
}

#[test]
fn interface_mint_check_dispatches_on_the_owner() {
    assert_eq!(token_interface::check_mint_state(state(TOKEN_PROGRAM_ID, Ok(vec![0u8; 82]))), Ok(()));
    assert_eq!(
        token_interface::check_mint_state(state(TOKEN_PROGRAM_ID, Ok(extended(200, 1)))),
        Err(UtilError::InvalidAccountData)
    );
    assert_eq!(token_interface::check_mint_state(state(TOKEN_2022_PROGRAM_ID, Ok(extended(200, 1)))), Ok(()));
    assert_eq!(
        token_interface::check_mint_state(state([9u8; 32], Ok(vec![0u8; 82]))),
        Err(UtilError::InvalidAccountOwner)
    );
}

#[test]
fn associated_account_needs_a_token_account_then_the_derived_address() {
    let wallet = [11u8; 32];
    let mint = [22u8; 32];
    let (expected, _bump) = Address::find_program_address(
        &[&wallet, &TOKEN_PROGRAM_ID, &mint],
        &pinocchio_associated_token_account::ID,
    );
    let valid = AccountState { address: expected.to_bytes(), owner: TOKEN_PROGRAM_ID, data_len: 165, data: Ok(vec![0u8; 165]) };
    assert_eq!(associated_token::check_state(valid, &wallet, &mint, &TOKEN_PROGRAM_ID), Ok(()));
    let misplaced = AccountState { address: [1u8; 32], owner: TOKEN_PROGRAM_ID, data_len: 165, data: Ok(vec![0u8; 165]) };
    assert_eq!(associated_token::check_state(misplaced, &wallet, &mint, &TOKEN_PROGRAM_ID), Err(UtilError::InvalidSeeds));
    let short = AccountState { address: expected.to_bytes(), owner: TOKEN_PROGRAM_ID, data_len: 82, data: Ok(vec![0u8; 82]) };
    assert_eq!(associated_token::check_state(short, &wallet, &mint, &TOKEN_PROGRAM_ID), Err(UtilError::InvalidAccountData));
    let foreign = AccountState { address: [1u8; 32], owner: [4u8; 32], data_len: 165, data: Ok(vec![0u8; 165]) };
    assert_eq!(associated_token::check_state(foreign, &wallet, &mint, &TOKEN_PROGRAM_ID), Err(UtilError::InvalidAccountOwner));
}
