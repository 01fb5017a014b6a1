use pinocchio::error::ProgramError;
use pinocchio::Address;
use pinocchio_util::associated_token::{check_address, check_derived_address};
use pinocchio_util::ids::{
    same_address, ASSOCIATED_TOKEN_PROGRAM_ID, TOKEN_2022_PROGRAM_ID, TOKEN_PROGRAM_ID,
};
use pinocchio_util::sysvar::get_sysvar;
use pinocchio_util::token_2022::{check_extensible_len, TOKEN_2022_ACCOUNT_DISCRIMINATOR_OFFSET};
use pinocchio_util::token_interface::{
    is_token_2022_program, is_token_program, ACCOUNT_TYPE_OFFSET, MINT_2022_BASE_LEN, MULTISIG_LEN,
};
use pinocchio_util::{check_len, discriminator_of, lamports_after_close, token, token_2022, DataLen, UtilError};

#[test]
fn program_ids_match_the_programs() {
    assert_eq!(TOKEN_PROGRAM_ID, pinocchio_token::ID.to_bytes());
    assert_eq!(TOKEN_2022_PROGRAM_ID, pinocchio_token_2022::ID.to_bytes());
    assert_eq!(ASSOCIATED_TOKEN_PROGRAM_ID, pinocchio_associated_token_account::ID.to_bytes());
}

#[test]
fn lengths_match_the_account_layouts() {
    assert_eq!(<pinocchio_token::state::Account as DataLen>::LEN, pinocchio_token::state::Account::LEN);
    assert_eq!(<pinocchio_token::state::Mint as DataLen>::LEN, pinocchio_token::state::Mint::LEN);
    assert_eq!(
        <pinocchio_token_2022::state::Account as DataLen>::LEN,
        pinocchio_token_2022::state::Account::BASE_LEN
    );
    assert_eq!(
        <pinocchio_token_2022::state::Mint as DataLen>::LEN,
        pinocchio_token_2022::state::Mint::BASE_LEN
    );
    assert_eq!(MINT_2022_BASE_LEN, pinocchio_token_2022::state::Mint::BASE_LEN);
    assert_eq!(ACCOUNT_TYPE_OFFSET, pinocchio_token_2022::state::Account::BASE_LEN);
    assert_eq!(TOKEN_2022_ACCOUNT_DISCRIMINATOR_OFFSET, 165);
    assert_eq!(MULTISIG_LEN, pinocchio_token_2022::state::Multisig::LEN);
}

#[test]
fn compares_addresses() {
    assert!(same_address(&TOKEN_PROGRAM_ID, &TOKEN_PROGRAM_ID));
    assert!(!same_address(&TOKEN_PROGRAM_ID, &TOKEN_2022_PROGRAM_ID));
    assert!(is_token_program(&TOKEN_PROGRAM_ID));
    assert!(!is_token_program(&TOKEN_2022_PROGRAM_ID));
    assert!(is_token_2022_program(&TOKEN_2022_PROGRAM_ID));
    assert!(!is_token_2022_program(&[0u8; 32]));
}

#[test]
fn checks_owners() {
    assert_eq!(token::check_owner_address(&TOKEN_PROGRAM_ID), Ok(()));
    assert_eq!(token::check_owner_address(&TOKEN_2022_PROGRAM_ID), Err(UtilError::InvalidAccountOwner));
    assert_eq!(token_2022::check_owner_address(&TOKEN_2022_PROGRAM_ID), Ok(()));
    assert_eq!(token_2022::check_owner_address(&[7u8; 32]), Err(UtilError::InvalidAccountOwner));
}

#[test]
fn checks_lengths() {
    assert_eq!(check_len(165, 165), Ok(()));
    assert_eq!(check_len(166, 165), Err(UtilError::InvalidAccountData));
    assert_eq!(check_len(0, 82), Err(UtilError::InvalidAccountData));
}

#[test]
fn checks_extensible_lengths() {
    assert_eq!(check_extensible_len(&[0u8; 165], 165, 2), Ok(()));
    assert_eq!(check_extensible_len(&[0u8; 82], 82, 1), Ok(()));
    assert_eq!(check_extensible_len(&[0u8; 100], 82, 1), Err(UtilError::InvalidAccountData));
    let mut extended = vec![0u8; 170];
    extended[165] = 2;
    assert_eq!(check_extensible_len(&extended, 165, 2), Ok(()));
    assert_eq!(check_extensible_len(&extended, 82, 1), Err(UtilError::InvalidAccountData));
    extended[165] = 1;
    assert_eq!(check_extensible_len(&extended, 82, 1), Ok(()));
    assert_eq!(check_extensible_len(&[1u8; 165], 82, 1), Err(UtilError::InvalidAccountData));
}

#[test]
fn reads_discriminators() {
    let data = [9u8, 8, 7, 6, 5, 4, 3, 2, 1, 0];
    assert_eq!(discriminator_of(&data, None).unwrap(), vec![9, 8, 7, 6, 5, 4, 3, 2]);
    assert_eq!(discriminator_of(&data, Some(4)).unwrap(), vec![9, 8, 7, 6]);
    assert_eq!(discriminator_of(&data, Some(0)).unwrap(), Vec::<u8>::new());
    assert_eq!(discriminator_of(&data[..5], None).unwrap_err(), UtilError::InvalidAccountData);
    assert_eq!(discriminator_of(&data, Some(11)).unwrap_err(), UtilError::InvalidAccountData);
}

#[test]
fn closing_moves_all_lamports() {
    assert_eq!(lamports_after_close(100, 5), Ok((0, 105)));
    assert_eq!(lamports_after_close(0, 5), Ok((0, 5)));
    assert_eq!(lamports_after_close(u64::MAX, 1), Err(UtilError::ArithmeticOverflow));
}

#[test]
fn provided_rent_is_returned() {
    let rent = pinocchio::sysvars::rent::Rent::from_bytes(&3480u64.to_le_bytes()).unwrap();
    let loaded = get_sysvar(Some(&rent)).0.unwrap();
    assert_eq!(loaded.try_minimum_balance(10).unwrap(), rent.try_minimum_balance(10).unwrap());
    assert_eq!(loaded.try_minimum_balance(0).unwrap(), 128 * 3480);
}

#[test]
fn derived_addresses_are_checked() {
    let wallet = [11u8; 32];
    let mint = [22u8; 32];
    let (expected, _bump) = Address::find_program_address(
        &[&wallet, &TOKEN_PROGRAM_ID, &mint],
        &pinocchio_associated_token_account::ID,
    );
    let expected = expected.to_bytes();
    assert_eq!(check_address(&expected, &wallet, &mint, &TOKEN_PROGRAM_ID), Ok(()));
    assert_eq!(check_address(&wallet, &wallet, &mint, &TOKEN_PROGRAM_ID), Err(UtilError::InvalidSeeds));
    assert_eq!(
        check_address(&expected, &wallet, &mint, &TOKEN_2022_PROGRAM_ID),
        Err(UtilError::InvalidSeeds)
    );
}

#[test]
fn derived_address_must_exist_and_match() {
    assert_eq!(check_derived_address(Some([1u8; 32]), &[1u8; 32]), Ok(()));
    assert_eq!(check_derived_address(Some([1u8; 32]), &[2u8; 32]), Err(UtilError::InvalidSeeds));
    assert_eq!(check_derived_address(None, &[1u8; 32]), Err(UtilError::InvalidSeeds));
}

#[test]
fn runtime_errors_are_carried_unchanged() {
    assert_eq!(pinocchio_util::error::from_program_result(Ok(())), Ok(()));
    assert_eq!(
        pinocchio_util::error::from_program_result(Err(ProgramError::Custom(3))),
        Err(UtilError::Program(ProgramError::Custom(3)))
    );
}

#[test]
fn default_discriminator_is_eight_bytes() {
    let data = [1u8, 2, 3, 4, 5, 6, 7, 8, 9];
    assert_eq!(discriminator_of(&data, None), discriminator_of(&data, Some(8)));
    assert_eq!(discriminator_of(&data[..7], None), discriminator_of(&data[..7], Some(8)));
}
