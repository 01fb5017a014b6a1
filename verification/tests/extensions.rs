use pinocchio_util::token_interface::{
    find_mint_account_size, find_mint_extension, get_all_extensions, ExtensionType,
    ACCOUNT_TYPE_OFFSET, MINT_2022_BASE_LEN, MINT_TLV_START, MULTISIG_LEN,
};
use pinocchio_util::UtilError;

/// Base Token-2022 data followed by an account type byte and TLV entries.
fn extensible_data(account_type: u8, entries: &[(u16, &[u8])]) -> Vec<u8> {
    let mut data = vec![0u8; ACCOUNT_TYPE_OFFSET];
    data.push(account_type);
    for (code, value) in entries {
        data.extend_from_slice(&code.to_le_bytes());
        data.extend_from_slice(&(value.len() as u16).to_le_bytes());
        data.extend_from_slice(value);
    }
    data
}

#[test]
fn codes_convert_both_ways() {
    for code in 0u16..29 {
        let t = ExtensionType::try_from(code).unwrap();
        assert_eq!(t.code(), code);
    }
    assert_eq!(ExtensionType::try_from(3u16).unwrap(), ExtensionType::MintCloseAuthority);
    assert_eq!(ExtensionType::try_from(28u16).unwrap(), ExtensionType::PermissionedBurn);
    assert_eq!(ExtensionType::try_from(29u16).unwrap_err(), UtilError::InvalidAccountData);
    assert_eq!(ExtensionType::try_from(u16::MAX).unwrap_err(), UtilError::InvalidAccountData);
}

#[test]
fn classifies_mint_extensions() {
    assert!(ExtensionType::TransferFeeConfig.is_mint_extension());
    assert!(ExtensionType::TokenMetadata.is_mint_extension());
    assert!(ExtensionType::PermissionedBurn.is_mint_extension());
    assert!(!ExtensionType::Uninitialized.is_mint_extension());
    assert!(!ExtensionType::TransferFeeAmount.is_mint_extension());
    assert!(!ExtensionType::ImmutableOwner.is_mint_extension());
    assert!(!ExtensionType::PausableAccount.is_mint_extension());
}

#[test]
fn entry_sizes() {
    assert_eq!(ExtensionType::TransferFeeConfig.try_get_type_len().unwrap(), 108);
    assert_eq!(ExtensionType::TransferFeeConfig.try_get_tlv_len().unwrap(), 112);
    assert_eq!(ExtensionType::Pausable.try_get_tlv_len().unwrap(), 37);
    assert_eq!(ExtensionType::NonTransferable.try_get_tlv_len().unwrap(), 4);
    assert_eq!(
        ExtensionType::TokenMetadata.try_get_tlv_len().unwrap_err(),
        UtilError::InvalidArgument
    );
    assert_eq!(
        ExtensionType::ConfidentialTransferAccount.try_get_type_len().unwrap_err(),
        UtilError::InvalidArgument
    );
}

#[test]
fn lists_no_extensions_for_base_data() {
    assert_eq!(get_all_extensions(&[]).unwrap(), vec![]);
    assert_eq!(get_all_extensions(&[7u8; 166]).unwrap(), vec![]);
}

#[test]
fn lists_extensions_in_order() {
    let data = extensible_data(1, &[(3, &[0u8; 32]), (9, &[]), (26, &[1u8; 33])]);
    assert_eq!(
        get_all_extensions(&data).unwrap(),
        vec![
            ExtensionType::MintCloseAuthority,
            ExtensionType::NonTransferable,
            ExtensionType::Pausable,
        ]
    );
    let account = extensible_data(2, &[(7, &[])]);
    assert_eq!(get_all_extensions(&account).unwrap(), vec![ExtensionType::ImmutableOwner]);
}

#[test]
fn ignores_a_trailing_partial_header() {
    let mut data = extensible_data(1, &[(3, &[0u8; 32])]);
    data.extend_from_slice(&[5, 0, 1]);
    assert_eq!(get_all_extensions(&data).unwrap(), vec![ExtensionType::MintCloseAuthority]);
}

#[test]
fn rejects_bad_extension_data() {
    let wrong_type = extensible_data(3, &[(3, &[0u8; 32])]);
    assert_eq!(get_all_extensions(&wrong_type).unwrap_err(), UtilError::InvalidAccountData);
    let unknown = extensible_data(1, &[(29, &[])]);
    assert_eq!(get_all_extensions(&unknown).unwrap_err(), UtilError::InvalidAccountData);
    let mut overrun = extensible_data(1, &[(3, &[0u8; 32])]);
    overrun.truncate(overrun.len() - 1);
    assert_eq!(get_all_extensions(&overrun).unwrap_err(), UtilError::InvalidAccountData);
}

#[test]
fn locates_mint_extension_values() {
    let data = extensible_data(1, &[(3, &[0u8; 32]), (26, &[1u8; 33])]);
    assert_eq!(find_mint_extension(&data, ExtensionType::MintCloseAuthority).unwrap(), (170, 202));
    assert_eq!(find_mint_extension(&data, ExtensionType::Pausable).unwrap(), (206, 239));
    assert_eq!(
        find_mint_extension(&data, ExtensionType::TransferHook).unwrap_err(),
        UtilError::InvalidAccountData
    );
}

#[test]
fn lookup_needs_mint_data() {
    let account = extensible_data(2, &[(3, &[0u8; 32])]);
    assert_eq!(
        find_mint_extension(&account, ExtensionType::MintCloseAuthority).unwrap_err(),
        UtilError::InvalidAccountData
    );
    assert_eq!(
        find_mint_extension(&[1u8; 166], ExtensionType::MintCloseAuthority).unwrap_err(),
        UtilError::InvalidAccountData
    );
}

#[test]
fn listed_extensions_are_found() {
    let data = extensible_data(1, &[(3, &[0u8; 32]), (9, &[]), (26, &[1u8; 33])]);
    let listed = get_all_extensions(&data).unwrap();
    for code in 0u16..29 {
        let t = ExtensionType::try_from(code).unwrap();
        assert_eq!(find_mint_extension(&data, t).is_ok(), listed.contains(&t));
    }
}

#[test]
fn mint_size_without_extensions() {
    assert_eq!(find_mint_account_size(None).unwrap(), MINT_2022_BASE_LEN);
    assert_eq!(find_mint_account_size(Some(&vec![])).unwrap(), 82);
}

#[test]
fn mint_size_counts_each_type_once() {
    let one = vec![ExtensionType::MintCloseAuthority];
    assert_eq!(find_mint_account_size(Some(&one)).unwrap(), MINT_TLV_START + 36);
    let repeated = vec![
        ExtensionType::MintCloseAuthority,
        ExtensionType::MintCloseAuthority,
    ];
    assert_eq!(find_mint_account_size(Some(&repeated)).unwrap(), 202);
    let a = vec![ExtensionType::TransferFeeConfig, ExtensionType::Pausable];
    let b = vec![ExtensionType::Pausable, ExtensionType::TransferFeeConfig, ExtensionType::Pausable];
    assert_eq!(find_mint_account_size(Some(&a)).unwrap(), 166 + 112 + 37);
    assert_eq!(find_mint_account_size(Some(&a)), find_mint_account_size(Some(&b)));
}

#[test]
fn mint_size_avoids_the_multisig_length() {
    let exts = vec![
        ExtensionType::TransferFeeConfig,
        ExtensionType::MintCloseAuthority,
        ExtensionType::Pausable,
        ExtensionType::NonTransferable,
    ];
    assert_eq!(find_mint_account_size(Some(&exts)).unwrap(), MULTISIG_LEN + 2);
}

#[test]
fn mint_size_rejects_other_extensions() {
    let account_ext = vec![ExtensionType::MintCloseAuthority, ExtensionType::ImmutableOwner];
    assert_eq!(find_mint_account_size(Some(&account_ext)).unwrap_err(), UtilError::InvalidArgument);
    let variable = vec![ExtensionType::TokenMetadata];
    assert_eq!(find_mint_account_size(Some(&variable)).unwrap_err(), UtilError::InvalidArgument);
}

#[test]
fn appending_an_entry_appends_its_type() {
    let base = extensible_data(1, &[(3, &[7u8; 32]), (18, &[1u8; 64])]);
    let before = get_all_extensions(&base).unwrap();
    let mut appended = base.clone();
    appended.extend_from_slice(&14u16.to_le_bytes());
    appended.extend_from_slice(&3u16.to_le_bytes());
    appended.extend_from_slice(&[1u8, 2, 3]);
    let mut expected = before.clone();
    expected.push(ExtensionType::TransferHook);
    assert_eq!(get_all_extensions(&appended).unwrap(), expected);

    let empty = extensible_data(2, &[]);
    let mut one = empty.clone();
    one.extend_from_slice(&7u16.to_le_bytes());
    one.extend_from_slice(&0u16.to_le_bytes());
    assert_eq!(get_all_extensions(&one).unwrap(), vec![ExtensionType::ImmutableOwner]);
}

#[test]
fn hands_out_the_value_bytes_of_an_extension() {
    let data = extensible_data(1, &[(3, &[4u8; 32]), (26, &[9u8; 33])]);
    assert_eq!(
        pinocchio_util::token_interface::mint_extension_bytes(&data, ExtensionType::Pausable).unwrap(),
        &[9u8; 33][..]
    );
    assert_eq!(
        pinocchio_util::token_interface::mint_extension_bytes(&data, ExtensionType::MintCloseAuthority).unwrap(),
        &[4u8; 32][..]
    );
    assert_eq!(
        pinocchio_util::token_interface::mint_extension_bytes(&data, ExtensionType::TransferHook).unwrap_err(),
        UtilError::InvalidAccountData
    );
}
