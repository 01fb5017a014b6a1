//! Unified helpers that dispatch to SPL Token or Token-2022 implementations,
//! and parsing of Token-2022 extension (TLV) data.

use vstd::prelude::*;
use pinocchio::{cpi::Seed as CpiSeed, error::ProgramError, sysvars::rent::Rent, AccountView, Address};

use crate::cpi::{authority_of, create_then, rent_of, Record};
use crate::error::UtilError;
use crate::ids::{same_address, token_2022_program_id, token_program_id, TOKEN_2022_PROGRAM_ID, TOKEN_PROGRAM_ID};
use crate::runtime::{account_data, data_view, observe_account, AccountState, DataRead, Observation};
use crate::{token, token_2022};

verus! {

/// Offset of the account type byte in extensible Token-2022 account data
/// (the length of a base Token-2022 token account).
pub const ACCOUNT_TYPE_OFFSET: usize = 165;
/// Account type byte of an extensible mint.
pub const MINT_ACCOUNT_TYPE: u8 = 1;
/// Account type byte of an extensible token account.
pub const TOKEN_ACCOUNT_TYPE: u8 = 2;
/// Size of the type field of a TLV entry.
pub const TYPE_SIZE: usize = 2;
/// Size of the length field of a TLV entry.
pub const LENGTH_SIZE: usize = 2;
/// Size of the header of a TLV entry.
pub const TLV_HEADER_SIZE: usize = 4;
/// Offset of the first TLV entry.
pub const MINT_TLV_START: usize = 166;
/// Length of a Token-2022 mint without extensions.
pub const MINT_2022_BASE_LEN: usize = 82;
/// Length of a Token-2022 multisig account.
pub const MULTISIG_LEN: usize = 355;

/// A list of Token-2022 extension types.
pub type ExtensionsVec = Vec<ExtensionType>;

/// Token-2022 extension type identifiers.
#[derive(Clone, Copy, Debug, PartialEq, Eq, Structural)]
pub enum ExtensionType {
    Uninitialized,
    TransferFeeConfig,
    TransferFeeAmount,
    MintCloseAuthority,
    ConfidentialTransferMint,
    ConfidentialTransferAccount,
    DefaultAccountState,
    ImmutableOwner,
    MemoTransfer,
    NonTransferable,
    InterestBearingConfig,
    CpiGuard,
    PermanentDelegate,
    NonTransferableAccount,
    TransferHook,
    TransferHookAccount,
    ConfidentialTransferFeeConfig,
    ConfidentialTransferFeeAmount,
    MetadataPointer,
    TokenMetadata,
    GroupPointer,
    TokenGroup,
    GroupMemberPointer,
    TokenGroupMember,
    ConfidentialMintBurn,
    ScaledUiAmount,
    Pausable,
    PausableAccount,
    PermissionedBurn,
}

impl ExtensionType {
    /// The wire code of this extension type.
    pub open spec fn spec_code(self) -> u16 {
        match self {
            ExtensionType::Uninitialized => 0,
            ExtensionType::TransferFeeConfig => 1,
            ExtensionType::TransferFeeAmount => 2,
            ExtensionType::MintCloseAuthority => 3,
            ExtensionType::ConfidentialTransferMint => 4,
            ExtensionType::ConfidentialTransferAccount => 5,
            ExtensionType::DefaultAccountState => 6,
            ExtensionType::ImmutableOwner => 7,
            ExtensionType::MemoTransfer => 8,
            ExtensionType::NonTransferable => 9,
            ExtensionType::InterestBearingConfig => 10,
            ExtensionType::CpiGuard => 11,
            ExtensionType::PermanentDelegate => 12,
            ExtensionType::NonTransferableAccount => 13,
            ExtensionType::TransferHook => 14,
            ExtensionType::TransferHookAccount => 15,
            ExtensionType::ConfidentialTransferFeeConfig => 16,
            ExtensionType::ConfidentialTransferFeeAmount => 17,
            ExtensionType::MetadataPointer => 18,
            ExtensionType::TokenMetadata => 19,
            ExtensionType::GroupPointer => 20,
            ExtensionType::TokenGroup => 21,
            ExtensionType::GroupMemberPointer => 22,
            ExtensionType::TokenGroupMember => 23,
            ExtensionType::ConfidentialMintBurn => 24,
            ExtensionType::ScaledUiAmount => 25,
            ExtensionType::Pausable => 26,
            ExtensionType::PausableAccount => 27,
            ExtensionType::PermissionedBurn => 28,
        }
    }

    /// The wire code of this extension type.
    pub fn code(self) -> (r: u16)
        ensures
            r == self.spec_code(),
    {
        match self {
            ExtensionType::Uninitialized => 0,
            ExtensionType::TransferFeeConfig => 1,
            ExtensionType::TransferFeeAmount => 2,
            ExtensionType::MintCloseAuthority => 3,
            ExtensionType::ConfidentialTransferMint => 4,
            ExtensionType::ConfidentialTransferAccount => 5,
            ExtensionType::DefaultAccountState => 6,
            ExtensionType::ImmutableOwner => 7,
            ExtensionType::MemoTransfer => 8,
            ExtensionType::NonTransferable => 9,
            ExtensionType::InterestBearingConfig => 10,
            ExtensionType::CpiGuard => 11,
            ExtensionType::PermanentDelegate => 12,
            ExtensionType::NonTransferableAccount => 13,
            ExtensionType::TransferHook => 14,
            ExtensionType::TransferHookAccount => 15,
            ExtensionType::ConfidentialTransferFeeConfig => 16,
            ExtensionType::ConfidentialTransferFeeAmount => 17,
            ExtensionType::MetadataPointer => 18,
            ExtensionType::TokenMetadata => 19,
            ExtensionType::GroupPointer => 20,
            ExtensionType::TokenGroup => 21,
            ExtensionType::GroupMemberPointer => 22,
            ExtensionType::TokenGroupMember => 23,
            ExtensionType::ConfidentialMintBurn => 24,
            ExtensionType::ScaledUiAmount => 25,
            ExtensionType::Pausable => 26,
            ExtensionType::PausableAccount => 27,
            ExtensionType::PermissionedBurn => 28,
        }
    }

    /// The extension type with wire code `value`, if there is one.
    pub open spec fn spec_try_from(value: u16) -> Result<ExtensionType, UtilError> {
        match value {
            0 => Ok(ExtensionType::Uninitialized),
            1 => Ok(ExtensionType::TransferFeeConfig),
            2 => Ok(ExtensionType::TransferFeeAmount),
            3 => Ok(ExtensionType::MintCloseAuthority),
            4 => Ok(ExtensionType::ConfidentialTransferMint),
            5 => Ok(ExtensionType::ConfidentialTransferAccount),
            6 => Ok(ExtensionType::DefaultAccountState),
            7 => Ok(ExtensionType::ImmutableOwner),
            8 => Ok(ExtensionType::MemoTransfer),
            9 => Ok(ExtensionType::NonTransferable),
            10 => Ok(ExtensionType::InterestBearingConfig),
            11 => Ok(ExtensionType::CpiGuard),
            12 => Ok(ExtensionType::PermanentDelegate),
            13 => Ok(ExtensionType::NonTransferableAccount),
            14 => Ok(ExtensionType::TransferHook),
            15 => Ok(ExtensionType::TransferHookAccount),
            16 => Ok(ExtensionType::ConfidentialTransferFeeConfig),
            17 => Ok(ExtensionType::ConfidentialTransferFeeAmount),
            18 => Ok(ExtensionType::MetadataPointer),
            19 => Ok(ExtensionType::TokenMetadata),
            20 => Ok(ExtensionType::GroupPointer),
            21 => Ok(ExtensionType::TokenGroup),
            22 => Ok(ExtensionType::GroupMemberPointer),
            23 => Ok(ExtensionType::TokenGroupMember),
            24 => Ok(ExtensionType::ConfidentialMintBurn),
            25 => Ok(ExtensionType::ScaledUiAmount),
            26 => Ok(ExtensionType::Pausable),
            27 => Ok(ExtensionType::PausableAccount),
            28 => Ok(ExtensionType::PermissionedBurn),
            _ => Err(UtilError::InvalidAccountData),
        }
    }

    /// Whether this extension type belongs to mint accounts.
    pub open spec fn spec_is_mint_extension(self) -> bool {
        match self {
            ExtensionType::TransferFeeConfig => true,
            ExtensionType::MintCloseAuthority => true,
            ExtensionType::ConfidentialTransferMint => true,
            ExtensionType::DefaultAccountState => true,
            ExtensionType::NonTransferable => true,
            ExtensionType::InterestBearingConfig => true,
            ExtensionType::PermanentDelegate => true,
            ExtensionType::TransferHook => true,
            ExtensionType::ConfidentialTransferFeeConfig => true,
            ExtensionType::MetadataPointer => true,
            ExtensionType::TokenMetadata => true,
            ExtensionType::GroupPointer => true,
            ExtensionType::TokenGroup => true,
            ExtensionType::GroupMemberPointer => true,
            ExtensionType::ConfidentialMintBurn => true,
            ExtensionType::TokenGroupMember => true,
            ExtensionType::ScaledUiAmount => true,
            ExtensionType::Pausable => true,
            ExtensionType::PermissionedBurn => true,
            _ => false,
        }
    }

    /// The fixed size of this extension's value, for the types whose value has one.
    pub open spec fn spec_type_len(self) -> Result<usize, UtilError> {
        match self {
            ExtensionType::Uninitialized => Ok(0),
            ExtensionType::TransferFeeConfig => Ok(108),
            ExtensionType::TransferFeeAmount => Ok(8),
            ExtensionType::MintCloseAuthority => Ok(32),
            ExtensionType::ConfidentialTransferMint => Err(UtilError::InvalidArgument),
            ExtensionType::ConfidentialTransferAccount => Err(UtilError::InvalidArgument),
            ExtensionType::DefaultAccountState => Ok(1),
            ExtensionType::ImmutableOwner => Ok(0),
            ExtensionType::MemoTransfer => Ok(1),
            ExtensionType::NonTransferable => Ok(0),
            ExtensionType::InterestBearingConfig => Ok(52),
            ExtensionType::CpiGuard => Ok(1),
            ExtensionType::PermanentDelegate => Ok(32),
            ExtensionType::NonTransferableAccount => Ok(0),
            ExtensionType::TransferHook => Ok(64),
            ExtensionType::TransferHookAccount => Ok(1),
            ExtensionType::ConfidentialTransferFeeConfig => Err(UtilError::InvalidArgument),
            ExtensionType::ConfidentialTransferFeeAmount => Err(UtilError::InvalidArgument),
            ExtensionType::MetadataPointer => Ok(64),
            ExtensionType::TokenMetadata => Err(UtilError::InvalidArgument),
            ExtensionType::GroupPointer => Ok(64),
            ExtensionType::TokenGroup => Ok(80),
            ExtensionType::GroupMemberPointer => Ok(64),
            ExtensionType::TokenGroupMember => Ok(72),
            ExtensionType::ConfidentialMintBurn => Err(UtilError::InvalidArgument),
            ExtensionType::ScaledUiAmount => Ok(56),
            ExtensionType::Pausable => Ok(33),
            ExtensionType::PausableAccount => Ok(0),
            ExtensionType::PermissionedBurn => Ok(32),
        }
    }

    /// Whether this extension type belongs to mint accounts.
    pub fn is_mint_extension(self) -> (r: bool)
        ensures
            r == self.spec_is_mint_extension(),
    {
        match self {
            ExtensionType::TransferFeeConfig => true,
            ExtensionType::MintCloseAuthority => true,
            ExtensionType::ConfidentialTransferMint => true,
            ExtensionType::DefaultAccountState => true,
            ExtensionType::NonTransferable => true,
            ExtensionType::InterestBearingConfig => true,
            ExtensionType::PermanentDelegate => true,
            ExtensionType::TransferHook => true,
            ExtensionType::ConfidentialTransferFeeConfig => true,
            ExtensionType::MetadataPointer => true,
            ExtensionType::TokenMetadata => true,
            ExtensionType::GroupPointer => true,
            ExtensionType::TokenGroup => true,
            ExtensionType::GroupMemberPointer => true,
            ExtensionType::ConfidentialMintBurn => true,
            ExtensionType::TokenGroupMember => true,
            ExtensionType::ScaledUiAmount => true,
            ExtensionType::Pausable => true,
            ExtensionType::PermissionedBurn => true,
            _ => false,
        }
    }

    /// The fixed size of this extension's value; variable-sized and unsupported
    /// types are rejected.
    pub fn try_get_type_len(self) -> (r: Result<usize, UtilError>)
        ensures
            r == self.spec_type_len(),
    {
        match self {
            ExtensionType::Uninitialized => Ok(0),
            ExtensionType::TransferFeeConfig => Ok(108),
            ExtensionType::TransferFeeAmount => Ok(8),
            ExtensionType::MintCloseAuthority => Ok(32),
            ExtensionType::DefaultAccountState => Ok(1),
            ExtensionType::ImmutableOwner => Ok(0),
            ExtensionType::MemoTransfer => Ok(1),
            ExtensionType::NonTransferable => Ok(0),
            ExtensionType::InterestBearingConfig => Ok(52),
            ExtensionType::CpiGuard => Ok(1),
            ExtensionType::PermanentDelegate => Ok(32),
            ExtensionType::NonTransferableAccount => Ok(0),
            ExtensionType::TransferHook => Ok(64),
            ExtensionType::TransferHookAccount => Ok(1),
            ExtensionType::MetadataPointer => Ok(64),
            ExtensionType::GroupPointer => Ok(64),
            ExtensionType::TokenGroup => Ok(80),
            ExtensionType::GroupMemberPointer => Ok(64),
            ExtensionType::TokenGroupMember => Ok(72),
            ExtensionType::ScaledUiAmount => Ok(56),
            ExtensionType::Pausable => Ok(33),
            ExtensionType::PausableAccount => Ok(0),
            ExtensionType::PermissionedBurn => Ok(32),
            ExtensionType::TokenMetadata => Err(UtilError::InvalidArgument),
            ExtensionType::ConfidentialTransferMint => Err(UtilError::InvalidArgument),
            ExtensionType::ConfidentialTransferAccount => Err(UtilError::InvalidArgument),
            ExtensionType::ConfidentialTransferFeeConfig => Err(UtilError::InvalidArgument),
            ExtensionType::ConfidentialTransferFeeAmount => Err(UtilError::InvalidArgument),
            ExtensionType::ConfidentialMintBurn => Err(UtilError::InvalidArgument),
        }
    }

}

impl core::convert::TryFrom<u16> for ExtensionType {
    type Error = UtilError;

    fn try_from(value: u16) -> (r: Result<ExtensionType, UtilError>) {
        match value {
            0 => Ok(ExtensionType::Uninitialized),
            1 => Ok(ExtensionType::TransferFeeConfig),
            2 => Ok(ExtensionType::TransferFeeAmount),
            3 => Ok(ExtensionType::MintCloseAuthority),
            4 => Ok(ExtensionType::ConfidentialTransferMint),
            5 => Ok(ExtensionType::ConfidentialTransferAccount),
            6 => Ok(ExtensionType::DefaultAccountState),
            7 => Ok(ExtensionType::ImmutableOwner),
            8 => Ok(ExtensionType::MemoTransfer),
            9 => Ok(ExtensionType::NonTransferable),
            10 => Ok(ExtensionType::InterestBearingConfig),
            11 => Ok(ExtensionType::CpiGuard),
            12 => Ok(ExtensionType::PermanentDelegate),
            13 => Ok(ExtensionType::NonTransferableAccount),
            14 => Ok(ExtensionType::TransferHook),
            15 => Ok(ExtensionType::TransferHookAccount),
            16 => Ok(ExtensionType::ConfidentialTransferFeeConfig),
            17 => Ok(ExtensionType::ConfidentialTransferFeeAmount),
            18 => Ok(ExtensionType::MetadataPointer),
            19 => Ok(ExtensionType::TokenMetadata),
            20 => Ok(ExtensionType::GroupPointer),
            21 => Ok(ExtensionType::TokenGroup),
            22 => Ok(ExtensionType::GroupMemberPointer),
            23 => Ok(ExtensionType::TokenGroupMember),
            24 => Ok(ExtensionType::ConfidentialMintBurn),
            25 => Ok(ExtensionType::ScaledUiAmount),
            26 => Ok(ExtensionType::Pausable),
            27 => Ok(ExtensionType::PausableAccount),
            28 => Ok(ExtensionType::PermissionedBurn),
            _ => Err(UtilError::InvalidAccountData),
        }
    }
}

impl vstd::std_specs::convert::TryFromSpecImpl<u16> for ExtensionType {
    open spec fn obeys_try_from_spec() -> bool {
        true
    }

    open spec fn try_from_spec(value: u16) -> Result<ExtensionType, UtilError> {
        ExtensionType::spec_try_from(value)
    }
}

impl ExtensionType {
    /// Size of a TLV entry holding this extension: header plus value.
    pub open spec fn spec_tlv_len(self) -> Result<usize, UtilError> {
        match self.spec_type_len() {
            Ok(n) => Ok((n + TLV_HEADER_SIZE) as usize),
            Err(e) => Err(e),
        }
    }

    /// Size of a TLV entry holding this extension: header plus value.
    pub fn try_get_tlv_len(self) -> (r: Result<usize, UtilError>)
        ensures
            r == self.spec_tlv_len(),
    {
        match self.try_get_type_len() {
            Ok(n) => Ok(n + TYPE_SIZE + LENGTH_SIZE),
            Err(e) => Err(e),
        }
    }
}

/// Converting a wire code back gives the extension type it came from.
pub proof fn lemma_try_from_code(t: ExtensionType)
    ensures
        ExtensionType::spec_try_from(t.spec_code()) == Ok::<ExtensionType, UtilError>(t),
        t.spec_code() < 29,
{
}

/// A code that converts names the extension type whose code it is.
pub proof fn lemma_code_of_try_from(value: u16)
    ensures
        ExtensionType::spec_try_from(value) is Ok <==> value < 29,
        ExtensionType::spec_try_from(value) matches Ok(t) ==> t.spec_code() == value,
{
}

/// The wire codes of the extension types are Token-2022's: `Uninitialized`
/// is 0, `TransferFeeConfig` 1, and so on in declaration order up to
/// `PermissionedBurn` at 28, in both directions; any larger code is
/// refused.
pub proof fn lemma_wire_codes()
    ensures
        ExtensionType::Uninitialized.spec_code() == 0 && ExtensionType::spec_try_from(0) == Ok::<ExtensionType, UtilError>(ExtensionType::Uninitialized),
        ExtensionType::TransferFeeConfig.spec_code() == 1 && ExtensionType::spec_try_from(1) == Ok::<ExtensionType, UtilError>(ExtensionType::TransferFeeConfig),
        ExtensionType::TransferFeeAmount.spec_code() == 2 && ExtensionType::spec_try_from(2) == Ok::<ExtensionType, UtilError>(ExtensionType::TransferFeeAmount),
        ExtensionType::MintCloseAuthority.spec_code() == 3 && ExtensionType::spec_try_from(3) == Ok::<ExtensionType, UtilError>(ExtensionType::MintCloseAuthority),
        ExtensionType::ConfidentialTransferMint.spec_code() == 4 && ExtensionType::spec_try_from(4) == Ok::<ExtensionType, UtilError>(ExtensionType::ConfidentialTransferMint),
        ExtensionType::ConfidentialTransferAccount.spec_code() == 5 && ExtensionType::spec_try_from(5) == Ok::<ExtensionType, UtilError>(ExtensionType::ConfidentialTransferAccount),
        ExtensionType::DefaultAccountState.spec_code() == 6 && ExtensionType::spec_try_from(6) == Ok::<ExtensionType, UtilError>(ExtensionType::DefaultAccountState),
        ExtensionType::ImmutableOwner.spec_code() == 7 && ExtensionType::spec_try_from(7) == Ok::<ExtensionType, UtilError>(ExtensionType::ImmutableOwner),
        ExtensionType::MemoTransfer.spec_code() == 8 && ExtensionType::spec_try_from(8) == Ok::<ExtensionType, UtilError>(ExtensionType::MemoTransfer),
        ExtensionType::NonTransferable.spec_code() == 9 && ExtensionType::spec_try_from(9) == Ok::<ExtensionType, UtilError>(ExtensionType::NonTransferable),
        ExtensionType::InterestBearingConfig.spec_code() == 10 && ExtensionType::spec_try_from(10) == Ok::<ExtensionType, UtilError>(ExtensionType::InterestBearingConfig),
        ExtensionType::CpiGuard.spec_code() == 11 && ExtensionType::spec_try_from(11) == Ok::<ExtensionType, UtilError>(ExtensionType::CpiGuard),
        ExtensionType::PermanentDelegate.spec_code() == 12 && ExtensionType::spec_try_from(12) == Ok::<ExtensionType, UtilError>(ExtensionType::PermanentDelegate),
        ExtensionType::NonTransferableAccount.spec_code() == 13 && ExtensionType::spec_try_from(13) == Ok::<ExtensionType, UtilError>(ExtensionType::NonTransferableAccount),
        ExtensionType::TransferHook.spec_code() == 14 && ExtensionType::spec_try_from(14) == Ok::<ExtensionType, UtilError>(ExtensionType::TransferHook),
        ExtensionType::TransferHookAccount.spec_code() == 15 && ExtensionType::spec_try_from(15) == Ok::<ExtensionType, UtilError>(ExtensionType::TransferHookAccount),
        ExtensionType::ConfidentialTransferFeeConfig.spec_code() == 16 && ExtensionType::spec_try_from(16) == Ok::<ExtensionType, UtilError>(ExtensionType::ConfidentialTransferFeeConfig),
        ExtensionType::ConfidentialTransferFeeAmount.spec_code() == 17 && ExtensionType::spec_try_from(17) == Ok::<ExtensionType, UtilError>(ExtensionType::ConfidentialTransferFeeAmount),
        ExtensionType::MetadataPointer.spec_code() == 18 && ExtensionType::spec_try_from(18) == Ok::<ExtensionType, UtilError>(ExtensionType::MetadataPointer),
        ExtensionType::TokenMetadata.spec_code() == 19 && ExtensionType::spec_try_from(19) == Ok::<ExtensionType, UtilError>(ExtensionType::TokenMetadata),
        ExtensionType::GroupPointer.spec_code() == 20 && ExtensionType::spec_try_from(20) == Ok::<ExtensionType, UtilError>(ExtensionType::GroupPointer),
        ExtensionType::TokenGroup.spec_code() == 21 && ExtensionType::spec_try_from(21) == Ok::<ExtensionType, UtilError>(ExtensionType::TokenGroup),
        ExtensionType::GroupMemberPointer.spec_code() == 22 && ExtensionType::spec_try_from(22) == Ok::<ExtensionType, UtilError>(ExtensionType::GroupMemberPointer),
        ExtensionType::TokenGroupMember.spec_code() == 23 && ExtensionType::spec_try_from(23) == Ok::<ExtensionType, UtilError>(ExtensionType::TokenGroupMember),
        ExtensionType::ConfidentialMintBurn.spec_code() == 24 && ExtensionType::spec_try_from(24) == Ok::<ExtensionType, UtilError>(ExtensionType::ConfidentialMintBurn),
        ExtensionType::ScaledUiAmount.spec_code() == 25 && ExtensionType::spec_try_from(25) == Ok::<ExtensionType, UtilError>(ExtensionType::ScaledUiAmount),
        ExtensionType::Pausable.spec_code() == 26 && ExtensionType::spec_try_from(26) == Ok::<ExtensionType, UtilError>(ExtensionType::Pausable),
        ExtensionType::PausableAccount.spec_code() == 27 && ExtensionType::spec_try_from(27) == Ok::<ExtensionType, UtilError>(ExtensionType::PausableAccount),
        ExtensionType::PermissionedBurn.spec_code() == 28 && ExtensionType::spec_try_from(28) == Ok::<ExtensionType, UtilError>(ExtensionType::PermissionedBurn),
        forall|value: u16| value >= 29 ==> #[trigger] ExtensionType::spec_try_from(value) is Err,
{
}

/// The value lengths of the extension types are Token-2022's; the
/// confidential-transfer extensions and token metadata, whose size varies,
/// have none.
pub proof fn lemma_type_lengths()
    ensures
        ExtensionType::Uninitialized.spec_type_len() == Ok::<usize, UtilError>(0),
        ExtensionType::TransferFeeConfig.spec_type_len() == Ok::<usize, UtilError>(108),
        ExtensionType::TransferFeeAmount.spec_type_len() == Ok::<usize, UtilError>(8),
        ExtensionType::MintCloseAuthority.spec_type_len() == Ok::<usize, UtilError>(32),
        ExtensionType::ConfidentialTransferMint.spec_type_len() == Err::<usize, UtilError>(UtilError::InvalidArgument),
        ExtensionType::ConfidentialTransferAccount.spec_type_len() == Err::<usize, UtilError>(UtilError::InvalidArgument),
        ExtensionType::DefaultAccountState.spec_type_len() == Ok::<usize, UtilError>(1),
        ExtensionType::ImmutableOwner.spec_type_len() == Ok::<usize, UtilError>(0),
        ExtensionType::MemoTransfer.spec_type_len() == Ok::<usize, UtilError>(1),
        ExtensionType::NonTransferable.spec_type_len() == Ok::<usize, UtilError>(0),
        ExtensionType::InterestBearingConfig.spec_type_len() == Ok::<usize, UtilError>(52),
        ExtensionType::CpiGuard.spec_type_len() == Ok::<usize, UtilError>(1),
        ExtensionType::PermanentDelegate.spec_type_len() == Ok::<usize, UtilError>(32),
        ExtensionType::NonTransferableAccount.spec_type_len() == Ok::<usize, UtilError>(0),
        ExtensionType::TransferHook.spec_type_len() == Ok::<usize, UtilError>(64),
        ExtensionType::TransferHookAccount.spec_type_len() == Ok::<usize, UtilError>(1),
        ExtensionType::ConfidentialTransferFeeConfig.spec_type_len() == Err::<usize, UtilError>(UtilError::InvalidArgument),
        ExtensionType::ConfidentialTransferFeeAmount.spec_type_len() == Err::<usize, UtilError>(UtilError::InvalidArgument),
        ExtensionType::MetadataPointer.spec_type_len() == Ok::<usize, UtilError>(64),
        ExtensionType::TokenMetadata.spec_type_len() == Err::<usize, UtilError>(UtilError::InvalidArgument),
        ExtensionType::GroupPointer.spec_type_len() == Ok::<usize, UtilError>(64),
        ExtensionType::TokenGroup.spec_type_len() == Ok::<usize, UtilError>(80),
        ExtensionType::GroupMemberPointer.spec_type_len() == Ok::<usize, UtilError>(64),
        ExtensionType::TokenGroupMember.spec_type_len() == Ok::<usize, UtilError>(72),
        ExtensionType::ConfidentialMintBurn.spec_type_len() == Err::<usize, UtilError>(UtilError::InvalidArgument),
        ExtensionType::ScaledUiAmount.spec_type_len() == Ok::<usize, UtilError>(56),
        ExtensionType::Pausable.spec_type_len() == Ok::<usize, UtilError>(33),
        ExtensionType::PausableAccount.spec_type_len() == Ok::<usize, UtilError>(0),
        ExtensionType::PermissionedBurn.spec_type_len() == Ok::<usize, UtilError>(32),
{
}

/// The mint extensions are exactly Token-2022's: the ones that live on a
/// mint rather than on a token account.
pub proof fn lemma_mint_extensions(t: ExtensionType)
    ensures
        t.spec_is_mint_extension() <==> (t == ExtensionType::TransferFeeConfig || t == ExtensionType::MintCloseAuthority || t == ExtensionType::ConfidentialTransferMint || t == ExtensionType::DefaultAccountState || t == ExtensionType::NonTransferable || t == ExtensionType::InterestBearingConfig || t == ExtensionType::PermanentDelegate || t == ExtensionType::TransferHook || t == ExtensionType::ConfidentialTransferFeeConfig || t == ExtensionType::MetadataPointer || t == ExtensionType::TokenMetadata || t == ExtensionType::GroupPointer || t == ExtensionType::TokenGroup || t == ExtensionType::GroupMemberPointer || t == ExtensionType::ConfidentialMintBurn || t == ExtensionType::TokenGroupMember || t == ExtensionType::ScaledUiAmount || t == ExtensionType::Pausable || t == ExtensionType::PermissionedBurn),
{
}

/// Local extension trait equivalent to Anchor's token extension bound.
pub trait Extension {
    const TYPE: ExtensionType;
}


/// The little-endian `u16` made of the bytes `lo` and `hi`.
pub open spec fn le16(lo: u8, hi: u8) -> int {
    lo + 256 * hi
}

/// The extension types of the TLV entries that begin at offset `off` of
/// `data`, in order; `None` when an entry has an unknown type or runs past
/// the end of `data`. Fewer than four bytes left end the list.
pub open spec fn tlv_types_from(data: Seq<u8>, off: int) -> Option<Seq<ExtensionType>>
    decreases data.len() - off,
{
    if off < 0 || off + TLV_HEADER_SIZE > data.len() {
        Some(Seq::empty())
    } else {
        match ExtensionType::spec_try_from(le16(data[off], data[off + 1]) as u16) {
            Err(_) => None,
            Ok(t) => {
                let next = off + TLV_HEADER_SIZE + le16(data[off + 2], data[off + 3]);
                if next > data.len() {
                    None
                } else {
                    match tlv_types_from(data, next) {
                        Some(rest) => Some(seq![t] + rest),
                        None => None,
                    }
                }
            },
        }
    }
}

/// `prefix` followed by the list in `rest`, if there is one.
pub open spec fn prepend_types(prefix: Seq<ExtensionType>, rest: Option<Seq<ExtensionType>>) -> Option<Seq<ExtensionType>> {
    match rest {
        Some(r) => Some(prefix + r),
        None => None,
    }
}

/// What `get_all_extensions` returns on `data`.
pub open spec fn spec_get_all_extensions(data: Seq<u8>) -> Result<Seq<ExtensionType>, UtilError> {
    if data.len() <= MINT_TLV_START {
        Ok(Seq::empty())
    } else if data[ACCOUNT_TYPE_OFFSET as int] != MINT_ACCOUNT_TYPE && data[ACCOUNT_TYPE_OFFSET as int] != TOKEN_ACCOUNT_TYPE {
        Err(UtilError::InvalidAccountData)
    } else {
        match tlv_types_from(data, MINT_TLV_START as int) {
            Some(types) => Ok(types),
            None => Err(UtilError::InvalidAccountData),
        }
    }
}

/// Reads the little-endian `u16` at `data[off..off + 2]`.
fn read_le16(data: &[u8], off: usize) -> (r: u16)
    requires
        off + 2 <= data@.len(),
    ensures
        r == le16(data@[off as int], data@[off + 1]),
{
    (data[off] as u16) + 256 * (data[off + 1] as u16)
}

/// Iterate over TLV extension data and return all extension types present.
/// Works for both Token-2022 mint and token-account layouts.
pub fn get_all_extensions(data: &[u8]) -> (r: Result<Vec<ExtensionType>, UtilError>)
    ensures
        match r {
            Ok(types) => spec_get_all_extensions(data@) == Ok::<Seq<ExtensionType>, UtilError>(types@),
            Err(e) => spec_get_all_extensions(data@) == Err::<Seq<ExtensionType>, UtilError>(e),
        },
{
    let mut extension_types: Vec<ExtensionType> = Vec::new();

    if data.len() <= MINT_TLV_START {
        return Ok(extension_types);
    }

    let account_type_byte = data[account_base_len()];
    if account_type_byte != MINT_ACCOUNT_TYPE && account_type_byte != TOKEN_ACCOUNT_TYPE {
        return Err(UtilError::InvalidAccountData);
    }

    let mut start: usize = MINT_TLV_START;
    assert(prepend_types(extension_types@, tlv_types_from(data@, start as int)) =~= tlv_types_from(
        data@,
        MINT_TLV_START as int,
    ));

    while start <= data.len() && data.len() - start >= TLV_HEADER_SIZE
        invariant
            MINT_TLV_START <= start <= data@.len(),
            tlv_types_from(data@, MINT_TLV_START as int) == prepend_types(
                extension_types@,
                tlv_types_from(data@, start as int),
            ),
        decreases data@.len() - start,
    {
        let code = read_le16(data, start);
        let ext_type = match ExtensionType::try_from(code) {
            Ok(t) => t,
            Err(_) => return Err(UtilError::InvalidAccountData),
        };

        let ghost before = extension_types@;
        extension_types.push(ext_type);

        let ext_len = read_le16(data, start + TYPE_SIZE) as usize;
        if data.len() - start - TLV_HEADER_SIZE < ext_len {
            return Err(UtilError::InvalidAccountData);
        }
        let next_start = start + TLV_HEADER_SIZE + ext_len;
        proof {
            let rest = tlv_types_from(data@, next_start as int);
            match rest {
                Some(r) => {
                    assert(before + (seq![ext_type] + r) =~= extension_types@ + r);
                },
                None => {},
            }
        }
        start = next_start;
    }
    assert(extension_types@ + Seq::<ExtensionType>::empty() =~= extension_types@);
    Ok(extension_types)
}


/// The TLV entry size that a mint reserves for an extension of type `t`;
/// zero for the types without a fixed size.
pub open spec fn tlv_size(t: ExtensionType) -> int {
    match t.spec_tlv_len() {
        Ok(n) => n as int,
        Err(_) => 0,
    }
}

/// The extension type with wire code `k` (for `k` below 29).
pub open spec fn type_with_code(k: int) -> ExtensionType {
    match ExtensionType::spec_try_from(k as u16) {
        Ok(t) => t,
        Err(_) => ExtensionType::Uninitialized,
    }
}

/// Sum of `tlv_size` over the members of `s` whose code is below `k`.
pub open spec fn tlv_total(s: Set<ExtensionType>, k: nat) -> int
    decreases k,
{
    if k == 0 {
        0
    } else {
        tlv_total(s, (k - 1) as nat) + if s.contains(type_with_code(k - 1)) {
            tlv_size(type_with_code(k - 1))
        } else {
            0
        }
    }
}

/// Sum of `tlv_size` over the entries of `s`, counting repeats.
pub open spec fn seq_tlv_sum(s: Seq<ExtensionType>) -> int
    decreases s.len(),
{
    if s.len() == 0 {
        0
    } else {
        seq_tlv_sum(s.drop_last()) + tlv_size(s.last())
    }
}

/// An extension type that a mint can be sized for: a mint extension with a
/// fixed size.
pub open spec fn accepted_mint_extension(t: ExtensionType) -> bool {
    t.spec_is_mint_extension() && t.spec_type_len() is Ok
}

/// No entry of `s` occurs twice.
pub open spec fn no_repeats(s: Seq<ExtensionType>) -> bool {
    forall|a: int, b: int| 0 <= a < b < s.len() ==> s[a] != s[b]
}

/// What `find_mint_account_size` returns: the base mint length without
/// extensions; otherwise the TLV area start plus one TLV entry per distinct
/// extension type, padded by two bytes when that equals the multisig length.
/// Any type that is not a fixed-size mint extension is rejected.
pub open spec fn spec_find_mint_account_size(extensions: Option<Seq<ExtensionType>>) -> Result<usize, UtilError> {
    match extensions {
        None => Ok(MINT_2022_BASE_LEN),
        Some(exts) => {
            if exts.len() == 0 {
                Ok(MINT_2022_BASE_LEN)
            } else if exists|i: int| 0 <= i < exts.len() && !accepted_mint_extension(#[trigger] exts[i]) {
                Err(UtilError::InvalidArgument)
            } else {
                let total = MINT_TLV_START + tlv_total(exts.to_set(), 29);
                if total == MULTISIG_LEN {
                    Ok((total + TYPE_SIZE) as usize)
                } else {
                    Ok(total as usize)
                }
            }
        },
    }
}

/// The list held by `extensions`, if any.
pub open spec fn extensions_view(extensions: Option<&Vec<ExtensionType>>) -> Option<Seq<ExtensionType>> {
    match extensions {
        Some(v) => Some(v@),
        None => None,
    }
}

proof fn lemma_type_with_code(t: ExtensionType, k: int)
    requires
        0 <= k < 29,
    ensures
        type_with_code(t.spec_code() as int) == t,
        type_with_code(k).spec_code() == k,
        type_with_code(k) == t <==> t.spec_code() == k,
{
    lemma_try_from_code(t);
    lemma_code_of_try_from(k as u16);
}

proof fn lemma_tlv_total_insert(s: Set<ExtensionType>, x: ExtensionType, k: nat)
    requires
        !s.contains(x),
        k <= 29,
    ensures
        tlv_total(s.insert(x), k) == tlv_total(s, k) + if x.spec_code() < k {
            tlv_size(x)
        } else {
            0
        },
    decreases k,
{
    if k > 0 {
        lemma_tlv_total_insert(s, x, (k - 1) as nat);
        lemma_type_with_code(x, k - 1);
    }
}

proof fn lemma_tlv_total_bound(s: Set<ExtensionType>, k: nat)
    ensures
        0 <= tlv_total(s, k) <= 112 * k,
    decreases k,
{
    if k > 0 {
        lemma_tlv_total_bound(s, (k - 1) as nat);
    }
}

proof fn lemma_seq_sum_of_distinct(d: Seq<ExtensionType>)
    requires
        no_repeats(d),
    ensures
        seq_tlv_sum(d) == tlv_total(d.to_set(), 29),
    decreases d.len(),
{
    if d.len() == 0 {
        assert(d.to_set() =~= Set::<ExtensionType>::empty());
        lemma_tlv_total_empty(29);
    } else {
        let p = d.drop_last();
        assert(no_repeats(p));
        lemma_seq_sum_of_distinct(p);
        assert(d =~= p.push(d.last()));
        lemma_push_to_set(p, d.last());
        assert(!p.contains(d.last()));
        lemma_tlv_total_insert(p.to_set(), d.last(), 29);
        lemma_try_from_code(d.last());
    }
}

proof fn lemma_push_to_set(s: Seq<ExtensionType>, x: ExtensionType)
    ensures
        s.push(x).to_set() == s.to_set().insert(x),
{
    assert forall|a: ExtensionType| #[trigger] s.push(x).to_set().contains(a) <==> s.to_set().insert(
        x,
    ).contains(a) by {
        if s.push(x).contains(a) {
            let i = choose|i: int| 0 <= i < s.push(x).len() && s.push(x)[i] == a;
            if i < s.len() {
                assert(s[i] == a);
            }
        }
        if s.contains(a) {
            let i = choose|i: int| 0 <= i < s.len() && s[i] == a;
            assert(s.push(x)[i] == a);
        }
        if a == x {
            assert(s.push(x)[s.len() as int] == x);
        }
    }
    assert(s.push(x).to_set() =~= s.to_set().insert(x));
}

proof fn lemma_tlv_total_empty(k: nat)
    ensures
        tlv_total(Set::<ExtensionType>::empty(), k) == 0,
    decreases k,
{
    if k > 0 {
        lemma_tlv_total_empty((k - 1) as nat);
    }
}

/// Whether `v` holds `t`.
fn contains_type(v: &Vec<ExtensionType>, t: ExtensionType) -> (r: bool)
    ensures
        r == v@.contains(t),
{
    let mut i: usize = 0;
    while i < v.len()
        invariant
            i <= v@.len(),
            forall|k: int| 0 <= k < i ==> v@[k] != t,
        decreases v@.len() - i,
    {
        if v[i] == t {
            assert(v@[i as int] == t);
            return true;
        }
        i = i + 1;
    }
    false
}

/// Returns the required account size for a mint with optional Token-2022
/// extensions.
pub fn find_mint_account_size(extensions: Option<&ExtensionsVec>) -> (r: Result<usize, UtilError>)
    ensures
        r == spec_find_mint_account_size(extensions_view(extensions)),
{
    match extensions {
        None => Ok(mint_base_len()),
        Some(exts) => {
            if exts.len() == 0 {
                return Ok(mint_base_len());
            }
            let n = exts.len();
            let mut deduped: Vec<ExtensionType> = Vec::new();
            let mut i: usize = 0;
            assert(exts@.take(0).to_set() =~= deduped@.to_set());
            while i < n
                invariant
                    i <= n,
                    n == exts@.len(),
                    no_repeats(deduped@),
                    deduped@.to_set() == exts@.take(i as int).to_set(),
                    extensions == Some(exts),
                decreases n - i,
            {
                let extension_type = exts[i];
                let ghost before = deduped@;
                if !contains_type(&deduped, extension_type) {
                    deduped.push(extension_type);
                    proof {
                        lemma_push_to_set(before, extension_type);
                    }
                } else {
                    assert(before.to_set().contains(extension_type));
                    assert(before.to_set() =~= before.to_set().insert(extension_type));
                }
                proof {
                    assert(exts@.take(i + 1) =~= exts@.take(i as int).push(extension_type));
                    lemma_push_to_set(exts@.take(i as int), extension_type);
                }
                i = i + 1;
            }
            assert(exts@.take(n as int) =~= exts@);

            let m = deduped.len();
            let mut extension_size: usize = 0;
            let mut j: usize = 0;
            while j < m
                invariant
                    j <= m,
                    m == deduped@.len(),
                    no_repeats(deduped@),
                    deduped@.to_set() == exts@.to_set(),
                    n == exts@.len(),
                    n > 0,
                    extensions == Some(exts),
                    forall|k: int| 0 <= k < j ==> accepted_mint_extension(#[trigger] deduped@[k]),
                    extension_size == seq_tlv_sum(deduped@.take(j as int)),
                decreases m - j,
            {
                let extension_type = deduped[j];
                if !extension_type.is_mint_extension() {
                    assert(deduped@.contains(extension_type));
                    assert(deduped@.to_set().contains(extension_type));
                    assert(exts@.contains(extension_type));
                    let ghost w = choose|w: int| 0 <= w < n && exts@[w] == extension_type;
                    assert(!accepted_mint_extension(exts@[w]));
                    return Err(UtilError::InvalidArgument);
                }
                let tlv_len = match extension_type.try_get_tlv_len() {
                    Ok(l) => l,
                    Err(e) => {
                        assert(deduped@.contains(extension_type));
                        assert(deduped@.to_set().contains(extension_type));
                        assert(exts@.contains(extension_type));
                        let ghost w = choose|w: int| 0 <= w < n && exts@[w] == extension_type;
                        assert(!accepted_mint_extension(exts@[w]));
                        return Err(e);
                    },
                };
                proof {
                    let t1 = deduped@.take(j + 1);
                    assert(t1.drop_last() =~= deduped@.take(j as int));
                    assert(no_repeats(t1));
                    lemma_seq_sum_of_distinct(t1);
                    lemma_tlv_total_bound(t1.to_set(), 29);
                }
                extension_size = extension_size + tlv_len;
                j = j + 1;
            }
            proof {
                assert(deduped@.take(m as int) =~= deduped@);
                lemma_seq_sum_of_distinct(deduped@);
                lemma_tlv_total_bound(deduped@.to_set(), 29);
                assert forall|i: int| 0 <= i < n implies accepted_mint_extension(#[trigger] exts@[i]) by {
                    assert(exts@.contains(exts@[i]));
                    assert(deduped@.to_set().contains(exts@[i]));
                    let k = choose|k: int| 0 <= k < m && deduped@[k] == exts@[i];
                    assert(accepted_mint_extension(deduped@[k]));
                }
            }
            let total_len = extension_size + MINT_TLV_START;
            if total_len == multisig_len() {
                Ok(total_len + TYPE_SIZE)
            } else {
                Ok(total_len)
            }
        },
    }
}

/// The size of a mint depends only on which extension types are listed, not
/// on their order or on repeats.
pub proof fn lemma_mint_size_depends_only_on_listed_types(a: Seq<ExtensionType>, b: Seq<ExtensionType>)
    requires
        a.to_set() == b.to_set(),
    ensures
        spec_find_mint_account_size(Some(a)) == spec_find_mint_account_size(Some(b)),
{
    assert(a.len() == 0 <==> b.len() == 0) by {
        if a.len() > 0 {
            assert(a.to_set().contains(a[0]));
        }
        if b.len() > 0 {
            assert(b.to_set().contains(b[0]));
        }
    }
    assert((exists|i: int| 0 <= i < a.len() && !accepted_mint_extension(#[trigger] a[i])) <==> (exists|i: int|
        0 <= i < b.len() && !accepted_mint_extension(#[trigger] b[i]))) by {
        if exists|i: int| 0 <= i < a.len() && !accepted_mint_extension(#[trigger] a[i]) {
            let i = choose|i: int| 0 <= i < a.len() && !accepted_mint_extension(#[trigger] a[i]);
            assert(b.to_set().contains(a[i]));
            let k = choose|k: int| 0 <= k < b.len() && b[k] == a[i];
            assert(!accepted_mint_extension(b[k]));
        }
        if exists|i: int| 0 <= i < b.len() && !accepted_mint_extension(#[trigger] b[i]) {
            let i = choose|i: int| 0 <= i < b.len() && !accepted_mint_extension(#[trigger] b[i]);
            assert(a.to_set().contains(b[i]));
            let k = choose|k: int| 0 <= k < a.len() && a[k] == b[i];
            assert(!accepted_mint_extension(a[k]));
        }
    }
}


/// A mint is never sized with the length of a multisig account, and never
/// below the length of a mint without extensions.
pub proof fn lemma_mint_size_is_not_multisig_len(extensions: Option<Seq<ExtensionType>>)
    ensures
        spec_find_mint_account_size(extensions) matches Ok(n) ==> n != MULTISIG_LEN && n >= MINT_2022_BASE_LEN,
{
    if let Some(exts) = extensions {
        lemma_tlv_total_bound(exts.to_set(), 29);
    }
}

/// The bytes that TLV entries for the types of `s` take: for each entry, a
/// four-byte header and the value length of its type.
pub open spec fn entries_size(s: Seq<ExtensionType>) -> int
    decreases s.len(),
{
    if s.len() == 0 {
        0
    } else {
        entries_size(s.drop_last()) + 4 + match s.last().spec_type_len() {
            Ok(n) => n as int,
            Err(_) => 0,
        }
    }
}

proof fn lemma_entries_size_is_tlv_sum(s: Seq<ExtensionType>)
    requires
        forall|i: int| 0 <= i < s.len() ==> #[trigger] s[i].spec_type_len() is Ok,
    ensures
        entries_size(s) == seq_tlv_sum(s),
    decreases s.len(),
{
    if s.len() > 0 {
        let p = s.drop_last();
        assert forall|i: int| 0 <= i < p.len() implies #[trigger] p[i].spec_type_len() is Ok by {
            assert(p[i] == s[i]);
        }
        lemma_entries_size_is_tlv_sum(p);
        assert(s.last() == s[s.len() - 1]);
    }
}

/// A mint sized for distinct fixed-size mint extensions takes the TLV area
/// start (166 bytes) plus, for each listed type, a four-byte header and the
/// type's value length; two more bytes when that total would equal the
/// multisig length.
pub proof fn lemma_mint_size_of_distinct_extensions(exts: Seq<ExtensionType>)
    requires
        exts.len() > 0,
        no_repeats(exts),
        forall|i: int| 0 <= i < exts.len() ==> accepted_mint_extension(#[trigger] exts[i]),
    ensures
        ({
            let total = 166 + entries_size(exts);
            spec_find_mint_account_size(Some(exts)) == Ok::<usize, UtilError>(
                if total == 355 {
                    (total + 2) as usize
                } else {
                    total as usize
                },
            )
        }),
{
    assert forall|i: int| 0 <= i < exts.len() implies #[trigger] exts[i].spec_type_len() is Ok by {
        assert(accepted_mint_extension(exts[i]));
    }
    lemma_entries_size_is_tlv_sum(exts);
    lemma_seq_sum_of_distinct(exts);
    lemma_tlv_total_bound(exts.to_set(), 29);
}

/// A mint sized for one fixed-size mint extension takes 166 bytes, a
/// four-byte header and the extension's value length.
pub proof fn lemma_mint_size_of_one_extension(t: ExtensionType)
    requires
        accepted_mint_extension(t),
    ensures
        spec_find_mint_account_size(Some(seq![t])) == Ok::<usize, UtilError>(
            (170 + t.spec_type_len()->Ok_0) as usize,
        ),
{
    let exts = seq![t];
    assert(exts[0] == t);
    assert(exts.drop_last() =~= Seq::<ExtensionType>::empty());
    assert(exts.last() == t);
    assert(entries_size(Seq::<ExtensionType>::empty()) == 0);
    assert(t.spec_type_len() is Ok);
    assert(entries_size(exts) == 4 + t.spec_type_len()->Ok_0);
    assert(t.spec_type_len()->Ok_0 <= 108) by {
        lemma_type_lengths();
    }
    lemma_mint_size_of_distinct_extensions(exts);
}

/// Where the value of the first TLV entry with type code `target` lies,
/// searching the entries from offset `off` of `data`; `None` when no entry
/// has that code or an entry before it runs past the end of `data`.
pub open spec fn tlv_find(data: Seq<u8>, off: int, target: u16) -> Option<(int, int)>
    decreases data.len() - off,
{
    if off < 0 || off + TLV_HEADER_SIZE > data.len() {
        None
    } else {
        let start = off + TLV_HEADER_SIZE;
        let end = start + le16(data[off + 2], data[off + 3]);
        if end > data.len() {
            None
        } else if le16(data[off], data[off + 1]) == target {
            Some((start, end))
        } else {
            tlv_find(data, end, target)
        }
    }
}

/// What `find_mint_extension` returns: the bounds of the value of the first
/// extension of type `extension_type` in Token-2022 mint data.
pub open spec fn spec_find_mint_extension(data: Seq<u8>, extension_type: ExtensionType) -> Result<(usize, usize), UtilError> {
    if data.len() <= MINT_TLV_START || data[ACCOUNT_TYPE_OFFSET as int] != MINT_ACCOUNT_TYPE {
        Err(UtilError::InvalidAccountData)
    } else {
        match tlv_find(data, MINT_TLV_START as int, extension_type.spec_code()) {
            Some((start, end)) => Ok((start as usize, end as usize)),
            None => Err(UtilError::InvalidAccountData),
        }
    }
}

/// Locates the value of the first extension of type `extension_type` in
/// Token-2022 mint data, returning its start and end offsets.
pub fn find_mint_extension(data: &[u8], extension_type: ExtensionType) -> (r: Result<(usize, usize), UtilError>)
    ensures
        r == spec_find_mint_extension(data@, extension_type),
        r matches Ok((start, end)) ==> start <= end <= data@.len(),
{
    if data.len() <= MINT_TLV_START || data[account_base_len()] != MINT_ACCOUNT_TYPE {
        return Err(UtilError::InvalidAccountData);
    }

    let target_type = extension_type.code();
    let mut offset: usize = MINT_TLV_START;
    while offset <= data.len() && data.len() - offset >= TLV_HEADER_SIZE
        invariant
            MINT_TLV_START <= offset <= data@.len(),
            data@.len() > MINT_TLV_START,
            data@[ACCOUNT_TYPE_OFFSET as int] == MINT_ACCOUNT_TYPE,
            target_type == extension_type.spec_code(),
            tlv_find(data@, MINT_TLV_START as int, target_type) == tlv_find(data@, offset as int, target_type),
        decreases data@.len() - offset,
    {
        let ext_type = read_le16(data, offset);
        let ext_len = read_le16(data, offset + TYPE_SIZE) as usize;
        let start = offset + TLV_HEADER_SIZE;

        if data.len() - start < ext_len {
            return Err(UtilError::InvalidAccountData);
        }
        let end = start + ext_len;

        if ext_type == target_type {
            return Ok((start, end));
        }

        offset = end;
    }

    Err(UtilError::InvalidAccountData)
}

#[verifier::external_type_specification]
#[verifier::external_body]
pub struct ExPodCastError(bytemuck::PodCastError);

/// Reads a `T` from `bytes` with `bytemuck::try_pod_read_unaligned`.
///
/// Claimed of the outside function: the read succeeds exactly when `bytes`
/// holds `size_of::<T>()` bytes, and the ghost value is the bytes that were
/// read. The value read (the `T` whose memory representation is those
/// bytes) is left unsaid.
#[verifier::external_body]
fn pod_read_unaligned<T: bytemuck::Pod>(bytes: &[u8]) -> (r: (Result<T, bytemuck::PodCastError>, Ghost<Seq<u8>>))
    ensures
        r.0 is Ok <==> bytes@.len() == vstd::layout::size_of::<T>(),
        r.1@ == bytes@,
{
    (bytemuck::try_pod_read_unaligned::<T>(bytes), Ghost(bytes@))
}

/// The value bytes of the first extension of type `extension_type` in
/// Token-2022 mint data.
pub fn mint_extension_bytes(data: &[u8], extension_type: ExtensionType) -> (r: Result<&[u8], UtilError>)
    ensures
        match spec_find_mint_extension(data@, extension_type) {
            Ok((start, end)) => start <= end <= data@.len() && (r matches Ok(bytes) && bytes@ == data@.subrange(
                start as int,
                end as int,
            )),
            Err(e) => r matches Err(e2) && e2 == e,
        },
{
    match find_mint_extension(data, extension_type) {
        Ok((start, end)) => Ok(vstd::slice::slice_subrange(data, start, end)),
        Err(e) => Err(e),
    }
}

/// Whether `decoded` is the value bytes of the first extension of type
/// `extension_type` in `data`, whenever there is one.
pub open spec fn decoded_from_entry(data: Seq<u8>, extension_type: ExtensionType, decoded: Seq<u8>) -> bool {
    spec_find_mint_extension(data, extension_type) matches Ok((start, end)) ==> decoded == data.subrange(
        start as int,
        end as int,
    )
}

/// Reads the value of the Token-2022 mint extension `T` from mint account
/// data: the value bytes of its first entry, decoded as a `T`.
///
/// The ghost value is the bytes that were decoded.
pub fn read_mint_extension<T: Extension + bytemuck::Pod + Copy>(data: &[u8]) -> (r: (Result<T, UtilError>, Ghost<Seq<u8>>))
    ensures
        r.0 is Ok <==> (spec_find_mint_extension(data@, T::TYPE) matches Ok((start, end)) && end - start
            == vstd::layout::size_of::<T>()),
        r.0 is Err ==> r.0 == Err::<T, UtilError>(UtilError::InvalidAccountData),
        decoded_from_entry(data@, T::TYPE, r.1@),
{
    let extension_bytes = match mint_extension_bytes(data, T::TYPE) {
        Ok(bytes) => bytes,
        Err(e) => return (Err(e), Ghost(Seq::empty())),
    };
    let (read, decoded) = pod_read_unaligned::<T>(extension_bytes);
    match read {
        Ok(value) => (Ok(value), decoded),
        Err(_) => (Err(UtilError::InvalidAccountData), decoded),
    }
}

proof fn lemma_listed_iff_found(data: Seq<u8>, off: int, rest: Seq<ExtensionType>, t: ExtensionType)
    requires
        off >= 0,
        tlv_types_from(data, off) == Some(rest),
    ensures
        tlv_find(data, off, t.spec_code()) is Some <==> rest.contains(t),
    decreases data.len() - off,
{
    if off + TLV_HEADER_SIZE > data.len() {
        assert(rest =~= Seq::<ExtensionType>::empty());
    } else {
        let c = le16(data[off], data[off + 1]) as u16;
        let next = off + TLV_HEADER_SIZE + le16(data[off + 2], data[off + 3]);
        let t0 = ExtensionType::spec_try_from(c)->Ok_0;
        lemma_code_of_try_from(c);
        lemma_try_from_code(t);
        let tail = tlv_types_from(data, next)->Some_0;
        assert(rest == seq![t0] + tail);
        lemma_listed_iff_found(data, next, tail, t);
        if t0 == t {
            assert(rest[0] == t);
        } else {
            assert(t0.spec_code() != t.spec_code());
            if rest.contains(t) {
                let i = choose|i: int| 0 <= i < rest.len() && rest[i] == t;
                assert(tail[i - 1] == t);
            }
            if tail.contains(t) {
                let i = choose|i: int| 0 <= i < tail.len() && tail[i] == t;
                assert(rest[i + 1] == t);
            }
        }
    }
}

/// In mint data whose extensions can all be listed, an extension can be
/// located exactly when it is listed.
pub proof fn lemma_listed_extensions_are_found(data: Seq<u8>, t: ExtensionType)
    requires
        data.len() > MINT_TLV_START,
        data[ACCOUNT_TYPE_OFFSET as int] == MINT_ACCOUNT_TYPE,
        spec_get_all_extensions(data) is Ok,
    ensures
        spec_find_mint_extension(data, t) is Ok <==> spec_get_all_extensions(data)->Ok_0.contains(t),
{
    let rest = tlv_types_from(data, MINT_TLV_START as int)->Some_0;
    lemma_listed_iff_found(data, MINT_TLV_START as int, rest, t);
}


/// The offset at which the walk of the TLV entries that begin at `off`
/// stops: the first entry offset with fewer than four bytes left after it.
pub open spec fn tlv_chain_end(data: Seq<u8>, off: int) -> int
    decreases data.len() - off,
{
    if off < 0 || off + TLV_HEADER_SIZE > data.len() {
        off
    } else {
        let next = off + TLV_HEADER_SIZE + le16(data[off + 2], data[off + 3]);
        if next > data.len() {
            off
        } else {
            tlv_chain_end(data, next)
        }
    }
}

/// One TLV entry: the type code and the value's length, each as a
/// little-endian `u16`, followed by the value.
pub open spec fn tlv_record(code: u16, value: Seq<u8>) -> Seq<u8> {
    seq![(code % 256) as u8, (code / 256) as u8, (value.len() % 256) as u8, (value.len() / 256) as u8] + value
}

proof fn lemma_append_to_chain(data: Seq<u8>, off: int, code: u16, value: Seq<u8>)
    requires
        0 <= off <= data.len(),
        tlv_types_from(data, off) is Some,
        tlv_chain_end(data, off) == data.len(),
        code < 29,
        value.len() <= 65535,
    ensures
        tlv_types_from(data + tlv_record(code, value), off) == Some(
            tlv_types_from(data, off)->Some_0.push(ExtensionType::spec_try_from(code)->Ok_0),
        ),
    decreases data.len() - off,
{
    let rec = tlv_record(code, value);
    let d2 = data + rec;
    let n = value.len();
    assert(le16((code % 256) as u8, (code / 256) as u8) == code);
    assert(le16((n % 256) as u8, (n / 256) as u8) == n);
    if off + TLV_HEADER_SIZE > data.len() {
        assert(off == data.len());
        assert(d2[off] == rec[0] && d2[off + 1] == rec[1] && d2[off + 2] == rec[2] && d2[off + 3] == rec[3]);
        let next = off + TLV_HEADER_SIZE + n;
        assert(next == d2.len());
        assert(tlv_types_from(d2, next) == Some(Seq::<ExtensionType>::empty()));
        assert(tlv_types_from(data, off) == Some(Seq::<ExtensionType>::empty()));
        let t = ExtensionType::spec_try_from(code)->Ok_0;
        assert(seq![t] + Seq::<ExtensionType>::empty() =~= Seq::<ExtensionType>::empty().push(t));
    } else {
        assert(d2[off] == data[off] && d2[off + 1] == data[off + 1] && d2[off + 2] == data[off + 2] && d2[off + 3]
            == data[off + 3]);
        let next = off + TLV_HEADER_SIZE + le16(data[off + 2], data[off + 3]);
        let c = le16(data[off], data[off + 1]) as u16;
        let t0 = ExtensionType::spec_try_from(c)->Ok_0;
        let tail = tlv_types_from(data, next)->Some_0;
        lemma_append_to_chain(data, next, code, value);
        let t = ExtensionType::spec_try_from(code)->Ok_0;
        assert(seq![t0] + tail.push(t) =~= (seq![t0] + tail).push(t));
    }
}

/// Appending one well-formed TLV entry, with a known type code and a value
/// of at most 65535 bytes, to Token-2022 account data whose entries end
/// exactly at its end appends that entry's type to the extensions listed.
pub proof fn lemma_appended_extension_is_listed(data: Seq<u8>, code: u16, value: Seq<u8>)
    requires
        data.len() >= MINT_TLV_START,
        data[ACCOUNT_TYPE_OFFSET as int] == MINT_ACCOUNT_TYPE || data[ACCOUNT_TYPE_OFFSET as int] == TOKEN_ACCOUNT_TYPE,
        spec_get_all_extensions(data) is Ok,
        tlv_chain_end(data, MINT_TLV_START as int) == data.len(),
        code < 29,
        value.len() <= 65535,
    ensures
        spec_get_all_extensions(data + tlv_record(code, value)) == Ok::<Seq<ExtensionType>, UtilError>(
            spec_get_all_extensions(data)->Ok_0.push(ExtensionType::spec_try_from(code)->Ok_0),
        ),
{
    let d2 = data + tlv_record(code, value);
    assert(d2[ACCOUNT_TYPE_OFFSET as int] == data[ACCOUNT_TYPE_OFFSET as int]);
    assert(tlv_types_from(data, MINT_TLV_START as int) is Some) by {
        if data.len() == MINT_TLV_START {
            assert(tlv_types_from(data, MINT_TLV_START as int) == Some(Seq::<ExtensionType>::empty()));
        }
    }
    if data.len() == MINT_TLV_START {
        assert(tlv_types_from(data, MINT_TLV_START as int) == Some(Seq::<ExtensionType>::empty()));
    }
    lemma_append_to_chain(data, MINT_TLV_START as int, code, value);
}

/// The length of base Token-2022 token account data, where the account
/// type byte of extended data stands (`Account::BASE_LEN`). Claimed: 165.
#[verifier::external_body]
fn account_base_len() -> (r: usize)
    ensures
        r == ACCOUNT_TYPE_OFFSET,
{
    pinocchio_token_2022::state::Account::BASE_LEN
}

/// The length of base Token-2022 mint data (`Mint::BASE_LEN`). Claimed: 82.
#[verifier::external_body]
fn mint_base_len() -> (r: usize)
    ensures
        r == MINT_2022_BASE_LEN,
{
    pinocchio_token_2022::state::Mint::BASE_LEN
}

/// The length of Token-2022 multisig data (`Multisig::LEN`). Claimed: 355.
#[verifier::external_body]
fn multisig_len() -> (r: usize)
    ensures
        r == MULTISIG_LEN,
{
    pinocchio_token_2022::state::Multisig::LEN
}

/// Whether `program` is the SPL Token program.
pub fn is_token_program(program: &[u8; 32]) -> (r: bool)
    ensures
        r == (program@ == TOKEN_PROGRAM_ID@),
{
    same_address(program, &token_program_id())
}

/// Whether `program` is the Token-2022 program.
pub fn is_token_2022_program(program: &[u8; 32]) -> (r: bool)
    ensures
        r == (program@ == TOKEN_2022_PROGRAM_ID@),
{
    same_address(program, &token_2022_program_id())
}

/// The result of checking a token account of either token program: the
/// owner decides which program's layout applies, and any other owner is
/// refused.
pub open spec fn spec_check_token_account(owner: Seq<u8>, data_len: int, data: Result<Seq<u8>, ProgramError>) -> Result<(), UtilError> {
    if owner == TOKEN_PROGRAM_ID@ {
        token::spec_check_token_account(owner, data_len)
    } else if owner == TOKEN_2022_PROGRAM_ID@ {
        token_2022::spec_check_token_account(owner, data)
    } else {
        Err(UtilError::InvalidAccountOwner)
    }
}

/// Checks a token account of either token program from what was read of it.
pub fn check_token_account_state(state: AccountState) -> (r: Result<(), UtilError>)
    ensures
        r == spec_check_token_account(state.owner@, state.data_len as int, data_view(state.data)),
{
    if is_token_program(&state.owner) {
        token::check_token_account_state(&state.owner, state.data_len)
    } else if is_token_2022_program(&state.owner) {
        token_2022::check_token_account_state(&state.owner, state.data)
    } else {
        Err(UtilError::InvalidAccountOwner)
    }
}

/// Validates a token account for either SPL Token or Token-2022, based on
/// account owner.
///
/// The record is the read of `account` that the result was decided on.
pub fn check_token_account(account: &AccountView) -> (r: (Result<(), UtilError>, Ghost<Observation>))
    ensures
        r.1@.account() == *account,
        r.0 == spec_check_token_account(r.1@.owner(), r.1@.data_len() as int, r.1@.data()),
{
    let (state, seen) = observe_account(account);
    (check_token_account_state(state), seen)
}

/// Whether `calls` and `r` are what initializing a token account under
/// `program` gives: the flow of that token program, or, for any other
/// program, no invocation and `InvalidAccountOwner`.
pub open spec fn init_token_account_run<'a>(
    calls: Seq<Record<'a>>,
    r: Result<(), UtilError>,
    rent: Option<Rent>,
    seeds: Seq<CpiSeed<'a>>,
    payer: AccountView,
    account: AccountView,
    mint: AccountView,
    owner: Address,
    program: Seq<u8>,
) -> bool {
    if program == TOKEN_PROGRAM_ID@ {
        create_then(calls, r, rent, payer, account, 165, TOKEN_PROGRAM_ID, seeds, Some(token::initialize_account(account, mint, owner)))
    } else if program == TOKEN_2022_PROGRAM_ID@ {
        create_then(calls, r, rent, payer, account, 165, TOKEN_2022_PROGRAM_ID, seeds, Some(token_2022::initialize_account(account, mint, owner)))
    } else {
        calls.len() == 0 && r == Err::<(), UtilError>(UtilError::InvalidAccountOwner)
    }
}

/// Initializes a token account by dispatching to the selected token program;
/// any other program is refused with `InvalidAccountOwner`.
pub fn init_token_account<'a>(
    account: &AccountView,
    mint: &AccountView,
    payer: &AccountView,
    rent: Option<&pinocchio::sysvars::rent::Rent>,
    signer_seeds: &'a [CpiSeed<'a>],
    owner: &Address,
    token_program: &[u8; 32],
) -> (r: (Result<(), UtilError>, Ghost<Seq<Record<'a>>>))
    ensures
        init_token_account_run(r.1@, r.0, rent_of(rent), signer_seeds@, *payer, *account, *mint, *owner, token_program@),
{
    if is_token_program(token_program) {
        token::init_token_account(account, mint, payer, rent, signer_seeds, owner)
    } else if is_token_2022_program(token_program) {
        token_2022::init_token_account(account, mint, payer, rent, signer_seeds, owner)
    } else {
        (Err(UtilError::InvalidAccountOwner), Ghost(Seq::empty()))
    }
}

/// Initializes a token account only when the current account does not
/// already pass `check_token_account`.
///
/// The record is the read the check was decided on and the invocations
/// issued: none when the check passes, else those of `init_token_account`,
/// whose result is returned (the check's error is not reported).
pub fn init_token_account_if_needed<'a>(
    account: &AccountView,
    mint: &AccountView,
    payer: &AccountView,
    rent: Option<&pinocchio::sysvars::rent::Rent>,
    signer_seeds: &'a [CpiSeed<'a>],
    owner: &Address,
    token_program: &[u8; 32],
) -> (r: (Result<(), UtilError>, Ghost<(Observation, Seq<Record<'a>>)>))
    ensures
        r.1@.0.account() == *account,
        spec_check_token_account(r.1@.0.owner(), r.1@.0.data_len() as int, r.1@.0.data()) is Ok ==> r.0 is Ok
            && r.1@.1.len() == 0,
        spec_check_token_account(r.1@.0.owner(), r.1@.0.data_len() as int, r.1@.0.data()) is Err
            ==> init_token_account_run(r.1@.1, r.0, rent_of(rent), signer_seeds@, *payer, *account, *mint, *owner, token_program@),
{
    let (checked, seen) = check_token_account(account);
    match checked {
        Ok(()) => (Ok(()), Ghost((seen@, Seq::empty()))),
        Err(_) => {
            let (r, calls) = init_token_account(account, mint, payer, rent, signer_seeds, owner, token_program);
            (r, Ghost((seen@, calls@)))
        },
    }
}

/// The result of checking a mint of either token program: the owner
/// decides which program's layout applies, and any other owner is refused.
pub open spec fn spec_check_mint(owner: Seq<u8>, data_len: int, data: Result<Seq<u8>, ProgramError>) -> Result<(), UtilError> {
    if owner == TOKEN_PROGRAM_ID@ {
        token::spec_check_mint(owner, data_len)
    } else if owner == TOKEN_2022_PROGRAM_ID@ {
        token_2022::spec_check_mint(owner, data)
    } else {
        Err(UtilError::InvalidAccountOwner)
    }
}

/// Checks a mint of either token program from what was read of it.
pub fn check_mint_state(state: AccountState) -> (r: Result<(), UtilError>)
    ensures
        r == spec_check_mint(state.owner@, state.data_len as int, data_view(state.data)),
{
    if is_token_program(&state.owner) {
        token::check_mint_state(&state.owner, state.data_len)
    } else if is_token_2022_program(&state.owner) {
        token_2022::check_mint_state(&state.owner, state.data)
    } else {
        Err(UtilError::InvalidAccountOwner)
    }
}

/// Validates a mint account for either SPL Token or Token-2022, based on
/// account owner.
///
/// The record is the read of `account` that the result was decided on.
pub fn check_mint(account: &AccountView) -> (r: (Result<(), UtilError>, Ghost<Observation>))
    ensures
        r.1@.account() == *account,
        r.0 == spec_check_mint(r.1@.owner(), r.1@.data_len() as int, r.1@.data()),
{
    let (state, seen) = observe_account(account);
    (check_mint_state(state), seen)
}

/// Whether `calls` and `r` are what initializing a mint under `program`
/// gives: the flow of that token program, or, for any other program, no
/// invocation and `InvalidAccountOwner`.
pub open spec fn init_mint_run<'a>(
    calls: Seq<Record<'a>>,
    r: Result<(), UtilError>,
    rent: Option<Rent>,
    seeds: Seq<CpiSeed<'a>>,
    payer: AccountView,
    account: AccountView,
    decimals: u8,
    mint_authority: Address,
    freeze_authority: Option<Address>,
    program: Seq<u8>,
) -> bool {
    if program == TOKEN_PROGRAM_ID@ {
        create_then(calls, r, rent, payer, account, 82, TOKEN_PROGRAM_ID, seeds, Some(token::initialize_mint(account, decimals, mint_authority, freeze_authority)))
    } else if program == TOKEN_2022_PROGRAM_ID@ {
        create_then(calls, r, rent, payer, account, 82, TOKEN_2022_PROGRAM_ID, seeds, Some(token_2022::initialize_mint(account, decimals, mint_authority, freeze_authority)))
    } else {
        calls.len() == 0 && r == Err::<(), UtilError>(UtilError::InvalidAccountOwner)
    }
}

/// Initializes a mint account by dispatching to the selected token program;
/// any other program is refused with `InvalidAccountOwner`.
pub fn init_mint<'a>(
    account: &AccountView,
    payer: &AccountView,
    rent: Option<&pinocchio::sysvars::rent::Rent>,
    signer_seeds: &'a [CpiSeed<'a>],
    decimals: u8,
    mint_authority: &Address,
    freeze_authority: Option<&Address>,
    token_program: &[u8; 32],
) -> (r: (Result<(), UtilError>, Ghost<Seq<Record<'a>>>))
    ensures
        init_mint_run(
            r.1@,
            r.0,
            rent_of(rent),
            signer_seeds@,
            *payer,
            *account,
            decimals,
            *mint_authority,
            authority_of(freeze_authority),
            token_program@,
        ),
{
    if is_token_program(token_program) {
        token::init_mint(account, payer, rent, signer_seeds, decimals, mint_authority, freeze_authority)
    } else if is_token_2022_program(token_program) {
        token_2022::init_mint(account, payer, rent, signer_seeds, decimals, mint_authority, freeze_authority)
    } else {
        (Err(UtilError::InvalidAccountOwner), Ghost(Seq::empty()))
    }
}

/// Loads and returns a Token-2022 mint extension value from account data.
///
/// The record is the read of the account's data that the value was taken
/// from, and the bytes that were decoded.
pub fn get_mint_extension_data<T: Extension + bytemuck::Pod + Copy>(account: &AccountView) -> (r: (Result<T, UtilError>, Ghost<(DataRead, Seq<u8>)>))
    ensures
        r.1@.0.account() == *account,
        match r.1@.0.data() {
            Err(e) => r.0 == Err::<T, UtilError>(UtilError::Program(e)),
            Ok(data) => (r.0 is Ok <==> (spec_find_mint_extension(data, T::TYPE) matches Ok((start, end)) && end - start
                == vstd::layout::size_of::<T>())) && (r.0 is Err ==> r.0 == Err::<T, UtilError>(UtilError::InvalidAccountData))
                && decoded_from_entry(data, T::TYPE, r.1@.1),
        },
{
    let (data, seen) = account_data(account);
    match data {
        Ok(mint_data) => {
            let (r, decoded) = read_mint_extension::<T>(mint_data.as_slice());
            (r, Ghost((seen@, decoded@)))
        },
        Err(e) => (Err(UtilError::Program(e)), Ghost((seen@, Seq::empty()))),
    }
}

} // verus!
