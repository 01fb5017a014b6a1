//! Addresses of the programs this library works with, as plain bytes.

use vstd::prelude::*;

verus! {

/// Address of the SPL Token program.
pub const TOKEN_PROGRAM_ID: [u8; 32] = [
    6, 221, 246, 225, 215, 101, 161, 147, 217, 203, 225, 70, 206, 235, 121, 172, 28, 180, 133,
    237, 95, 91, 55, 145, 58, 140, 245, 133, 126, 255, 0, 169,
];

/// Address of the Token-2022 program.
pub const TOKEN_2022_PROGRAM_ID: [u8; 32] = [
    6, 221, 246, 225, 238, 117, 143, 222, 24, 66, 93, 188, 228, 108, 205, 218, 182, 26, 252, 77,
    131, 185, 13, 39, 254, 189, 249, 40, 216, 161, 139, 252,
];

/// Address of the Associated Token Account program.
pub const ASSOCIATED_TOKEN_PROGRAM_ID: [u8; 32] = [
    140, 151, 37, 143, 78, 36, 137, 241, 187, 61, 16, 41, 20, 142, 13, 131, 11, 90, 19, 153, 218,
    255, 16, 132, 4, 142, 123, 216, 219, 233, 248, 89,
];

/// The address of the SPL Token program as `pinocchio_token::ID` declares
/// it. Claimed: its bytes are `TOKEN_PROGRAM_ID`.
#[verifier::external_body]
pub(crate) fn token_program_id() -> (r: [u8; 32])
    ensures
        r == TOKEN_PROGRAM_ID,
{
    pinocchio_token::ID.to_bytes()
}

/// The address of the Token-2022 program as `pinocchio_token_2022::ID`
/// declares it. Claimed: its bytes are `TOKEN_2022_PROGRAM_ID`.
#[verifier::external_body]
pub(crate) fn token_2022_program_id() -> (r: [u8; 32])
    ensures
        r == TOKEN_2022_PROGRAM_ID,
{
    pinocchio_token_2022::ID.to_bytes()
}

/// Whether two addresses are the same.
pub fn same_address(a: &[u8; 32], b: &[u8; 32]) -> (r: bool)
    ensures
        r == (a@ == b@),
{
    let mut i: usize = 0;
    while i < 32
        invariant
            i <= 32,
            a@.len() == 32,
            b@.len() == 32,
            forall|k: int| 0 <= k < i ==> a@[k] == b@[k],
        decreases 32 - i,
    {
        if a[i] != b[i] {
            return false;
        }
        i = i + 1;
    }
    assert(a@ =~= b@);
    true
}

} // verus!
