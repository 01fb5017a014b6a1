//! Helpers for Solana programs written with `pinocchio`: account checks,
//! token program flows, Token-2022 extension parsing and wire-encoded
//! option decoding.

use vstd::prelude::*;
use pinocchio::{cpi::Seed as CpiSeed, error::ProgramError, sysvars::rent::Rent, AccountView};

pub mod associated_token;
pub mod cpi;
pub mod error;
pub mod ids;
pub mod option;
pub mod runtime;
pub mod sysvar;
pub mod token;
pub mod token_2022;
pub mod token_interface;

pub use error::UtilError;

use crate::cpi::{create_then, invoke_create_account, rent_minimum_balance, rent_of, Record};
use crate::error::from_program_result;
use crate::runtime::{
    account_data, observe_account, Access, AccountCall, DataRead, Observation, account_lamports, close_account_view, resize_account,
    set_account_lamports, write_account_data_byte,
};
use crate::sysvar::get_sysvar;

verus! {

/// Whether an account's data length equals the expected length.
pub fn check_len(data_len: usize, expected: usize) -> (r: Result<(), UtilError>)
    ensures
        r == (if data_len == expected {
            Ok(())
        } else {
            Err(UtilError::InvalidAccountData)
        }),
{
    if data_len != expected {
        return Err(UtilError::InvalidAccountData);
    }
    Ok(())
}

/// Get the length of an account's data.
pub trait DataLen {
    const LEN: usize;

    /// Validates the data length of `account`: by default it must be `LEN`.
    ///
    /// The record is the read of `account` that the result was decided on.
    fn check_data_len(account: &AccountView) -> (r: (Result<(), UtilError>, Ghost<Observation>))
        ensures
            r.1@.account() == *account,
            r.0 matches Err(e) ==> e == UtilError::InvalidAccountData || e is Program,
        default_ensures
            r.0 == (if r.1@.data_len() == Self::LEN {
                Ok(())
            } else {
                Err(UtilError::InvalidAccountData)
            }),
    {
        let (state, seen) = observe_account(account);
        (check_len(state.data_len, Self::LEN), seen)
    }
}

/// Get the PDA seed namespace for a program account type.
pub trait Seed {
    const SEED: &'static str;
}

/// Generate an enum and associated function for updating fields
/// on an account struct.
pub trait AccountUpdates {
    type Update;

    fn updates(&mut self, updates: Self::Update) -> Result<(), UtilError>;
}

/// Validate surface level account attributes like keys, data length, and more.
pub trait Validate<'info> {
    fn validate(&self) -> Result<(), UtilError>;
}

/// Build an instruction context with both accounts and instruction data
pub trait Context<'info>: Sized {
    const ACCOUNTS_LEN: usize;

    fn build(accounts: &'info mut [AccountView]) -> Result<Self, UtilError>;
}

/// Creates `account` with `space` bytes and `owner` as its owning program,
/// paid by `payer` with the rent-exempt minimum balance for `space` read
/// from `rent` or from the rent sysvar, signed with `signer_seeds`.
///
/// The records are the calls made in order: the load of the rent sysvar
/// (when `rent` is `None`), the computation of the balance, and the
/// `CreateAccount` invocation; the flow stops at the first refusal.
pub fn create_account_owned_by<'a>(
    payer: &AccountView,
    account: &AccountView,
    rent: Option<&Rent>,
    signer_seeds: &'a [CpiSeed<'a>],
    space: usize,
    owner: &[u8; 32],
) -> (r: (Result<(), UtilError>, Ghost<Seq<Record<'a>>>))
    ensures
        create_then(r.1@, r.0, rent_of(rent), *payer, *account, space, *owner, signer_seeds@, None),
{
    let (got, loads) = get_sysvar(rent);
    let rent = match got {
        Ok(rent) => rent,
        Err(e) => return (Err(e), loads),
    };
    let (quote, computed) = rent_minimum_balance(&rent, space);
    let lamports = match quote {
        Ok(lamports) => lamports,
        Err(e) => return (Err(UtilError::Program(e)), Ghost(loads@.push(computed@))),
    };
    let (answer, call) = invoke_create_account(payer, account, lamports, space as u64, owner, signer_seeds);
    (from_program_result(answer), Ghost(loads@.push(computed@).push(call@)))
}

/// Create a new program-owned account using signer seeds.
///
/// The account gets `T::LEN` bytes of space, `owner` (the owning program's
/// address, as bytes) as its owner, and the rent-exempt minimum balance for
/// that size, read from `rent` or from the rent sysvar; the records are the
/// calls made, as for `create_account_owned_by`.
pub fn create_account<'a, T: DataLen>(
    payer: &AccountView,
    account: &AccountView,
    rent: Option<&Rent>,
    signer_seeds: &'a [CpiSeed<'a>],
    owner: &[u8; 32],
) -> (r: (Result<(), UtilError>, Ghost<Seq<Record<'a>>>))
    ensures
        create_then(r.1@, r.0, rent_of(rent), *payer, *account, T::LEN, *owner, signer_seeds@, None),
{
    create_account_owned_by(payer, account, rent, signer_seeds, T::LEN, owner)
}

/// First data byte of an account that has been closed.
pub const CLOSED_ACCOUNT_MARKER: u8 = 0xff;

/// The lamports of the closed account and of the destination after
/// closing: the destination receives all of the account's lamports; a total
/// that does not fit in `u64` is refused.
pub open spec fn spec_lamports_after_close(account_lamports: u64, destination_lamports: u64) -> Result<(u64, u64), UtilError> {
    if account_lamports + destination_lamports <= u64::MAX {
        Ok((0u64, (account_lamports + destination_lamports) as u64))
    } else {
        Err(UtilError::ArithmeticOverflow)
    }
}

/// The lamports of the closed account and of the destination after
/// closing.
pub fn lamports_after_close(account_lamports: u64, destination_lamports: u64) -> (r: Result<(u64, u64), UtilError>)
    ensures
        r == spec_lamports_after_close(account_lamports, destination_lamports),
{
    match destination_lamports.checked_add(account_lamports) {
        Some(total) => Ok((0, total)),
        None => Err(UtilError::ArithmeticOverflow),
    }
}

/// Closing moves lamports without creating or destroying any, and leaves
/// the closed account with none.
pub proof fn lemma_close_preserves_lamports(account_lamports: u64, destination_lamports: u64)
    ensures
        spec_lamports_after_close(account_lamports, destination_lamports) matches Ok((account_after, destination_after))
            ==> account_after == 0 && account_after + destination_after == account_lamports + destination_lamports,
        spec_lamports_after_close(account_lamports, destination_lamports) is Err <==> account_lamports
            + destination_lamports > u64::MAX,
{
}

/// The lamports that `call` read of `account`, if it is such a read.
pub open spec fn lamports_read(call: AccountCall, account: AccountView) -> Option<u64> {
    match call {
        AccountCall::Lamports { account: a, lamports } => if a == account {
            Some(lamports)
        } else {
            None
        },
        _ => None,
    }
}

/// The result that closing reports for the runtime's answer to a call.
pub open spec fn runtime_result(answer: Result<(), ProgramError>) -> Result<(), UtilError> {
    match answer {
        Ok(()) => Ok(()),
        Err(e) => Err(UtilError::Program(e)),
    }
}

/// Whether `records` and `r` are what closing `account` into `destination`
/// gives once the closed marker was written: the lamports of both are read,
/// the destination gets them all and the account none (a total that does
/// not fit in `u64` is refused), then the account's data is shrunk to one
/// byte and the account is closed; the first refusal stops the flow.
pub open spec fn close_moves(records: Seq<Access>, r: Result<(), UtilError>, account: AccountView, destination: AccountView) -> bool {
    records.len() >= 3 && match (lamports_read(records[1].call(), account), lamports_read(records[2].call(), destination)) {
        (Some(from), Some(to)) => match spec_lamports_after_close(from, to) {
            Err(e) => records.len() == 3 && r == Err::<(), UtilError>(e),
            Ok((account_after, destination_after)) => {
                &&& records.len() >= 6
                &&& records[3].call() == (AccountCall::SetLamports { account: destination, lamports: destination_after })
                &&& records[4].call() == (AccountCall::SetLamports { account, lamports: account_after })
                &&& match records[5].call() {
                    AccountCall::Resize { account: a, new_len, answer } => a == account && new_len == 1 && match answer {
                        Err(e) => records.len() == 6 && r == Err::<(), UtilError>(UtilError::Program(e)),
                        Ok(()) => records.len() == 7 && match records[6].call() {
                            AccountCall::Close { account: c, answer: closed } => c == account && r == runtime_result(closed),
                            _ => false,
                        },
                    },
                    _ => false,
                }
            },
        },
        _ => false,
    }
}

/// Whether `records` and `r` are what closing `account` into `destination`
/// gives: the closed marker is written to the first data byte (data that
/// has none is refused with `InvalidAccountData`), then the lamports move
/// as `close_moves` states.
pub open spec fn close_run(records: Seq<Access>, r: Result<(), UtilError>, account: AccountView, destination: AccountView) -> bool {
    records.len() >= 1 && match records[0].call() {
        AccountCall::WriteByte { account: a, index, value, answer, .. } => a == account && index == 0 && value
            == CLOSED_ACCOUNT_MARKER && match answer {
            Err(e) => records.len() == 1 && r == Err::<(), UtilError>(UtilError::Program(e)),
            Ok(false) => records.len() == 1 && r == Err::<(), UtilError>(UtilError::InvalidAccountData),
            Ok(true) => close_moves(records, r, account, destination),
        },
        _ => false,
    }
}

/// Close an account by transferring its lamports to `destination`,
/// shrinking the source account, and marking its data as closed.
///
/// An account without data cannot be marked and is refused with
/// `InvalidAccountData`; a lamport total that does not fit in `u64` is
/// refused with `ArithmeticOverflow`. The records are the accesses made, in
/// order.
pub fn close_account(account: &mut AccountView, destination: &mut AccountView) -> (r: (Result<(), UtilError>, Ghost<Seq<Access>>))
    ensures
        *final(account) == *old(account),
        *final(destination) == *old(destination),
        close_run(r.1@, r.0, *old(account), *old(destination)),
{
    let (written, write) = write_account_data_byte(account, 0, CLOSED_ACCOUNT_MARKER);
    match written {
        Ok(true) => {},
        Ok(false) => return (Err(UtilError::InvalidAccountData), Ghost(Seq::empty().push(write@))),
        Err(e) => return (Err(UtilError::Program(e)), Ghost(Seq::empty().push(write@))),
    }
    let (from, read_from) = account_lamports(account);
    let (to, read_to) = account_lamports(destination);
    let ghost reads = Seq::empty().push(write@).push(read_from@).push(read_to@);
    let (account_after, destination_after) = match lamports_after_close(from, to) {
        Ok(after) => after,
        Err(e) => return (Err(e), Ghost(reads)),
    };
    let set_to = set_account_lamports(destination, destination_after);
    let set_from = set_account_lamports(account, account_after);
    let (resized, resize) = resize_account(account, 1);
    let ghost moved = reads.push(set_to@).push(set_from@).push(resize@);
    if let Err(e) = resized {
        return (Err(UtilError::Program(e)), Ghost(moved));
    }
    let (closed, close) = close_account_view(account);
    (from_program_result(closed), Ghost(moved.push(close@)))
}

/// The first `len` bytes of account data (eight when `len` is `None`).
pub fn discriminator_of(data: &[u8], len: Option<usize>) -> (r: Result<Vec<u8>, UtilError>)
    ensures
        ({
            let n = match len {
                Some(n) => n as int,
                None => 8,
            };
            &&& r is Ok <==> n <= data@.len()
            &&& r matches Ok(d) ==> d@ == data@.take(n)
            &&& r is Err ==> r == Err::<Vec<u8>, UtilError>(UtilError::InvalidAccountData)
        }),
{
    let discriminator_len = match len {
        Some(n) => n,
        None => 8,
    };
    if discriminator_len > data.len() {
        return Err(UtilError::InvalidAccountData);
    }
    let mut discriminator: Vec<u8> = Vec::new();
    let mut i: usize = 0;
    while i < discriminator_len
        invariant
            i <= discriminator_len <= data@.len(),
            discriminator@ == data@.take(i as int),
        decreases discriminator_len - i,
    {
        discriminator.push(data[i]);
        i = i + 1;
        assert(discriminator@ =~= data@.take(i as int));
    }
    Ok(discriminator)
}

/// The result of reading the discriminator of account data that was read
/// as `data`: the first `len` bytes (eight when `len` is `None`).
pub open spec fn spec_load_discriminator(data: Result<Seq<u8>, ProgramError>, len: Option<usize>) -> Result<Seq<u8>, UtilError> {
    let n = match len {
        Some(n) => n as int,
        None => 8,
    };
    match data {
        Err(e) => Err(UtilError::Program(e)),
        Ok(d) => if n <= d.len() {
            Ok(d.take(n))
        } else {
            Err(UtilError::InvalidAccountData)
        },
    }
}

/// Without a length, the discriminator is the first eight bytes: the same
/// result as asking for eight, whatever the data read.
pub proof fn lemma_default_discriminator_is_eight_bytes(data: Result<Seq<u8>, ProgramError>)
    ensures
        spec_load_discriminator(data, None) == spec_load_discriminator(data, Some(8usize)),
{
}

/// A discriminator result, as bytes.
pub open spec fn bytes_view(r: Result<Vec<u8>, UtilError>) -> Result<Seq<u8>, UtilError> {
    match r {
        Ok(v) => Ok(v@),
        Err(e) => Err(e),
    }
}

/// Extract an account's discriminator. This is useful if working with Anchor
/// programs, and you need to validate that a provided account is of a specific
/// type.
///
/// You can optionally provide a custom length for the discriminator, and if not
/// provided the length will be defaulted to 8 bytes. The record is the read
/// of the account's data that the result was taken from.
pub fn load_discriminator(account: &AccountView, len: Option<usize>) -> (r: (Result<Vec<u8>, UtilError>, Ghost<DataRead>))
    ensures
        r.1@.account() == *account,
        bytes_view(r.0) == spec_load_discriminator(r.1@.data(), len),
{
    let (data, seen) = account_data(account);
    let r = match data {
        Ok(data) => discriminator_of(data.as_slice(), len),
        Err(e) => Err(UtilError::Program(e)),
    };
    (r, seen)
}

} // verus!
