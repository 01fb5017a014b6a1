//! The runtime's account views and the reads and writes this library makes
//! on them.
//!
//! Account views point into memory that the runtime owns and that invoked
//! programs may change, so nothing is claimed of the values read here: the
//! checks of this library take those values as arguments. Each read or
//! write leaves a ghost record of the account and of what was read or
//! answered; only the functions of this module make records, so a function
//! elsewhere can state what it read only by reading it.

use vstd::prelude::*;
use pinocchio::Resize;
use pinocchio::cpi::Seed as CpiSeed;

verus! {

/// An account passed to the program by the runtime.
#[verifier::external_type_specification]
#[verifier::external_body]
pub struct ExAccountView(pinocchio::AccountView);

/// An account address.
#[verifier::external_type_specification]
#[verifier::external_body]
pub struct ExAddress(pinocchio::Address);

/// A seed of a program-derived signer.
#[verifier::external_type_specification]
#[verifier::external_body]
pub struct ExSeed<'a>(CpiSeed<'a>);

/// What a read of an account gives: its address, its owning program, the
/// length of its data, and a copy of its data (or the error that borrowing
/// it gave, when it is mutably borrowed).
pub struct AccountState {
    pub address: [u8; 32],
    pub owner: [u8; 32],
    pub data_len: usize,
    pub data: Result<Vec<u8>, pinocchio::error::ProgramError>,
}

/// Account data as the checks see it.
pub open spec fn data_view(data: Result<Vec<u8>, pinocchio::error::ProgramError>) -> Result<Seq<u8>, pinocchio::error::ProgramError> {
    match data {
        Ok(d) => Ok(d@),
        Err(e) => Err(e),
    }
}

/// A record of one read of an account: which account, and what was read.
/// Only the reading functions of this module make one.
pub struct Observation {
    account: pinocchio::AccountView,
    address: [u8; 32],
    owner: [u8; 32],
    data_len: usize,
    data: Result<Vec<u8>, pinocchio::error::ProgramError>,
}

impl Observation {
    /// The account that was read.
    pub closed spec fn account(self) -> pinocchio::AccountView {
        self.account
    }

    /// Its address.
    pub closed spec fn address(self) -> Seq<u8> {
        self.address@
    }

    /// Its owning program.
    pub closed spec fn owner(self) -> Seq<u8> {
        self.owner@
    }

    /// The length of its data.
    pub closed spec fn data_len(self) -> usize {
        self.data_len
    }

    /// Its data, or the error that borrowing it gave.
    pub closed spec fn data(self) -> Result<Seq<u8>, pinocchio::error::ProgramError> {
        data_view(self.data)
    }
}

/// Reads the address, owner, data length and data of `account`
/// (`AccountView::address`, `owner`, `data_len`, and `try_borrow`, whose
/// data is copied). Claimed: the record holds the account and what was
/// returned; nothing is claimed of the values, which the runtime holds.
#[verifier::external_body]
pub(crate) fn observe_account(account: &pinocchio::AccountView) -> (r: (AccountState, Ghost<Observation>))
    ensures
        r.1@.account() == *account,
        r.1@.address() == r.0.address@,
        r.1@.owner() == r.0.owner@,
        r.1@.data_len() == r.0.data_len,
        r.1@.data() == data_view(r.0.data),
{
    let data = match account.try_borrow() {
        Ok(data) => Ok(data.to_vec()),
        Err(e) => Err(e),
    };
    let state = AccountState { address: account.address().to_bytes(), owner: account.owner().to_bytes(), data_len: account.data_len(), data };
    let seen = Ghost(Observation { account: *account, address: state.address, owner: state.owner, data_len: state.data_len, data: state.data });
    (state, seen)
}

/// A record of the address read of an account. Only the reading functions
/// of this module make one.
pub struct Located {
    account: pinocchio::AccountView,
    address: [u8; 32],
}

impl Located {
    /// The account that was read.
    pub closed spec fn account(self) -> pinocchio::AccountView {
        self.account
    }

    /// Its address.
    pub closed spec fn address(self) -> Seq<u8> {
        self.address@
    }
}

/// Reads the address of `account` (`AccountView::address`), as bytes.
/// Claimed: the record holds the account and the bytes returned.
#[verifier::external_body]
pub(crate) fn locate_account(account: &pinocchio::AccountView) -> (r: ([u8; 32], Ghost<Located>))
    ensures
        r.1@.account() == *account,
        r.1@.address() == r.0@,
{
    let address = account.address().to_bytes();
    (address, Ghost(Located { account: *account, address }))
}

/// A record of the owner read of an account. Only the reading functions of
/// this module make one.
pub struct Owned {
    account: pinocchio::AccountView,
    owner: [u8; 32],
}

impl Owned {
    /// The account that was read.
    pub closed spec fn account(self) -> pinocchio::AccountView {
        self.account
    }

    /// Its owning program.
    pub closed spec fn owner(self) -> Seq<u8> {
        self.owner@
    }
}

/// Reads the program that owns `account` (`AccountView::owner`), as bytes.
/// Claimed: the record holds the account and the bytes returned.
#[verifier::external_body]
pub(crate) fn read_owner(account: &pinocchio::AccountView) -> (r: ([u8; 32], Ghost<Owned>))
    ensures
        r.1@.account() == *account,
        r.1@.owner() == r.0@,
{
    let owner = account.owner().to_bytes();
    (owner, Ghost(Owned { account: *account, owner }))
}

/// One access to an account's lamports or data, with what was asked and
/// what was answered.
pub enum AccountCall {
    /// `value` was written at `index` of the data (when `answer` is
    /// `Ok(true)`); the data borrowed had `data_len` bytes.
    WriteByte {
        account: pinocchio::AccountView,
        index: usize,
        value: u8,
        answer: Result<bool, pinocchio::error::ProgramError>,
        data_len: usize,
    },
    /// The lamports were read.
    Lamports { account: pinocchio::AccountView, lamports: u64 },
    /// The lamports were set.
    SetLamports { account: pinocchio::AccountView, lamports: u64 },
    /// The data was resized to `new_len` bytes.
    Resize { account: pinocchio::AccountView, new_len: usize, answer: Result<(), pinocchio::error::ProgramError> },
    /// The account was closed.
    Close { account: pinocchio::AccountView, answer: Result<(), pinocchio::error::ProgramError> },
}

/// A record of one access to an account. Only the accessing functions of
/// this module make one.
pub struct Access {
    call: AccountCall,
}

impl Access {
    /// The access and its answer.
    pub closed spec fn call(self) -> AccountCall {
        self.call
    }
}

/// The lamports held by `account` (`AccountView::lamports`). Claimed: the
/// record holds the account and the value returned.
#[verifier::external_body]
pub(crate) fn account_lamports(account: &pinocchio::AccountView) -> (r: (u64, Ghost<Access>))
    ensures
        r.1@.call() == (AccountCall::Lamports { account: *account, lamports: r.0 }),
{
    let lamports = account.lamports();
    (lamports, Ghost(Access { call: AccountCall::Lamports { account: *account, lamports } }))
}

/// Sets the lamports held by `account` (`AccountView::set_lamports`).
///
/// Claimed: the view itself (the pointer to the runtime's account) is not
/// changed, the write going to the memory it points to; the record holds
/// the account and the value set.
#[verifier::external_body]
pub(crate) fn set_account_lamports(account: &mut pinocchio::AccountView, lamports: u64) -> (r: Ghost<Access>)
    ensures
        *final(account) == *old(account),
        r@.call() == (AccountCall::SetLamports { account: *old(account), lamports }),
{
    account.set_lamports(lamports);
    Ghost(Access { call: AccountCall::SetLamports { account: *account, lamports } })
}

/// A record of the data read of an account. Only the reading functions of
/// this module make one.
pub struct DataRead {
    account: pinocchio::AccountView,
    data: Result<Vec<u8>, pinocchio::error::ProgramError>,
}

impl DataRead {
    /// The account that was read.
    pub closed spec fn account(self) -> pinocchio::AccountView {
        self.account
    }

    /// Its data, or the error that borrowing it gave.
    pub closed spec fn data(self) -> Result<Seq<u8>, pinocchio::error::ProgramError> {
        data_view(self.data)
    }
}

/// A copy of the data of `account`, borrowed with `AccountView::try_borrow`,
/// which fails when the data is mutably borrowed. Claimed: the record holds
/// the account and what was returned.
#[verifier::external_body]
pub(crate) fn account_data(account: &pinocchio::AccountView) -> (r: (Result<Vec<u8>, pinocchio::error::ProgramError>, Ghost<DataRead>))
    ensures
        r.1@.account() == *account,
        r.1@.data() == data_view(r.0),
{
    let data = match account.try_borrow() {
        Ok(data) => Ok(data.to_vec()),
        Err(e) => Err(e),
    };
    let seen = Ghost(DataRead { account: *account, data });
    (data, seen)
}

/// Whether `call` is a write of `value` at `index` of the data of
/// `account` answered with `answer`, `Ok(true)` exactly when `index` is
/// below the length of the data borrowed.
pub open spec fn wrote_byte(call: AccountCall, account: pinocchio::AccountView, index: usize, value: u8, answer: Result<bool, pinocchio::error::ProgramError>) -> bool {
    match call {
        AccountCall::WriteByte { account: a, index: i, value: v, answer: w, data_len } => a == account && i == index
            && v == value && w == answer && (answer matches Ok(written) ==> written == (index < data_len)),
        _ => false,
    }
}

/// Writes `value` at `index` of the data of `account`, borrowed with
/// `AccountView::try_borrow_mut`; nothing is written when the data is too
/// short. Claimed: the view itself is not changed, and the record holds the
/// access, answered `Ok(true)` exactly when `index` is below the length of
/// the data borrowed (which the runtime holds; nothing more is claimed of
/// it).
#[verifier::external_body]
pub(crate) fn write_account_data_byte(
    account: &mut pinocchio::AccountView,
    index: usize,
    value: u8,
) -> (r: (Result<bool, pinocchio::error::ProgramError>, Ghost<Access>))
    ensures
        *final(account) == *old(account),
        wrote_byte(r.1@.call(), *old(account), index, value, r.0),
{
    let view = *account;
    let mut data = match account.try_borrow_mut() {
        Ok(data) => data,
        Err(e) => return (Err(e), Ghost(Access { call: AccountCall::WriteByte { account: view, index, value, answer: Err(e), data_len: 0 } })),
    };
    let data_len = data.len();
    let answer = match data.get_mut(index) {
        Some(byte) => {
            *byte = value;
            Ok(true)
        },
        None => Ok(false),
    };
    (answer, Ghost(Access { call: AccountCall::WriteByte { account: view, index, value, answer, data_len } }))
}

/// Resizes the data of `account` (`Resize::resize`). Claimed: the view
/// itself is not changed; the record holds the access and the answer.
#[verifier::external_body]
pub(crate) fn resize_account(account: &mut pinocchio::AccountView, new_len: usize) -> (r: (Result<(), pinocchio::error::ProgramError>, Ghost<Access>))
    ensures
        *final(account) == *old(account),
        r.1@.call() == (AccountCall::Resize { account: *old(account), new_len, answer: r.0 }),
{
    let answer = account.resize(new_len);
    (answer, Ghost(Access { call: AccountCall::Resize { account: *account, new_len, answer } }))
}

/// Zeroes the owner, lamports and data length of `account`
/// (`AccountView::close`). Claimed: the view itself is not changed; the
/// record holds the access and the answer.
#[verifier::external_body]
pub(crate) fn close_account_view(account: &mut pinocchio::AccountView) -> (r: (Result<(), pinocchio::error::ProgramError>, Ghost<Access>))
    ensures
        *final(account) == *old(account),
        r.1@.call() == (AccountCall::Close { account: *old(account), answer: r.0 }),
{
    let answer = account.close();
    (answer, Ghost(Access { call: AccountCall::Close { account: *account, answer } }))
}

} // verus!
