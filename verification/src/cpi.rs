//! The calls this library makes on the runtime while it creates and
//! initializes accounts (loading the rent sysvar, computing a rent-exempt
//! balance, invoking other programs), and the record that each leaves of
//! what was asked and of what was answered.
//!
//! A record is made only by the calling functions of this module, so a
//! flow elsewhere can state the calls it made only by making them.

use vstd::prelude::*;
use pinocchio::{cpi::{Seed as CpiSeed, Signer}, error::ProgramError, sysvars::rent::Rent, AccountView, Address};
use pinocchio_associated_token_account::instructions::{Create, CreateIdempotent};
use pinocchio_system::instructions::CreateAccount;
use pinocchio_token_2022::instructions::{
    Approve, ApproveChecked, AuthorityType, Burn, BurnChecked, CloseAccount, FreezeAccount,
    InitializeImmutableOwner, MintTo, MintToChecked, Revoke, SetAuthority, SyncNative, ThawAccount,
    Transfer, TransferChecked,
};

use crate::error::UtilError;

verus! {

/// An instruction that this library hands to another program: the program,
/// the accounts and the arguments it carries. The signer seeds are kept by
/// the record of the invocation.
pub enum Instruction {
    /// System program `CreateAccount`: `to` is created with `space` bytes,
    /// `lamports` paid by `from`, and `owner` as its owning program.
    CreateAccount { from: AccountView, to: AccountView, lamports: u64, space: u64, owner: [u8; 32] },
    /// `InitializeAccount3` of the token program `program`.
    InitializeAccount3 { program: [u8; 32], account: AccountView, mint: AccountView, owner: Address },
    /// `InitializeMint2` of the token program `program`.
    InitializeMint2 {
        program: [u8; 32],
        mint: AccountView,
        decimals: u8,
        mint_authority: Address,
        freeze_authority: Option<Address>,
    },
    /// `instruction` of the token program `program`.
    TokenProgram { program: [u8; 32], instruction: TokenInstruction },
    /// `Create` (or, when `idempotent`, `CreateIdempotent`) of the
    /// Associated Token Account program.
    CreateAssociatedTokenAccount {
        idempotent: bool,
        funding_account: AccountView,
        account: AccountView,
        wallet: AccountView,
        mint: AccountView,
        system_program: AccountView,
        token_program: AccountView,
    },
}

/// An instruction of a token program other than the initializations:
/// the accounts and arguments it carries.
pub enum TokenInstruction {
    /// `Transfer`.
    Transfer { from: AccountView, to: AccountView, authority: AccountView, amount: u64 },
    /// `TransferChecked`.
    TransferChecked { from: AccountView, mint: AccountView, to: AccountView, authority: AccountView, amount: u64, decimals: u8 },
    /// `MintTo`.
    MintTo { mint: AccountView, account: AccountView, mint_authority: AccountView, amount: u64 },
    /// `MintToChecked`.
    MintToChecked { mint: AccountView, account: AccountView, mint_authority: AccountView, amount: u64, decimals: u8 },
    /// `Burn`.
    Burn { account: AccountView, mint: AccountView, authority: AccountView, amount: u64 },
    /// `BurnChecked`.
    BurnChecked { account: AccountView, mint: AccountView, authority: AccountView, amount: u64, decimals: u8 },
    /// `Approve`.
    Approve { source: AccountView, delegate: AccountView, authority: AccountView, amount: u64 },
    /// `ApproveChecked`.
    ApproveChecked { source: AccountView, mint: AccountView, delegate: AccountView, authority: AccountView, amount: u64, decimals: u8 },
    /// `Revoke`.
    Revoke { source: AccountView, authority: AccountView },
    /// `SetAuthority`.
    SetAuthority { account: AccountView, authority: AccountView, authority_type: AuthorityType, new_authority: Option<Address> },
    /// `FreezeAccount`.
    FreezeAccount { account: AccountView, mint: AccountView, freeze_authority: AccountView },
    /// `ThawAccount`.
    ThawAccount { account: AccountView, mint: AccountView, freeze_authority: AccountView },
    /// `CloseAccount`.
    CloseAccount { account: AccountView, destination: AccountView, authority: AccountView },
    /// `SyncNative`.
    SyncNative { native_token: AccountView },
    /// `InitializeImmutableOwner`.
    InitializeImmutableOwner { account: AccountView },
}

/// One call on the runtime, with what was asked and what was answered.
pub enum Step {
    /// The rent sysvar was loaded (`Sysvar::get` for `Rent`).
    LoadRent { answer: Result<Rent, ProgramError> },
    /// The rent-exempt minimum balance of `data_len` bytes was computed
    /// from `rent` (`Rent::try_minimum_balance`).
    MinimumBalance { rent: Rent, data_len: usize, answer: Result<u64, ProgramError> },
    /// `instruction` was invoked.
    Invoke { instruction: Instruction, answer: Result<(), ProgramError> },
}

/// A record of one call on the runtime, with the signer seeds that it was
/// signed with (none for a call that is not a signed invocation).
pub struct Record<'a> {
    step: Step,
    signers: &'a [CpiSeed<'a>],
}

impl<'a> Record<'a> {
    /// The call and its answer.
    pub closed spec fn step(self) -> Step {
        self.step
    }

    /// The signer seeds the call was signed with.
    pub closed spec fn signers(self) -> Seq<CpiSeed<'a>> {
        self.signers@
    }
}

/// Whether `record` is the invocation of `instruction`.
pub open spec fn invokes<'a>(record: Record<'a>, instruction: Instruction) -> bool {
    record.step() matches Step::Invoke { instruction: i, .. } && i == instruction
}

/// The runtime's answer to the invocation recorded in `record`.
pub open spec fn answer_of<'a>(record: Record<'a>) -> Result<(), ProgramError> {
    match record.step() {
        Step::Invoke { answer, .. } => answer,
        _ => Ok(()),
    }
}

/// The result that a flow reports for the runtime's answer to an
/// invocation: the answer's error, unchanged.
pub open spec fn answer_result(answer: Result<(), ProgramError>) -> Result<(), UtilError> {
    match answer {
        Ok(()) => Ok(()),
        Err(e) => Err(UtilError::Program(e)),
    }
}

/// The rent that a flow was handed, as a value.
pub open spec fn rent_of(rent: Option<&Rent>) -> Option<Rent> {
    match rent {
        Some(r) => Some(*r),
        None => None,
    }
}

/// How getting the rent-exempt balance of `space` bytes went, as recorded
/// at the start of `records`: the rent is the one handed over, or else the
/// answer of loading it (the first record); the balance is computed from
/// it (the next record). The number of records taken, and the balance or
/// the refusal that stopped the flow; `None` when the records do not start
/// so.
pub open spec fn balance_run<'a>(records: Seq<Record<'a>>, rent: Option<Rent>, space: usize) -> Option<(int, Result<u64, ProgramError>)> {
    let (k, got) = match rent {
        Some(r) => (0int, Some(Ok::<Rent, ProgramError>(r))),
        None => if records.len() >= 1 {
            match records[0].step() {
                Step::LoadRent { answer } => (1int, Some(answer)),
                _ => (1int, None),
            }
        } else {
            (1int, None)
        },
    };
    match got {
        None => None,
        Some(Err(e)) => Some((k, Err(e))),
        Some(Ok(r)) => if records.len() > k {
            match records[k].step() {
                Step::MinimumBalance { rent: used, data_len, answer } => if used == r && data_len == space {
                    Some((k + 1, answer))
                } else {
                    None
                },
                _ => None,
            }
        } else {
            None
        },
    }
}

/// Whether `records` and `r` are what a flow gives that gets the
/// rent-exempt balance of `space` bytes, creates `account` with it (paid by
/// `payer`, `space` bytes, owned by `owner`, signed with `seeds`), and then
/// issues `then` unsigned, if any; it stops at the first refusal and
/// reports it.
pub open spec fn create_then<'a>(
    records: Seq<Record<'a>>,
    r: Result<(), UtilError>,
    rent: Option<Rent>,
    payer: AccountView,
    account: AccountView,
    space: usize,
    owner: [u8; 32],
    seeds: Seq<CpiSeed<'a>>,
    then: Option<Instruction>,
) -> bool {
    match balance_run(records, rent, space) {
        None => false,
        Some((n, Err(e))) => records.len() == n && r == Err::<(), UtilError>(UtilError::Program(e)),
        Some((n, Ok(lamports))) => {
            &&& records.len() > n
            &&& invokes(
                records[n],
                Instruction::CreateAccount { from: payer, to: account, lamports, space: space as u64, owner },
            )
            &&& records[n].signers() == seeds
            &&& match (answer_of(records[n]), then) {
                (Err(e), _) => records.len() == n + 1 && r == Err::<(), UtilError>(UtilError::Program(e)),
                (Ok(()), None) => records.len() == n + 1 && r == Ok::<(), UtilError>(()),
                (Ok(()), Some(i)) => records.len() == n + 2 && invokes(records[n + 1], i) && records[n + 1].signers()
                    == Seq::<CpiSeed<'a>>::empty() && r == answer_result(answer_of(records[n + 1])),
            }
        },
    }
}

/// Loads the rent sysvar from the runtime (`Sysvar::get` for `Rent`).
/// Claimed: the record holds the answer returned; nothing is claimed of it.
#[verifier::external_body]
pub(crate) fn load_rent<'a>() -> (r: (Result<Rent, ProgramError>, Ghost<Record<'a>>))
    ensures
        r.1@.signers() == Seq::<CpiSeed<'a>>::empty(),
        r.1@.step() == (Step::LoadRent { answer: r.0 }),
{
    let answer = <Rent as pinocchio::sysvars::Sysvar>::get();
    (answer, Ghost(Record { step: Step::LoadRent { answer }, signers: &[] }))
}

/// The minimum balance that makes an account of `data_len` bytes
/// rent-exempt (`Rent::try_minimum_balance`). Claimed: the record holds
/// the rent, the length and the answer returned, and a length above the
/// permitted maximum of 10 MiB is refused. Not claimed: the value, which
/// depends on the rate held privately by `rent`, nor the refusal of a rate
/// that would overflow, which depends on it too.
#[verifier::external_body]
pub(crate) fn rent_minimum_balance<'a>(rent: &Rent, data_len: usize) -> (r: (Result<u64, ProgramError>, Ghost<Record<'a>>))
    ensures
        r.1@.signers() == Seq::<CpiSeed<'a>>::empty(),
        r.1@.step() == (Step::MinimumBalance { rent: *rent, data_len, answer: r.0 }),
        data_len > 10 * 1024 * 1024 ==> r.0 is Err,
{
    let answer = rent.try_minimum_balance(data_len);
    (answer, Ghost(Record { step: Step::MinimumBalance { rent: *rent, data_len, answer }, signers: &[] }))
}

/// Invokes the System program's `CreateAccount` instruction, signed with
/// `signer_seeds` (`CreateAccount::invoke_signed`). Claimed: the record
/// holds the instruction as built here and the answer returned.
#[verifier::external_body]
pub(crate) fn invoke_create_account<'a>(
    payer: &AccountView,
    account: &AccountView,
    lamports: u64,
    space: u64,
    owner: &[u8; 32],
    signer_seeds: &'a [CpiSeed<'a>],
) -> (r: (Result<(), ProgramError>, Ghost<Record<'a>>))
    ensures
        r.1@.signers() == signer_seeds@,
        r.1@.step() == (Step::Invoke {
            instruction: Instruction::CreateAccount { from: *payer, to: *account, lamports, space, owner: *owner },
            answer: r.0,
        }),
{
    let signers = [Signer::from(signer_seeds)];
    let owner_address = Address::new_from_array(*owner);
    let answer = CreateAccount { from: payer, to: account, space, owner: &owner_address, lamports }.invoke_signed(&signers);
    let instruction = Instruction::CreateAccount { from: *payer, to: *account, lamports, space, owner: *owner };
    (answer, Ghost(Record { step: Step::Invoke { instruction, answer }, signers: signer_seeds }))
}

/// Invokes the SPL Token program's `InitializeAccount3` instruction
/// (`pinocchio_token::instructions::InitializeAccount3::invoke`), which
/// goes to `pinocchio_token::ID`. Claimed: the record holds that program,
/// the accounts and owner handed over, and the answer returned.
#[verifier::external_body]
pub(crate) fn invoke_token_initialize_account3<'a>(
    account: &AccountView,
    mint: &AccountView,
    owner: &Address,
) -> (r: (Result<(), ProgramError>, Ghost<Record<'a>>))
    ensures
        r.1@.signers() == Seq::<CpiSeed<'a>>::empty(),
        r.1@.step() == (Step::Invoke {
            instruction: Instruction::InitializeAccount3 {
            program: crate::ids::TOKEN_PROGRAM_ID,
            account: *account,
            mint: *mint,
            owner: *owner,
        },
            answer: r.0,
        }),
{
    let answer = pinocchio_token::instructions::InitializeAccount3 { account, mint, owner }.invoke();
    let program = pinocchio_token::ID.to_bytes();
    let instruction = Instruction::InitializeAccount3 { program, account: *account, mint: *mint, owner: *owner };
    (answer, Ghost(Record { step: Step::Invoke { instruction, answer }, signers: &[] }))
}

/// Invokes Token-2022's `InitializeAccount3` instruction with
/// `pinocchio_token_2022::ID` as the token program
/// (`pinocchio_token_2022::instructions::InitializeAccount3::invoke`).
/// Claimed: the record holds that program, the accounts and owner handed
/// over, and the answer returned.
#[verifier::external_body]
pub(crate) fn invoke_token_2022_initialize_account3<'a>(
    account: &AccountView,
    mint: &AccountView,
    owner: &Address,
) -> (r: (Result<(), ProgramError>, Ghost<Record<'a>>))
    ensures
        r.1@.signers() == Seq::<CpiSeed<'a>>::empty(),
        r.1@.step() == (Step::Invoke {
            instruction: Instruction::InitializeAccount3 {
            program: crate::ids::TOKEN_2022_PROGRAM_ID,
            account: *account,
            mint: *mint,
            owner: *owner,
        },
            answer: r.0,
        }),
{
    let token_program = &pinocchio_token_2022::ID;
    let answer = pinocchio_token_2022::instructions::InitializeAccount3 { account, mint, owner, token_program }.invoke();
    let program = pinocchio_token_2022::ID.to_bytes();
    let instruction = Instruction::InitializeAccount3 { program, account: *account, mint: *mint, owner: *owner };
    (answer, Ghost(Record { step: Step::Invoke { instruction, answer }, signers: &[] }))
}

/// The optional freeze authority as carried by a record.
pub open spec fn authority_of(freeze_authority: Option<&Address>) -> Option<Address> {
    match freeze_authority {
        Some(a) => Some(*a),
        None => None,
    }
}

/// Invokes the SPL Token program's `InitializeMint2` instruction
/// (`pinocchio_token::instructions::InitializeMint2::invoke`), which goes
/// to `pinocchio_token::ID`. Claimed: the record holds that program, the
/// mint and arguments handed over, and the answer returned.
#[verifier::external_body]
pub(crate) fn invoke_token_initialize_mint2<'a>(
    mint: &AccountView,
    decimals: u8,
    mint_authority: &Address,
    freeze_authority: Option<&Address>,
) -> (r: (Result<(), ProgramError>, Ghost<Record<'a>>))
    ensures
        r.1@.signers() == Seq::<CpiSeed<'a>>::empty(),
        r.1@.step() == (Step::Invoke {
            instruction: Instruction::InitializeMint2 {
            program: crate::ids::TOKEN_PROGRAM_ID,
            mint: *mint,
            decimals,
            mint_authority: *mint_authority,
            freeze_authority: authority_of(freeze_authority),
        },
            answer: r.0,
        }),
{
    let answer = pinocchio_token::instructions::InitializeMint2 { mint, decimals, mint_authority, freeze_authority }.invoke();
    let program = pinocchio_token::ID.to_bytes();
    let freeze_authority = freeze_authority.copied();
    let instruction = Instruction::InitializeMint2 { program, mint: *mint, decimals, mint_authority: *mint_authority, freeze_authority };
    (answer, Ghost(Record { step: Step::Invoke { instruction, answer }, signers: &[] }))
}

/// Invokes Token-2022's `InitializeMint2` instruction with
/// `pinocchio_token_2022::ID` as the token program
/// (`pinocchio_token_2022::instructions::InitializeMint2::invoke`).
/// Claimed: the record holds that program, the mint and arguments handed
/// over, and the answer returned.
#[verifier::external_body]
pub(crate) fn invoke_token_2022_initialize_mint2<'a>(
    mint: &AccountView,
    decimals: u8,
    mint_authority: &Address,
    freeze_authority: Option<&Address>,
) -> (r: (Result<(), ProgramError>, Ghost<Record<'a>>))
    ensures
        r.1@.signers() == Seq::<CpiSeed<'a>>::empty(),
        r.1@.step() == (Step::Invoke {
            instruction: Instruction::InitializeMint2 {
            program: crate::ids::TOKEN_2022_PROGRAM_ID,
            mint: *mint,
            decimals,
            mint_authority: *mint_authority,
            freeze_authority: authority_of(freeze_authority),
        },
            answer: r.0,
        }),
{
    let token_program = &pinocchio_token_2022::ID;
    let answer = pinocchio_token_2022::instructions::InitializeMint2 { mint, decimals, mint_authority, freeze_authority, token_program }.invoke();
    let program = pinocchio_token_2022::ID.to_bytes();
    let freeze_authority = freeze_authority.copied();
    let instruction = Instruction::InitializeMint2 { program, mint: *mint, decimals, mint_authority: *mint_authority, freeze_authority };
    (answer, Ghost(Record { step: Step::Invoke { instruction, answer }, signers: &[] }))
}

/// Invokes the Associated Token Account program's `Create` instruction,
/// signed with `signer_seeds` (`Create::invoke_signed`). Claimed: the
/// record holds the accounts handed over, the seeds and the answer returned.
#[verifier::external_body]
pub(crate) fn invoke_create_associated_token_account<'a>(
    payer: &AccountView,
    account: &AccountView,
    wallet: &AccountView,
    mint: &AccountView,
    system_program: &AccountView,
    token_program: &AccountView,
    signer_seeds: &'a [CpiSeed<'a>],
) -> (r: (Result<(), ProgramError>, Ghost<Record<'a>>))
    ensures
        r.1@.signers() == signer_seeds@,
        r.1@.step() == (Step::Invoke {
            instruction: Instruction::CreateAssociatedTokenAccount {
                idempotent: false,
                funding_account: *payer,
                account: *account,
                wallet: *wallet,
                mint: *mint,
                system_program: *system_program,
                token_program: *token_program,
            },
            answer: r.0,
        }),
{
    let signers = [Signer::from(signer_seeds)];
    let answer = Create { funding_account: payer, account, wallet, mint, system_program, token_program }.invoke_signed(&signers);
    let (funding_account, account, wallet, mint) = (*payer, *account, *wallet, *mint);
    let (system_program, token_program) = (*system_program, *token_program);
    let instruction = Instruction::CreateAssociatedTokenAccount { idempotent: false, funding_account, account, wallet, mint, system_program, token_program };
    (answer, Ghost(Record { step: Step::Invoke { instruction, answer }, signers: signer_seeds }))
}

/// Invokes the Associated Token Account program's `CreateIdempotent` instruction,
/// signed with `signer_seeds` (`CreateIdempotent::invoke_signed`). Claimed: the
/// record holds the accounts handed over, the seeds and the answer returned.
#[verifier::external_body]
pub(crate) fn invoke_create_idempotent_associated_token_account<'a>(
    payer: &AccountView,
    account: &AccountView,
    wallet: &AccountView,
    mint: &AccountView,
    system_program: &AccountView,
    token_program: &AccountView,
    signer_seeds: &'a [CpiSeed<'a>],
) -> (r: (Result<(), ProgramError>, Ghost<Record<'a>>))
    ensures
        r.1@.signers() == signer_seeds@,
        r.1@.step() == (Step::Invoke {
            instruction: Instruction::CreateAssociatedTokenAccount {
                idempotent: true,
                funding_account: *payer,
                account: *account,
                wallet: *wallet,
                mint: *mint,
                system_program: *system_program,
                token_program: *token_program,
            },
            answer: r.0,
        }),
{
    let signers = [Signer::from(signer_seeds)];
    let answer = CreateIdempotent { funding_account: payer, account, wallet, mint, system_program, token_program }.invoke_signed(&signers);
    let (funding_account, account, wallet, mint) = (*payer, *account, *wallet, *mint);
    let (system_program, token_program) = (*system_program, *token_program);
    let instruction = Instruction::CreateAssociatedTokenAccount { idempotent: true, funding_account, account, wallet, mint, system_program, token_program };
    (answer, Ghost(Record { step: Step::Invoke { instruction, answer }, signers: signer_seeds }))
}

/// Invokes Token-2022's `Transfer` instruction with `pinocchio_token_2022::ID`
/// as the token program
/// (`Transfer::invoke_signed`, signed with `signer_seeds`).
/// Claimed: the record holds that program, the accounts and arguments handed over, and the answer returned.
#[verifier::external_body]
pub(crate) fn invoke_token_2022_transfer<'a>(
    from: &AccountView,
    to: &AccountView,
    authority: &AccountView,
    amount: u64,
    signer_seeds: &'a [CpiSeed<'a>],
) -> (r: (Result<(), ProgramError>, Ghost<Record<'a>>))
    ensures
        r.1@.signers() == signer_seeds@,
        r.1@.step() == (Step::Invoke {
            instruction: Instruction::TokenProgram {
                program: crate::ids::TOKEN_2022_PROGRAM_ID,
                instruction: TokenInstruction::Transfer { from: *from, to: *to, authority: *authority, amount },
            },
            answer: r.0,
        }),
{
    let signers = [Signer::from(signer_seeds)];
    let token_program = &pinocchio_token_2022::ID;
    let answer = Transfer { from, to, authority, amount, token_program }.invoke_signed(&signers);
    let instruction = TokenInstruction::Transfer { from: *from, to: *to, authority: *authority, amount };
    let program = token_program.to_bytes();
    (answer, Ghost(Record { step: Step::Invoke { instruction: Instruction::TokenProgram { program, instruction }, answer }, signers: signer_seeds }))
}

/// Invokes Token-2022's `TransferChecked` instruction with `pinocchio_token_2022::ID`
/// as the token program
/// (`TransferChecked::invoke_signed`, signed with `signer_seeds`).
/// Claimed: the record holds that program, the accounts and arguments handed over, and the answer returned.
#[verifier::external_body]
pub(crate) fn invoke_token_2022_transfer_checked<'a>(
    from: &AccountView,
    mint: &AccountView,
    to: &AccountView,
    authority: &AccountView,
    amount: u64,
    decimals: u8,
    signer_seeds: &'a [CpiSeed<'a>],
) -> (r: (Result<(), ProgramError>, Ghost<Record<'a>>))
    ensures
        r.1@.signers() == signer_seeds@,
        r.1@.step() == (Step::Invoke {
            instruction: Instruction::TokenProgram {
                program: crate::ids::TOKEN_2022_PROGRAM_ID,
                instruction: TokenInstruction::TransferChecked { from: *from, mint: *mint, to: *to, authority: *authority, amount, decimals },
            },
            answer: r.0,
        }),
{
    let signers = [Signer::from(signer_seeds)];
    let token_program = &pinocchio_token_2022::ID;
    let answer = TransferChecked { from, mint, to, authority, amount, decimals, token_program }.invoke_signed(&signers);
    let instruction = TokenInstruction::TransferChecked { from: *from, mint: *mint, to: *to, authority: *authority, amount, decimals };
    let program = token_program.to_bytes();
    (answer, Ghost(Record { step: Step::Invoke { instruction: Instruction::TokenProgram { program, instruction }, answer }, signers: signer_seeds }))
}

/// Invokes Token-2022's `MintTo` instruction with `pinocchio_token_2022::ID`
/// as the token program
/// (`MintTo::invoke_signed`, signed with `signer_seeds`).
/// Claimed: the record holds that program, the accounts and arguments handed over, and the answer returned.
#[verifier::external_body]
pub(crate) fn invoke_token_2022_mint_to<'a>(
    mint: &AccountView,
    account: &AccountView,
    mint_authority: &AccountView,
    amount: u64,
    signer_seeds: &'a [CpiSeed<'a>],
) -> (r: (Result<(), ProgramError>, Ghost<Record<'a>>))
    ensures
        r.1@.signers() == signer_seeds@,
        r.1@.step() == (Step::Invoke {
            instruction: Instruction::TokenProgram {
                program: crate::ids::TOKEN_2022_PROGRAM_ID,
                instruction: TokenInstruction::MintTo { mint: *mint, account: *account, mint_authority: *mint_authority, amount },
            },
            answer: r.0,
        }),
{
    let signers = [Signer::from(signer_seeds)];
    let token_program = &pinocchio_token_2022::ID;
    let answer = MintTo { mint, account, mint_authority, amount, token_program }.invoke_signed(&signers);
    let instruction = TokenInstruction::MintTo { mint: *mint, account: *account, mint_authority: *mint_authority, amount };
    let program = token_program.to_bytes();
    (answer, Ghost(Record { step: Step::Invoke { instruction: Instruction::TokenProgram { program, instruction }, answer }, signers: signer_seeds }))
}

/// Invokes Token-2022's `MintToChecked` instruction with `pinocchio_token_2022::ID`
/// as the token program
/// (`MintToChecked::invoke_signed`, signed with `signer_seeds`).
/// Claimed: the record holds that program, the accounts and arguments handed over, and the answer returned.
#[verifier::external_body]
pub(crate) fn invoke_token_2022_mint_to_checked<'a>(
    mint: &AccountView,
    account: &AccountView,
    mint_authority: &AccountView,
    amount: u64,
    decimals: u8,
    signer_seeds: &'a [CpiSeed<'a>],
) -> (r: (Result<(), ProgramError>, Ghost<Record<'a>>))
    ensures
        r.1@.signers() == signer_seeds@,
        r.1@.step() == (Step::Invoke {
            instruction: Instruction::TokenProgram {
                program: crate::ids::TOKEN_2022_PROGRAM_ID,
                instruction: TokenInstruction::MintToChecked { mint: *mint, account: *account, mint_authority: *mint_authority, amount, decimals },
            },
            answer: r.0,
        }),
{
    let signers = [Signer::from(signer_seeds)];
    let token_program = &pinocchio_token_2022::ID;
    let answer = MintToChecked { mint, account, mint_authority, amount, decimals, token_program }.invoke_signed(&signers);
    let instruction = TokenInstruction::MintToChecked { mint: *mint, account: *account, mint_authority: *mint_authority, amount, decimals };
    let program = token_program.to_bytes();
    (answer, Ghost(Record { step: Step::Invoke { instruction: Instruction::TokenProgram { program, instruction }, answer }, signers: signer_seeds }))
}

/// Invokes Token-2022's `Burn` instruction with `pinocchio_token_2022::ID`
/// as the token program
/// (`Burn::invoke_signed`, signed with `signer_seeds`).
/// Claimed: the record holds that program, the accounts and arguments handed over, and the answer returned.
#[verifier::external_body]
pub(crate) fn invoke_token_2022_burn<'a>(
    account: &AccountView,
    mint: &AccountView,
    authority: &AccountView,
    amount: u64,
    signer_seeds: &'a [CpiSeed<'a>],
) -> (r: (Result<(), ProgramError>, Ghost<Record<'a>>))
    ensures
        r.1@.signers() == signer_seeds@,
        r.1@.step() == (Step::Invoke {
            instruction: Instruction::TokenProgram {
                program: crate::ids::TOKEN_2022_PROGRAM_ID,
                instruction: TokenInstruction::Burn { account: *account, mint: *mint, authority: *authority, amount },
            },
            answer: r.0,
        }),
{
    let signers = [Signer::from(signer_seeds)];
    let token_program = &pinocchio_token_2022::ID;
    let answer = Burn { account, mint, authority, amount, token_program }.invoke_signed(&signers);
    let instruction = TokenInstruction::Burn { account: *account, mint: *mint, authority: *authority, amount };
    let program = token_program.to_bytes();
    (answer, Ghost(Record { step: Step::Invoke { instruction: Instruction::TokenProgram { program, instruction }, answer }, signers: signer_seeds }))
}

/// Invokes Token-2022's `BurnChecked` instruction with `pinocchio_token_2022::ID`
/// as the token program
/// (`BurnChecked::invoke_signed`, signed with `signer_seeds`).
/// Claimed: the record holds that program, the accounts and arguments handed over, and the answer returned.
#[verifier::external_body]
pub(crate) fn invoke_token_2022_burn_checked<'a>(
    account: &AccountView,
    mint: &AccountView,
    authority: &AccountView,
    amount: u64,
    decimals: u8,
    signer_seeds: &'a [CpiSeed<'a>],
) -> (r: (Result<(), ProgramError>, Ghost<Record<'a>>))
    ensures
        r.1@.signers() == signer_seeds@,
        r.1@.step() == (Step::Invoke {
            instruction: Instruction::TokenProgram {
                program: crate::ids::TOKEN_2022_PROGRAM_ID,
                instruction: TokenInstruction::BurnChecked { account: *account, mint: *mint, authority: *authority, amount, decimals },
            },
            answer: r.0,
        }),
{
    let signers = [Signer::from(signer_seeds)];
    let token_program = &pinocchio_token_2022::ID;
    let answer = BurnChecked { account, mint, authority, amount, decimals, token_program }.invoke_signed(&signers);
    let instruction = TokenInstruction::BurnChecked { account: *account, mint: *mint, authority: *authority, amount, decimals };
    let program = token_program.to_bytes();
    (answer, Ghost(Record { step: Step::Invoke { instruction: Instruction::TokenProgram { program, instruction }, answer }, signers: signer_seeds }))
}

/// Invokes Token-2022's `Approve` instruction with `pinocchio_token_2022::ID`
/// as the token program
/// (`Approve::invoke_signed`, signed with `signer_seeds`).
/// Claimed: the record holds that program, the accounts and arguments handed over, and the answer returned.
#[verifier::external_body]
pub(crate) fn invoke_token_2022_approve<'a>(
    source: &AccountView,
    delegate: &AccountView,
    authority: &AccountView,
    amount: u64,
    signer_seeds: &'a [CpiSeed<'a>],
) -> (r: (Result<(), ProgramError>, Ghost<Record<'a>>))
    ensures
        r.1@.signers() == signer_seeds@,
        r.1@.step() == (Step::Invoke {
            instruction: Instruction::TokenProgram {
                program: crate::ids::TOKEN_2022_PROGRAM_ID,
                instruction: TokenInstruction::Approve { source: *source, delegate: *delegate, authority: *authority, amount },
            },
            answer: r.0,
        }),
{
    let signers = [Signer::from(signer_seeds)];
    let token_program = &pinocchio_token_2022::ID;
    let answer = Approve { source, delegate, authority, amount, token_program }.invoke_signed(&signers);
    let instruction = TokenInstruction::Approve { source: *source, delegate: *delegate, authority: *authority, amount };
    let program = token_program.to_bytes();
    (answer, Ghost(Record { step: Step::Invoke { instruction: Instruction::TokenProgram { program, instruction }, answer }, signers: signer_seeds }))
}

/// Invokes Token-2022's `ApproveChecked` instruction with `pinocchio_token_2022::ID`
/// as the token program
/// (`ApproveChecked::invoke_signed`, signed with `signer_seeds`).
/// Claimed: the record holds that program, the accounts and arguments handed over, and the answer returned.
#[verifier::external_body]
pub(crate) fn invoke_token_2022_approve_checked<'a>(
    source: &AccountView,
    mint: &AccountView,
    delegate: &AccountView,
    authority: &AccountView,
    amount: u64,
    decimals: u8,
    signer_seeds: &'a [CpiSeed<'a>],
) -> (r: (Result<(), ProgramError>, Ghost<Record<'a>>))
    ensures
        r.1@.signers() == signer_seeds@,
        r.1@.step() == (Step::Invoke {
            instruction: Instruction::TokenProgram {
                program: crate::ids::TOKEN_2022_PROGRAM_ID,
                instruction: TokenInstruction::ApproveChecked { source: *source, mint: *mint, delegate: *delegate, authority: *authority, amount, decimals },
            },
            answer: r.0,
        }),
{
    let signers = [Signer::from(signer_seeds)];
    let token_program = &pinocchio_token_2022::ID;
    let answer = ApproveChecked { source, mint, delegate, authority, amount, decimals, token_program }.invoke_signed(&signers);
    let instruction = TokenInstruction::ApproveChecked { source: *source, mint: *mint, delegate: *delegate, authority: *authority, amount, decimals };
    let program = token_program.to_bytes();
    (answer, Ghost(Record { step: Step::Invoke { instruction: Instruction::TokenProgram { program, instruction }, answer }, signers: signer_seeds }))
}

/// Invokes Token-2022's `Revoke` instruction with `pinocchio_token_2022::ID`
/// as the token program
/// (`Revoke::invoke_signed`, signed with `signer_seeds`).
/// Claimed: the record holds that program, the accounts and arguments handed over, and the answer returned.
#[verifier::external_body]
pub(crate) fn invoke_token_2022_revoke<'a>(
    source: &AccountView,
    authority: &AccountView,
    signer_seeds: &'a [CpiSeed<'a>],
) -> (r: (Result<(), ProgramError>, Ghost<Record<'a>>))
    ensures
        r.1@.signers() == signer_seeds@,
        r.1@.step() == (Step::Invoke {
            instruction: Instruction::TokenProgram {
                program: crate::ids::TOKEN_2022_PROGRAM_ID,
                instruction: TokenInstruction::Revoke { source: *source, authority: *authority },
            },
            answer: r.0,
        }),
{
    let signers = [Signer::from(signer_seeds)];
    let token_program = &pinocchio_token_2022::ID;
    let answer = Revoke { source, authority, token_program }.invoke_signed(&signers);
    let instruction = TokenInstruction::Revoke { source: *source, authority: *authority };
    let program = token_program.to_bytes();
    (answer, Ghost(Record { step: Step::Invoke { instruction: Instruction::TokenProgram { program, instruction }, answer }, signers: signer_seeds }))
}

/// Invokes Token-2022's `SetAuthority` instruction with `pinocchio_token_2022::ID`
/// as the token program
/// (`SetAuthority::invoke_signed`, signed with `signer_seeds`).
/// Claimed: the record holds that program, the accounts and arguments handed over, and the answer returned.
#[verifier::external_body]
pub(crate) fn invoke_token_2022_set_authority<'a>(
    account: &AccountView,
    authority: &AccountView,
    authority_type: AuthorityType,
    new_authority: Option<&Address>,
    signer_seeds: &'a [CpiSeed<'a>],
) -> (r: (Result<(), ProgramError>, Ghost<Record<'a>>))
    ensures
        r.1@.signers() == signer_seeds@,
        r.1@.step() == (Step::Invoke {
            instruction: Instruction::TokenProgram {
                program: crate::ids::TOKEN_2022_PROGRAM_ID,
                instruction: TokenInstruction::SetAuthority { account: *account, authority: *authority, authority_type, new_authority: authority_of(new_authority) },
            },
            answer: r.0,
        }),
{
    let signers = [Signer::from(signer_seeds)];
    let token_program = &pinocchio_token_2022::ID;
    let answer = SetAuthority { account, authority, authority_type, new_authority, token_program }.invoke_signed(&signers);
    let instruction = TokenInstruction::SetAuthority { account: *account, authority: *authority, authority_type, new_authority: new_authority.copied() };
    let program = token_program.to_bytes();
    (answer, Ghost(Record { step: Step::Invoke { instruction: Instruction::TokenProgram { program, instruction }, answer }, signers: signer_seeds }))
}

/// Invokes Token-2022's `FreezeAccount` instruction with `pinocchio_token_2022::ID`
/// as the token program
/// (`FreezeAccount::invoke_signed`, signed with `signer_seeds`).
/// Claimed: the record holds that program, the accounts and arguments handed over, and the answer returned.
#[verifier::external_body]
pub(crate) fn invoke_token_2022_freeze_account<'a>(
    account: &AccountView,
    mint: &AccountView,
    freeze_authority: &AccountView,
    signer_seeds: &'a [CpiSeed<'a>],
) -> (r: (Result<(), ProgramError>, Ghost<Record<'a>>))
    ensures
        r.1@.signers() == signer_seeds@,
        r.1@.step() == (Step::Invoke {
            instruction: Instruction::TokenProgram {
                program: crate::ids::TOKEN_2022_PROGRAM_ID,
                instruction: TokenInstruction::FreezeAccount { account: *account, mint: *mint, freeze_authority: *freeze_authority },
            },
            answer: r.0,
        }),
{
    let signers = [Signer::from(signer_seeds)];
    let token_program = &pinocchio_token_2022::ID;
    let answer = FreezeAccount { account, mint, freeze_authority, token_program }.invoke_signed(&signers);
    let instruction = TokenInstruction::FreezeAccount { account: *account, mint: *mint, freeze_authority: *freeze_authority };
    let program = token_program.to_bytes();
    (answer, Ghost(Record { step: Step::Invoke { instruction: Instruction::TokenProgram { program, instruction }, answer }, signers: signer_seeds }))
}

/// Invokes Token-2022's `ThawAccount` instruction with `pinocchio_token_2022::ID`
/// as the token program
/// (`ThawAccount::invoke_signed`, signed with `signer_seeds`).
/// Claimed: the record holds that program, the accounts and arguments handed over, and the answer returned.
#[verifier::external_body]
pub(crate) fn invoke_token_2022_thaw_account<'a>(
    account: &AccountView,
    mint: &AccountView,
    freeze_authority: &AccountView,
    signer_seeds: &'a [CpiSeed<'a>],
) -> (r: (Result<(), ProgramError>, Ghost<Record<'a>>))
    ensures
        r.1@.signers() == signer_seeds@,
        r.1@.step() == (Step::Invoke {
            instruction: Instruction::TokenProgram {
                program: crate::ids::TOKEN_2022_PROGRAM_ID,
                instruction: TokenInstruction::ThawAccount { account: *account, mint: *mint, freeze_authority: *freeze_authority },
            },
            answer: r.0,
        }),
{
    let signers = [Signer::from(signer_seeds)];
    let token_program = &pinocchio_token_2022::ID;
    let answer = ThawAccount { account, mint, freeze_authority, token_program }.invoke_signed(&signers);
    let instruction = TokenInstruction::ThawAccount { account: *account, mint: *mint, freeze_authority: *freeze_authority };
    let program = token_program.to_bytes();
    (answer, Ghost(Record { step: Step::Invoke { instruction: Instruction::TokenProgram { program, instruction }, answer }, signers: signer_seeds }))
}

/// Invokes Token-2022's `CloseAccount` instruction with `pinocchio_token_2022::ID`
/// as the token program
/// (`CloseAccount::invoke_signed`, signed with `signer_seeds`).
/// Claimed: the record holds that program, the accounts and arguments handed over, and the answer returned.
#[verifier::external_body]
pub(crate) fn invoke_token_2022_close_account<'a>(
    account: &AccountView,
    destination: &AccountView,
    authority: &AccountView,
    signer_seeds: &'a [CpiSeed<'a>],
) -> (r: (Result<(), ProgramError>, Ghost<Record<'a>>))
    ensures
        r.1@.signers() == signer_seeds@,
        r.1@.step() == (Step::Invoke {
            instruction: Instruction::TokenProgram {
                program: crate::ids::TOKEN_2022_PROGRAM_ID,
                instruction: TokenInstruction::CloseAccount { account: *account, destination: *destination, authority: *authority },
            },
            answer: r.0,
        }),
{
    let signers = [Signer::from(signer_seeds)];
    let token_program = &pinocchio_token_2022::ID;
    let answer = CloseAccount { account, destination, authority, token_program }.invoke_signed(&signers);
    let instruction = TokenInstruction::CloseAccount { account: *account, destination: *destination, authority: *authority };
    let program = token_program.to_bytes();
    (answer, Ghost(Record { step: Step::Invoke { instruction: Instruction::TokenProgram { program, instruction }, answer }, signers: signer_seeds }))
}

/// Invokes Token-2022's `SyncNative` instruction with `pinocchio_token_2022::ID`
/// as the token program
/// (`SyncNative::invoke`). Claimed: the record holds that
/// program, the accounts and arguments handed over, and the answer returned.
#[verifier::external_body]
pub(crate) fn invoke_token_2022_sync_native<'a>(
    native_token: &AccountView,
) -> (r: (Result<(), ProgramError>, Ghost<Record<'a>>))
    ensures
        r.1@.signers() == Seq::<CpiSeed<'a>>::empty(),
        r.1@.step() == (Step::Invoke {
            instruction: Instruction::TokenProgram {
                program: crate::ids::TOKEN_2022_PROGRAM_ID,
                instruction: TokenInstruction::SyncNative { native_token: *native_token },
            },
            answer: r.0,
        }),
{
    let token_program = &pinocchio_token_2022::ID;
    let answer = SyncNative { native_token, token_program }.invoke();
    let instruction = TokenInstruction::SyncNative { native_token: *native_token };
    let program = token_program.to_bytes();
    (answer, Ghost(Record { step: Step::Invoke { instruction: Instruction::TokenProgram { program, instruction }, answer }, signers: &[] }))
}

/// Invokes Token-2022's `InitializeImmutableOwner` instruction with `pinocchio_token_2022::ID`
/// as the token program
/// (`InitializeImmutableOwner::invoke`). Claimed: the record holds that
/// program, the accounts and arguments handed over, and the answer returned.
#[verifier::external_body]
pub(crate) fn invoke_token_2022_init_immutable_owner<'a>(
    account: &AccountView,
) -> (r: (Result<(), ProgramError>, Ghost<Record<'a>>))
    ensures
        r.1@.signers() == Seq::<CpiSeed<'a>>::empty(),
        r.1@.step() == (Step::Invoke {
            instruction: Instruction::TokenProgram {
                program: crate::ids::TOKEN_2022_PROGRAM_ID,
                instruction: TokenInstruction::InitializeImmutableOwner { account: *account },
            },
            answer: r.0,
        }),
{
    let token_program = &pinocchio_token_2022::ID;
    let answer = InitializeImmutableOwner { account, token_program }.invoke();
    let instruction = TokenInstruction::InitializeImmutableOwner { account: *account };
    let program = token_program.to_bytes();
    (answer, Ghost(Record { step: Step::Invoke { instruction: Instruction::TokenProgram { program, instruction }, answer }, signers: &[] }))
}

} // verus!
