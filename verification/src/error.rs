//! The error type of the library.

use vstd::prelude::*;

verus! {

/// Errors reported by the runtime and by the programs this library invokes.
#[verifier::external_type_specification]
#[verifier::external_body]
pub struct ExProgramError(pinocchio::error::ProgramError);

/// Errors returned by the helpers of this crate.
///
/// The unit variants are raised by the checks of this crate itself; the
/// `Program` variant carries an error reported by the runtime or by an
/// invoked program unchanged.
#[derive(Debug, PartialEq, Eq)]
pub enum UtilError {
    InvalidArgument,
    InvalidInstructionData,
    InvalidAccountData,
    InvalidAccountOwner,
    InvalidSeeds,
    ArithmeticOverflow,
    Program(pinocchio::error::ProgramError),
}

/// Lifts the result of a runtime or program call into the error type of
/// this crate, keeping the reported error unchanged.
pub fn from_program_result(r: Result<(), pinocchio::error::ProgramError>) -> (out: Result<(), UtilError>)
    ensures
        out == (match r {
            Ok(()) => Ok(()),
            Err(e) => Err(UtilError::Program(e)),
        }),
{
    match r {
        Ok(()) => Ok(()),
        Err(e) => Err(UtilError::Program(e)),
    }
}

} // verus!
