//! Sysvar helpers for loading optional runtime sysvars in a uniform way.

use vstd::prelude::*;
use pinocchio::sysvars::rent::Rent;

use crate::cpi::{load_rent, Record, Step};
use crate::error::UtilError;

verus! {

/// The rent sysvar.
#[verifier::external_type_specification]
#[verifier::external_body]
pub struct ExRent(pinocchio::sysvars::rent::Rent);

/// Returns the rent sysvar from an optional borrowed value, or loads it from
/// the runtime when not provided.
///
/// This returns an owned value: it copies from a provided reference when
/// present, or loads the sysvar when absent. The record lists the load,
/// when there is one.
pub fn get_sysvar<'a>(sysvar: Option<&Rent>) -> (r: (Result<Rent, UtilError>, Ghost<Seq<Record<'a>>>))
    ensures
        match sysvar {
            Some(rent) => r.0 == Ok::<Rent, UtilError>(*rent) && r.1@.len() == 0,
            None => r.1@.len() == 1 && (r.1@[0].step() matches Step::LoadRent { answer } && r.0 == match answer {
                Ok(rent) => Ok::<Rent, UtilError>(rent),
                Err(e) => Err(UtilError::Program(e)),
            }),
        },
{
    match sysvar {
        Some(sysvar) => (Ok(*sysvar), Ghost(Seq::empty())),
        None => {
            let (answer, load) = load_rent();
            let r = match answer {
                Ok(rent) => Ok(rent),
                Err(e) => Err(UtilError::Program(e)),
            };
            (r, Ghost(Seq::empty().push(load@)))
        },
    }
}

} // verus!
