//! The age validator. An `Age` is a validated integer in the inclusive range
//! thirteen to one hundred and twenty, and is only ever produced by
//! `check_age`.

use vstd::prelude::*;

use crate::errors::ValidationError;

verus! {

/// A validated age. Produced only by `check_age`, which guarantees that the
/// wrapped value lies in the accepted range.
#[derive(Debug, Clone, Copy, PartialEq, Eq, Structural)]
pub struct Age(pub i32);

impl Age {
    /// The wrapped value lies in the accepted range.
    pub open spec fn valid(self) -> bool {
        13 <= self.0 <= 120
    }
}

/// Validate a raw age. The checks run in this order: a negative value is
/// reported as `NegativeAge` (never as `UnderageUser`), a value below
/// thirteen as `UnderageUser`, a value above one hundred and twenty as
/// `ImplausibleAge`; any other value is accepted unchanged.
pub fn check_age(age: i32) -> (r: Result<Age, ValidationError>)
    ensures
        age < 0 ==> r == Err::<Age, ValidationError>(ValidationError::NegativeAge),
        0 <= age < 13 ==> r == Err::<Age, ValidationError>(ValidationError::UnderageUser),
        age > 120 ==> r == Err::<Age, ValidationError>(ValidationError::ImplausibleAge),
        13 <= age <= 120 ==> r == Ok::<Age, ValidationError>(Age(age)),
{
    if age < 0 {
        Err(ValidationError::NegativeAge)
    } else if age < 13 {
        Err(ValidationError::UnderageUser)
    } else if age > 120 {
        Err(ValidationError::ImplausibleAge)
    } else {
        Ok(Age(age))
    }
}

} // verus!
