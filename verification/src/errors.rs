//! The closed error taxonomy of the registration flow. Every failure of a
//! validator or of the verification step is one of these kinds; each carries
//! a fixed human-readable message available through `message`.

use vstd::prelude::*;

verus! {

/// A failure of one of the input validators.
#[derive(Debug, Clone, Copy, PartialEq, Eq)]
pub enum ValidationError {
    /// The age was below zero.
    NegativeAge,
    /// The age was between zero and twelve, inclusive.
    UnderageUser,
    /// The age was above one hundred and twenty.
    ImplausibleAge,
    /// The email did not match the accepted syntactic pattern.
    InvalidEmailFormat,
}

/// A failure of the email verification step.
#[derive(Debug, Clone, Copy, PartialEq, Eq)]
pub enum VerificationError {
    /// The verification policy did not accept the email.
    NotYetVerified,
}

impl ValidationError {
    /// The human-readable message of this error kind.
    pub open spec fn message_spec(self) -> Seq<char> {
        match self {
            ValidationError::NegativeAge => "Age cannot be negative"@,
            ValidationError::UnderageUser => "Sorry but this service is unavailable for minor of 13 years old"@,
            ValidationError::ImplausibleAge => "I don't think you can be immortal"@,
            ValidationError::InvalidEmailFormat => "Invalid email"@,
        }
    }

    /// Render the human-readable message of this error kind.
    pub fn message(&self) -> (r: String)
        ensures
            r@ == self.message_spec(),
    {
        match self {
            ValidationError::NegativeAge => String::from_str("Age cannot be negative"),
            ValidationError::UnderageUser => String::from_str(
                "Sorry but this service is unavailable for minor of 13 years old",
            ),
            ValidationError::ImplausibleAge => String::from_str("I don't think you can be immortal"),
            ValidationError::InvalidEmailFormat => String::from_str("Invalid email"),
        }
    }
}

impl VerificationError {
    /// The human-readable message of this error kind.
    pub open spec fn message_spec(self) -> Seq<char> {
        match self {
            VerificationError::NotYetVerified => "Email has not been verified yet"@,
        }
    }

    /// Render the human-readable message of this error kind.
    pub fn message(&self) -> (r: String)
        ensures
            r@ == self.message_spec(),
    {
        match self {
            VerificationError::NotYetVerified => String::from_str("Email has not been verified yet"),
        }
    }
}

} // verus!
