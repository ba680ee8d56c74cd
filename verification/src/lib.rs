//! A minimal user-registration validation flow: raw inputs are checked by
//! pure validators, a `User` record is built with its email in the
//! `Unverified` state, and a grant operation may promote the email to
//! `Verified`. Validation state is encoded in the data model rather than in
//! boolean flags, and every operation carries a contract that pins down its
//! result.

pub mod age;
pub mod email;
pub mod errors;
pub mod user;

pub use age::check_age;
pub use age::Age;
pub use email::check_email;
pub use email::verify_email;
pub use email::Email;
pub use email::UnverifiedEmail;
pub use email::VerifiedEmail;
pub use errors::ValidationError;
pub use errors::VerificationError;
pub use user::create_user;
pub use user::get_fullname;
pub use user::grant_user;
pub use user::User;
pub use user::UserEmail;
