//! The user record and its lifecycle: construction from raw inputs after
//! all validators succeed, the grant operation that may promote the email
//! from `Unverified` to `Verified`, and the full-name presentation.

use vstd::prelude::*;

use crate::age::check_age;
use crate::age::Age;
use crate::email::check_email;
use crate::email::contains_ok;
use crate::email::email_wf;
use crate::email::verify_email;
use crate::email::Email;
use crate::email::UnverifiedEmail;
use crate::email::VerifiedEmail;
use crate::errors::ValidationError;
use crate::errors::VerificationError;

verus! {

/// An email together with its verification state. The two variants wrap the
/// same kind of underlying address but carry distinct tags, so that code
/// requiring a verified email cannot be handed an unverified one. The only
/// transition is from `UnverifiedEmail` to `VerifiedEmail`.
#[derive(Debug)]
pub enum UserEmail {
    VerifiedEmail(VerifiedEmail),
    UnverifiedEmail(UnverifiedEmail),
}

impl UserEmail {
    /// The text of the wrapped address, regardless of its state.
    pub open spec fn content(self) -> Seq<char> {
        match self {
            UserEmail::VerifiedEmail(v) => v@,
            UserEmail::UnverifiedEmail(u) => u@,
        }
    }

    /// Whether the address is in the verified state.
    pub open spec fn is_verified(self) -> bool {
        self is VerifiedEmail
    }
}

/// The mathematical model of a `User`: its name fields and age as plain
/// values, the text of its email, and the email's verification state.
pub struct UserView {
    pub name: Seq<char>,
    pub middle_name: Option<Seq<char>>,
    pub surname: Seq<char>,
    pub age: int,
    pub email: Seq<char>,
    pub verified: bool,
}

/// A registered user. Constructed only after every validator succeeds, with
/// the email in the `Unverified` state; the grant operation is the only
/// mutation permitted afterwards.
#[derive(Debug)]
pub struct User {
    pub name: String,
    pub middle_name: Option<String>,
    pub surname: String,
    pub age: Age,
    pub email: UserEmail,
}

impl View for User {
    type V = UserView;

    open spec fn view(&self) -> UserView {
        UserView {
            name: self.name@,
            middle_name: self.middle_name.deep_view(),
            surname: self.surname@,
            age: self.age.0 as int,
            email: self.email.content(),
            verified: self.email.is_verified(),
        }
    }
}

impl User {
    /// A well-formed user: the age lies in the accepted range and the email
    /// text matches the accepted pattern. Construction establishes this and
    /// the grant operation preserves it.
    pub open spec fn wf(self) -> bool {
        self.age.valid() && email_wf(self@.email)
    }

    /// Assemble a user from already-validated parts. The email always
    /// starts in the `Unverified` state.
    pub fn new(
        name: String,
        middle_name: Option<String>,
        surname: String,
        age: Age,
        email: Email,
    ) -> (u: Self)
        ensures
            u@ == (UserView {
                name: name@,
                middle_name: middle_name.deep_view(),
                surname: surname@,
                age: age.0 as int,
                email: email@,
                verified: false,
            }),
    {
        Self {
            name,
            middle_name,
            surname,
            age,
            email: UserEmail::UnverifiedEmail(UnverifiedEmail(email)),
        }
    }
}

/// Whether the grant operation succeeds on a user in state `u`: either the
/// email is already verified, or the verification policy accepts its text.
pub open spec fn grant_ok(u: UserView) -> bool {
    u.verified || contains_ok(u.email)
}

/// The state of a user after the grant operation: verified when the
/// operation succeeds, unchanged in every other field and unchanged
/// entirely when it fails.
pub open spec fn grant_result(u: UserView) -> UserView {
    if grant_ok(u) {
        UserView { verified: true, ..u }
    } else {
        u
    }
}

/// Granting a second time changes nothing: once a grant has succeeded the
/// user's email is verified, and a grant on a verified email is a no-op
/// success.
pub proof fn lemma_grant_idempotent(u: UserView)
    requires
        grant_ok(u),
    ensures
        grant_ok(grant_result(u)),
        grant_result(grant_result(u)) == grant_result(u),
{
}

/// Build a user from raw inputs. The age is validated first, then the
/// email syntax, short-circuiting on the first failure, so that a bad age
/// is reported even when the email is also bad. On success the user holds
/// the inputs verbatim — name, surname and middle name are stored without
/// any validation — and its email starts in the `Unverified` state.
pub fn create_user(
    email: String,
    age: i32,
    name: String,
    surname: String,
    middle_name: Option<String>,
) -> (r: Result<User, ValidationError>)
    ensures
        age < 0 ==> r == Err::<User, ValidationError>(ValidationError::NegativeAge),
        0 <= age < 13 ==> r == Err::<User, ValidationError>(ValidationError::UnderageUser),
        age > 120 ==> r == Err::<User, ValidationError>(ValidationError::ImplausibleAge),
        13 <= age <= 120 && !email_wf(email@) ==> r == Err::<User, ValidationError>(
            ValidationError::InvalidEmailFormat,
        ),
        13 <= age <= 120 && email_wf(email@) ==> (r matches Ok(u) && u@ == (UserView {
            name: name@,
            middle_name: middle_name.deep_view(),
            surname: surname@,
            age: age as int,
            email: email@,
            verified: false,
        }) && u.wf()),
{
    let checked_age = match check_age(age) {
        Ok(a) => a,
        Err(e) => {
            return Err(e);
        },
    };
    let checked_email = match check_email(email) {
        Ok(e) => e,
        Err(e) => {
            return Err(e);
        },
    };
    Ok(User::new(name, middle_name, surname, checked_age, checked_email))
}

/// Attempt to verify a user's email in place. A user whose email is already
/// verified is left unchanged and the call succeeds (the operation is
/// idempotent). Otherwise the verification policy runs on the email's
/// text: on acceptance the email is replaced by its `Verified` variant —
/// the only permitted mutation of a constructed user — and on rejection the
/// error is returned and the user is left unchanged.
pub fn grant_user(user: &mut User) -> (r: Result<(), VerificationError>)
    ensures
        final(user)@ == grant_result(old(user)@),
        r == (if grant_ok(old(user)@) {
            Ok::<(), VerificationError>(())
        } else {
            Err::<(), VerificationError>(VerificationError::NotYetVerified)
        }),
{
    if let UserEmail::UnverifiedEmail(unverified_email) = &user.email {
        match verify_email(unverified_email) {
            Ok(verified_email) => {
                user.email = UserEmail::VerifiedEmail(verified_email);
                Ok(())
            },
            Err(e) => Err(e),
        }
    } else {
        Ok(())
    }
}

/// The display-ready full name of a user in state `u`: the name, the middle
/// name when present, and the surname, joined by single spaces.
pub open spec fn fullname_of(u: UserView) -> Seq<char> {
    match u.middle_name {
        Some(m) => u.name + " "@ + m + " "@ + u.surname,
        None => u.name + " "@ + u.surname,
    }
}

/// Compute the display-ready full name: `name`, then `middle_name` when
/// present, then `surname`, joined by single spaces, with no extra space
/// when the middle name is absent.
pub fn get_fullname(user: &User) -> (r: String)
    ensures
        r@ == fullname_of(user@),
{
    let mut full = user.name.clone();
    full.append(" ");
    match &user.middle_name {
        Some(middle) => {
            full.append(middle.as_str());
            full.append(" ");
        },
        None => {},
    }
    full.append(user.surname.as_str());
    full
}

} // verus!
