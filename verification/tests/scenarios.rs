use user_registration::check_age;
use user_registration::check_email;
use user_registration::create_user;
use user_registration::get_fullname;
use user_registration::grant_user;
use user_registration::verify_email;
use user_registration::Email;
use user_registration::UnverifiedEmail;
use user_registration::UserEmail;

fn email_content(email: &UserEmail) -> &str {
    match email {
        UserEmail::VerifiedEmail(v) => &v.0 .0,
        UserEmail::UnverifiedEmail(u) => &u.0 .0,
    }
}

fn is_verified(email: &UserEmail) -> bool {
    matches!(email, UserEmail::VerifiedEmail(_))
}

#[test]
fn full_flow_verified_user() {
    let user = create_user(
        "foo@ok.com".to_string(),
        22,
        "Luca".to_string(),
        "Rossi".to_string(),
        None,
    );
    assert!(user.is_ok());
    let mut user = user.unwrap();

    assert_eq!(get_fullname(&user), "Luca Rossi");
    assert!(!is_verified(&user.email));

    assert!(grant_user(&mut user).is_ok());
    assert!(is_verified(&user.email));
    assert_eq!(email_content(&user.email), "foo@ok.com");
}

#[test]
fn failed_grant_leaves_email_unverified() {
    let mut user = create_user(
        "foo@unverified.com".to_string(),
        22,
        "Luca".to_string(),
        "Rossi".to_string(),
        None,
    )
    .unwrap();

    let result = grant_user(&mut user);
    assert!(result.is_err());
    assert_eq!(result.unwrap_err().message(), "Email has not been verified yet");
    assert!(!is_verified(&user.email));
    assert_eq!(email_content(&user.email), "foo@unverified.com");
}

#[test]
fn grant_twice_is_idempotent() {
    let mut user = create_user(
        "foo@ok.com".to_string(),
        22,
        "Luca".to_string(),
        "Rossi".to_string(),
        None,
    )
    .unwrap();

    assert!(grant_user(&mut user).is_ok());
    assert!(is_verified(&user.email));

    assert!(grant_user(&mut user).is_ok());
    assert!(is_verified(&user.email));
    assert_eq!(email_content(&user.email), "foo@ok.com");
    assert_eq!(user.name, "Luca");
    assert_eq!(user.surname, "Rossi");
    assert!(user.middle_name.is_none());
    assert_eq!(user.age.0, 22);
}

#[test]
fn fullname_with_middle_name() {
    let user = create_user(
        "foo@ok.com".to_string(),
        22,
        "Luca".to_string(),
        "Rossi".to_string(),
        Some("Maria".to_string()),
    )
    .unwrap();

    assert_eq!(get_fullname(&user), "Luca Maria Rossi");
}

#[test]
fn age_validator_boundaries() {
    assert_eq!(check_age(-1).unwrap_err().message(), "Age cannot be negative");
    assert_eq!(
        check_age(0).unwrap_err().message(),
        "Sorry but this service is unavailable for minor of 13 years old",
    );
    assert_eq!(
        check_age(12).unwrap_err().message(),
        "Sorry but this service is unavailable for minor of 13 years old",
    );
    assert_eq!(check_age(13).unwrap().0, 13);
    assert_eq!(check_age(120).unwrap().0, 120);
    assert_eq!(check_age(121).unwrap_err().message(), "I don't think you can be immortal");
}

#[test]
fn underage_user_reported_by_create_user() {
    let user = create_user(
        "fo@ok.com".to_string(),
        10,
        "Luca".to_string(),
        "Rossi".to_string(),
        None,
    );
    assert!(user.is_err());
    assert_eq!(
        user.unwrap_err().message(),
        "Sorry but this service is unavailable for minor of 13 years old",
    );
}

#[test]
fn age_error_takes_precedence_over_email_error() {
    let user = create_user(
        "not an email".to_string(),
        -3,
        "Luca".to_string(),
        "Rossi".to_string(),
        None,
    );
    assert_eq!(user.unwrap_err().message(), "Age cannot be negative");
}

#[test]
fn email_syntax_accepts_valid_addresses() {
    for raw in [
        "a@b.c",
        "foo@ok.com",
        "first.last@sub.domain.org",
        "under_score@host.net",
        "digits123@4.2.tld",
        "x@..com",
    ] {
        let result = check_email(raw.to_string());
        let email = result.unwrap_or_else(|_| panic!("rejected {raw}"));
        assert_eq!(email.0, raw);
    }
}

#[test]
fn email_syntax_rejects_invalid_addresses() {
    for raw in [
        "",
        "foo.at.com",
        "@b.com",
        "a@b",
        "a@.com",
        "a@b.com.",
        "a b@c.com",
        "a@b c.com",
        "a@@b.com",
        "a@b.c!",
        "foo@ok",
    ] {
        let result = check_email(raw.to_string());
        let error = result.expect_err(raw);
        assert_eq!(error.message(), "Invalid email");
    }
}

#[test]
fn verify_email_checks_content() {
    let accepted = UnverifiedEmail(Email("broker@ok.com".to_string()));
    let verified = verify_email(&accepted).unwrap();
    assert_eq!(verified.0 .0, "broker@ok.com");

    let rejected = UnverifiedEmail(Email("foo@unverified.com".to_string()));
    let error = verify_email(&rejected).unwrap_err();
    assert_eq!(error.message(), "Email has not been verified yet");
}
