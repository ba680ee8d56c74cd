use user_registration::create_user;
use user_registration::grant_user;
use user_registration::UserEmail;

#[test]
fn ok_create_user() {
    let input_email = "foo@ok.com".to_string();
    let input_age = 22;
    let name = "Luca".to_string();
    let surname = "Rossi".to_string();
    let middle_name: Option<String> = None;

    let user = create_user(input_email, input_age, name, surname, middle_name);
    assert!(user.is_ok());
    let mut user = user.unwrap();
    let result = grant_user(&mut user);
    assert!(result.is_ok());

    assert_eq!(user.name, "Luca".to_string());
    assert_eq!(user.surname, "Rossi".to_string());
    assert!(user.middle_name.is_none());
    assert_eq!(user.age.0, 22);

    let is_verified_email = match user.email {
        UserEmail::VerifiedEmail(_) => true,
        UserEmail::UnverifiedEmail(_) => false,
    };
    assert!(is_verified_email);
}

#[test]
fn ok_create_user_unverified() {
    let input_email = "foo@unverified.com".to_string();
    let input_age = 22;
    let name = "Luca".to_string();
    let surname = "Rossi".to_string();
    let middle_name: Option<String> = None;

    let user = create_user(input_email, input_age, name, surname, middle_name);
    let mut user = user.unwrap();
    let result = grant_user(&mut user);

    assert!(result.is_err());
    let error = result.unwrap_err();
    assert_eq!(error.message(), "Email has not been verified yet");

    let is_unverified_email = match user.email {
        UserEmail::VerifiedEmail(_) => false,
        UserEmail::UnverifiedEmail(_) => true,
    };
    assert!(is_unverified_email);
}

#[test]
fn err_invalid_email() {
    let input_email = "foo.at.com".to_string();
    let input_age = 22;
    let name = "Luca".to_string();
    let surname = "Rossi".to_string();
    let middle_name: Option<String> = None;

    let user = create_user(input_email, input_age, name, surname, middle_name);

    assert!(user.is_err());
    let error = user.unwrap_err();
    assert_eq!(error.message(), "Invalid email");
}

#[test]
fn err_invalid_age_negative() {
    let input_email = "fo@ok.com".to_string();
    let input_age = -100;
    let name = "Luca".to_string();
    let surname = "Rossi".to_string();
    let middle_name: Option<String> = None;

    let user = create_user(input_email, input_age, name, surname, middle_name);

    assert!(user.is_err());
    let error = user.unwrap_err();
    assert_eq!(error.message(), "Age cannot be negative");
}

#[test]
fn err_invalid_age_immortal() {
    let input_email = "fo@ok.com".to_string();
    let input_age = 130;
    let name = "Luca".to_string();
    let surname = "Rossi".to_string();
    let middle_name: Option<String> = None;

    let user = create_user(input_email, input_age, name, surname, middle_name);

    assert!(user.is_err());
    let error = user.unwrap_err();
    assert_eq!(error.message(), "I don't think you can be immortal");
}
