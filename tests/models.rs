use credential_core::error::{AuthError, InputProblem};
use credential_core::models::{insert_failure, NewUser, UpdateProfile};

fn new_user(username: &str, email: &str, password: &str) -> NewUser {
    NewUser { username: username.to_string(), email: email.to_string(), password: password.to_string() }
}

fn refused(p: InputProblem) -> Result<(), AuthError> {
    Err(AuthError::InvalidInput(p))
}

#[test]
fn valid_registration_accepted() {
    assert_eq!(new_user("alice", "alice@example.com", "hunter22").validate(), Ok(()));
    assert_eq!(new_user("bob", "b@x.io", "12345").validate(), Ok(()));
}

#[test]
fn short_username_refused_first() {
    assert_eq!(new_user("al", "not-an-email", "x").validate(), refused(InputProblem::UsernameTooShort));
    assert_eq!(new_user("", "alice@example.com", "hunter22").validate(), refused(InputProblem::UsernameTooShort));
}

#[test]
fn username_length_counts_characters() {
    assert_eq!(new_user("éé", "alice@example.com", "hunter22").validate(), refused(InputProblem::UsernameTooShort));
    assert_eq!(new_user("ééé", "alice@example.com", "hunter22").validate(), Ok(()));
}

#[test]
fn bad_email_refused() {
    assert_eq!(new_user("alice", "alice.example.com", "x").validate(), refused(InputProblem::InvalidEmail));
    assert_eq!(new_user("alice", "", "hunter22").validate(), refused(InputProblem::InvalidEmail));
}

#[test]
fn short_password_refused() {
    assert_eq!(new_user("alice", "alice@example.com", "1234").validate(), refused(InputProblem::PasswordTooShort));
}

#[test]
fn profile_image_must_be_url() {
    let ok = UpdateProfile { full_name: Some("Alice".to_string()), bio: None, image: Some("https://example.com/a.png".to_string()) };
    assert_eq!(ok.validate(), Ok(()));
    let none = UpdateProfile { full_name: None, bio: None, image: None };
    assert_eq!(none.validate(), Ok(()));
    let bad = UpdateProfile { full_name: None, bio: None, image: Some("not a url".to_string()) };
    assert_eq!(bad.validate(), refused(InputProblem::InvalidImageUrl));
}

#[test]
fn insert_failures_classified() {
    let unique = "23505".to_string();
    let email = "email".to_string();
    let username = "username".to_string();
    let other = "bio".to_string();
    assert_eq!(insert_failure(&unique, Some(&email)), AuthError::InvalidInput(InputProblem::EmailTaken));
    assert_eq!(insert_failure(&unique, Some(&username)), AuthError::InvalidInput(InputProblem::UsernameTaken));
    assert_eq!(insert_failure(&unique, None), AuthError::InvalidInput(InputProblem::UsernameOrEmailTaken));
    assert_eq!(insert_failure(&unique, Some(&other)), AuthError::InternalError);
    assert_eq!(insert_failure(&"23503".to_string(), Some(&email)), AuthError::InternalError);
    assert_eq!(insert_failure(&"".to_string(), None), AuthError::InternalError);
}
