use vstd::prelude::*;

use crate::error::{AuthError, InputProblem};

verus! {

/// The fewest characters a username may have.
pub const MIN_USERNAME_CHARS: u64 = 3;

/// The fewest characters a password may have.
pub const MIN_PASSWORD_CHARS: u64 = 5;

/// The code the database reports for a violated uniqueness constraint.
pub const UNIQUE_VIOLATION_CODE: &'static str = "23505";

/// Whether validator's `validate_email` accepts `s` as an email address.
pub uninterp spec fn email_accepted(s: Seq<char>) -> bool;

/// Whether validator's `validate_url` (a parse by the url crate) accepts `s`.
pub uninterp spec fn url_accepted(s: Seq<char>) -> bool;

/// Relies on validator's `validate_length` with a lower bound only: it counts the
/// characters of the string and compares the count with the bound.
#[verifier::external_body]
fn length_at_least(s: &String, min: u64) -> (r: bool)
    ensures
        r == (s@.len() >= min),
{
    validator::validate_length(s, Some(min), None, None)
}

/// Relies on validator's `validate_email`; a string without an `@` is refused.
#[verifier::external_body]
fn email_is_valid(s: &String) -> (r: bool)
    ensures
        r == email_accepted(s@),
        !s@.contains('@') ==> !r,
{
    validator::validate_email(s.as_str())
}

/// Relies on validator's `validate_url`.
#[verifier::external_body]
fn url_is_valid(s: &String) -> (r: bool)
    ensures
        r == url_accepted(s@),
{
    validator::validate_url(s.as_str())
}

/// A stored account, as the storage collaborator hands it over. Timestamps are
/// seconds since the Unix epoch; the identifier is the 128-bit value of a UUID.
#[derive(Debug, Clone)]
pub struct User {
    pub id: u128,
    pub username: String,
    pub email: String,
    pub password_hash: String,
    pub full_name: Option<String>,
    pub bio: Option<String>,
    pub created_at: i64,
    pub updated_at: i64,
}

/// A registration request.
#[derive(Debug, Clone)]
pub struct NewUser {
    pub username: String,
    pub email: String,
    pub password: String,
}

/// A request to change the profile fields of an account.
#[derive(Debug, Clone)]
pub struct UpdateProfile {
    pub full_name: Option<String>,
    pub bio: Option<String>,
    pub image: Option<String>,
}

/// Where the service listens and where its database lives.
#[derive(Debug, Clone)]
pub struct Config {
    pub host: String,
    pub port: i32,
    pub database_url: String,
}

/// The first problem with a registration request, checked in the order username,
/// email, password; `None` when it is acceptable.
pub open spec fn new_user_problem(username: Seq<char>, email: Seq<char>, password: Seq<char>) -> Option<InputProblem> {
    if username.len() < MIN_USERNAME_CHARS {
        Some(InputProblem::UsernameTooShort)
    } else if !email_accepted(email) {
        Some(InputProblem::InvalidEmail)
    } else if password.len() < MIN_PASSWORD_CHARS {
        Some(InputProblem::PasswordTooShort)
    } else {
        None
    }
}

/// The error for a refused input, if any.
pub open spec fn refusal(p: Option<InputProblem>) -> Result<(), AuthError> {
    match p {
        Some(p) => Err(AuthError::InvalidInput(p)),
        None => Ok(()),
    }
}

impl NewUser {
    /// Checks the request: a username of at least three characters, a valid email
    /// address, a password of at least five characters.
    pub fn validate(&self) -> (r: Result<(), AuthError>)
        ensures
            r == refusal(new_user_problem(self.username@, self.email@, self.password@)),
    {
        if !length_at_least(&self.username, MIN_USERNAME_CHARS) {
            Err(AuthError::InvalidInput(InputProblem::UsernameTooShort))
        } else if !email_is_valid(&self.email) {
            Err(AuthError::InvalidInput(InputProblem::InvalidEmail))
        } else if !length_at_least(&self.password, MIN_PASSWORD_CHARS) {
            Err(AuthError::InvalidInput(InputProblem::PasswordTooShort))
        } else {
            Ok(())
        }
    }
}

impl UpdateProfile {
    /// Checks the request: the image, when given, must be a valid URL.
    pub fn validate(&self) -> (r: Result<(), AuthError>)
        ensures
            r == (match self.image {
                Some(i) => if url_accepted(i@) {
                    Ok(())
                } else {
                    Err(AuthError::InvalidInput(InputProblem::InvalidImageUrl))
                },
                None => Ok(()),
            }),
    {
        match &self.image {
            Some(i) => if url_is_valid(i) {
                Ok(())
            } else {
                Err(AuthError::InvalidInput(InputProblem::InvalidImageUrl))
            },
            None => Ok(()),
        }
    }
}

/// The error reported when storing a new account failed with the database error
/// `code`, which named the constraint's `column` if any.
pub open spec fn insert_failure_spec(code: Seq<char>, column: Option<Seq<char>>) -> AuthError {
    if code != UNIQUE_VIOLATION_CODE@ {
        AuthError::InternalError
    } else {
        match column {
            None => AuthError::InvalidInput(InputProblem::UsernameOrEmailTaken),
            Some(c) => if c == "email"@ {
                AuthError::InvalidInput(InputProblem::EmailTaken)
            } else if c == "username"@ {
                AuthError::InvalidInput(InputProblem::UsernameTaken)
            } else {
                AuthError::InternalError
            },
        }
    }
}

/// Maps a database failure on inserting an account to the error the caller sees:
/// a clash on the email or the username is the caller's input problem, anything
/// else is an internal fault.
pub fn insert_failure(code: &String, column: Option<&String>) -> (r: AuthError)
    ensures
        r == insert_failure_spec(code@, match column { Some(c) => Some(c@), None => None }),
{
    let unique = UNIQUE_VIOLATION_CODE.to_owned();
    if *code != unique {
        return AuthError::InternalError;
    }
    match column {
        None => AuthError::InvalidInput(InputProblem::UsernameOrEmailTaken),
        Some(c) => {
            let email = "email".to_owned();
            let username = "username".to_owned();
            if *c == email {
                AuthError::InvalidInput(InputProblem::EmailTaken)
            } else if *c == username {
                AuthError::InvalidInput(InputProblem::UsernameTaken)
            } else {
                AuthError::InternalError
            }
        },
    }
}

} // verus!
