use vstd::prelude::*;

verus! {

/// Why a piece of user input was refused.
#[derive(Debug, Clone, Copy, PartialEq, Eq, Structural)]
pub enum InputProblem {
    /// The username has fewer than the required number of characters.
    UsernameTooShort,
    /// The email address is not a valid address.
    InvalidEmail,
    /// The password has fewer than the required number of characters.
    PasswordTooShort,
    /// The profile image is not a valid URL.
    InvalidImageUrl,
    /// Another account already uses this email address.
    EmailTaken,
    /// Another account already uses this username.
    UsernameTaken,
    /// Another account already uses this username or email address.
    UsernameOrEmailTaken,
}

/// The failures of authentication and account handling.
#[derive(Debug, Clone, Copy, PartialEq, Eq, Structural)]
pub enum AuthError {
    /// The username / password pair is wrong; which factor is never said.
    InvalidCredentials,
    /// The token is malformed, unsigned, tampered with, or expired.
    TokenError,
    /// The token is valid but its account no longer exists.
    NotAuthorized,
    /// The password hashing algorithm failed.
    HashingError,
    /// An unexpected fault in a collaborator or in the stored data.
    InternalError,
    /// The request carried input that was refused.
    InvalidInput(InputProblem),
}

impl AuthError {
    /// Whether the caller sees this error as the single "not authorized" rejection.
    pub open spec fn is_rejection_spec(self) -> bool {
        self == AuthError::TokenError || self == AuthError::NotAuthorized
    }

    /// Whether this error is reported to the client as a "not authorized" response;
    /// a bad token and a vanished account look the same from outside.
    pub fn is_rejection(&self) -> (r: bool)
        ensures
            r == self.is_rejection_spec(),
    {
        match self {
            AuthError::TokenError => true,
            AuthError::NotAuthorized => true,
            _ => false,
        }
    }
}

} // verus!
