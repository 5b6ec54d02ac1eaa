use vstd::prelude::*;

use crate::crypto::{issue_outcome, validation_of, Auth, CryptoService};
use crate::error::AuthError;
use crate::models::User;
use crate::token::now_timestamp;

verus! {

/// What checking a presented password against a stored hash gave.
#[derive(Debug, Clone, Copy, PartialEq, Eq, Structural)]
pub enum PasswordCheck {
    /// The password matches the hash.
    Matches,
    /// The password does not match the hash.
    Mismatch,
    /// The stored hash is not a hash the algorithm can read.
    Malformed,
}

/// The identity behind an authenticated request.
#[derive(Debug, Clone, Copy, PartialEq, Eq, Structural)]
pub struct AuthedUser(pub u128);

/// The outcome of a login attempt, given what the lookup by username found: the
/// account's identifier with the result of checking the password, or nothing.
/// An unknown user and a wrong password give the same error.
pub open spec fn credential_verdict_spec(found: Option<(u128, PasswordCheck)>) -> Result<u128, AuthError> {
    match found {
        None => Err(AuthError::InvalidCredentials),
        Some((id, PasswordCheck::Mismatch)) => Err(AuthError::InvalidCredentials),
        Some((id, PasswordCheck::Malformed)) => Err(AuthError::InternalError),
        Some((id, PasswordCheck::Matches)) => Ok(id),
    }
}

/// The outcome of looking up the subject of a valid token: the account must still
/// exist, and be the one the token names.
pub open spec fn identity_verdict_spec(claimed: u128, found: Option<u128>) -> Result<AuthedUser, AuthError> {
    match found {
        Some(id) => if id == claimed {
            Ok(AuthedUser(claimed))
        } else {
            Err(AuthError::NotAuthorized)
        },
        None => Err(AuthError::NotAuthorized),
    }
}

/// `r` is the outcome of a login at the instant `now`, given what the lookup by
/// username found: the verdict's error, or, for a matching password, the token
/// issued for the account at `now`.
pub open spec fn login_outcome(
    secret: Seq<char>,
    found: Option<(u128, PasswordCheck)>,
    now: int,
    r: Result<Auth, AuthError>,
) -> bool {
    match credential_verdict_spec(found) {
        Err(e) => r == Err::<Auth, AuthError>(e),
        Ok(id) => issue_outcome(
            secret,
            id,
            now,
            match r {
                Ok(a) => Ok(a.token),
                Err(e) => Err(e),
            },
        ),
    }
}

/// Decides a login attempt from what the lookup by username found.
pub fn credential_verdict(found: Option<(u128, PasswordCheck)>) -> (r: Result<u128, AuthError>)
    ensures
        r == credential_verdict_spec(found),
{
    match found {
        None => Err(AuthError::InvalidCredentials),
        Some((id, check)) => match check {
            PasswordCheck::Matches => Ok(id),
            PasswordCheck::Mismatch => Err(AuthError::InvalidCredentials),
            PasswordCheck::Malformed => Err(AuthError::InternalError),
        },
    }
}

/// Decides whether the subject of a valid token still has an account, given what
/// the lookup by identifier found.
pub fn confirm_identity(claimed: u128, found: Option<&User>) -> (r: Result<AuthedUser, AuthError>)
    ensures
        r == identity_verdict_spec(
            claimed,
            match found {
                Some(u) => Some(u.id),
                None => None,
            },
        ),
{
    match found {
        Some(u) => if u.id == claimed {
            Ok(AuthedUser(claimed))
        } else {
            Err(AuthError::NotAuthorized)
        },
        None => Err(AuthError::NotAuthorized),
    }
}

impl CryptoService {
    /// Logs in at the instant `now`: decides the attempt from what the lookup by
    /// username found and, for a matching password, issues a token for the
    /// account that expires one day after `now`.
    pub fn login_at(&self, found: Option<(u128, PasswordCheck)>, now: i64) -> (r: Result<Auth, AuthError>)
        ensures
            login_outcome(self.jwt_secret@, found, now as int, r),
    {
        let id = match credential_verdict(found) {
            Ok(id) => id,
            Err(e) => return Err(e),
        };
        match self.gen_jwt_at(id, now) {
            Ok(token) => Ok(Auth { token }),
            Err(e) => Err(e),
        }
    }

    /// Logs in against a single reading of the current time; see `login_at`.
    pub fn login(&self, found: Option<(u128, PasswordCheck)>) -> (r: Result<Auth, AuthError>)
        ensures
            exists|now: i64| #[trigger] login_outcome(self.jwt_secret@, found, now as int, r),
            credential_verdict_spec(found) matches Err(e) ==> r == Err::<Auth, AuthError>(e),
    {
        let now = now_timestamp();
        let r = self.login_at(found, now);
        assert(login_outcome(self.jwt_secret@, found, now as int, r));
        r
    }

    /// Checks a bearer token at the instant `now` and gives the identifier of its
    /// subject; the account itself is confirmed afterwards by `confirm_identity`.
    pub fn authenticate_at(&self, token: &str, now: i64) -> (r: Result<u128, AuthError>)
        ensures
            r == (match validation_of(self.jwt_secret@, token@, now as int) {
                Ok(c) => Ok(c.sub),
                Err(e) => Err(e),
            }),
            !token@.contains('.') ==> r == Err::<u128, AuthError>(AuthError::TokenError),
    {
        match self.verify_jwt_at(token, now) {
            Ok(c) => Ok(c.sub),
            Err(e) => Err(e),
        }
    }

    /// Checks a bearer token against a single reading of the current time.
    pub fn authenticate(&self, token: &str) -> (r: Result<u128, AuthError>)
        ensures
            exists|now: i64|
                #![trigger validation_of(self.jwt_secret@, token@, now as int)]
                r == (match validation_of(self.jwt_secret@, token@, now as int) {
                    Ok(c) => Ok(c.sub),
                    Err(e) => Err(e),
                }),
    {
        let now = now_timestamp();
        let r = self.authenticate_at(token, now);
        assert(r == (match validation_of(self.jwt_secret@, token@, now as int) {
            Ok(c) => Ok(c.sub),
            Err(e) => Err(e),
        }));
        r
    }
}

/// A login for an unknown username and a login for a known username with a wrong
/// password fail with the same error, `InvalidCredentials`.
pub proof fn lemma_login_failures_look_alike(id: u128)
    ensures
        credential_verdict_spec(None) == credential_verdict_spec(Some((id, PasswordCheck::Mismatch))),
        credential_verdict_spec(None) == Err::<u128, AuthError>(AuthError::InvalidCredentials),
{
}

/// A valid token whose account is gone and an invalid token are both reported to
/// the caller as the one "not authorized" rejection.
pub proof fn lemma_rejections_look_alike(claimed: u128)
    ensures
        identity_verdict_spec(claimed, None) == Err::<AuthedUser, AuthError>(AuthError::NotAuthorized),
        AuthError::NotAuthorized.is_rejection_spec(),
        AuthError::TokenError.is_rejection_spec(),
{
}

} // verus!
