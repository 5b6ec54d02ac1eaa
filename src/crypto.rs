use vstd::prelude::*;

use crate::error::AuthError;
use crate::token::{
    now_timestamp, parse_uuid, read_claims, sign_claims, signed_token, token_claims, token_text,
    uuid_hyphenated, uuid_parse, uuid_text,
};

verus! {

/// The number of seconds for which an issued token stays valid: one day.
pub const TOKEN_LIFETIME_SECS: i64 = 86400;

/// The two process-wide secrets: the key mixed into password hashes and the
/// secret that signs tokens. Both are read-only once the service is built.
#[derive(Debug, Clone)]
pub struct CryptoService {
    pub key: String,
    pub jwt_secret: String,
}

/// The identity claims carried by a token: the subject's identifier and the
/// instant (seconds since the Unix epoch) at which the token expires.
#[derive(Debug, Clone, Copy, PartialEq, Eq, Structural)]
pub struct Claims {
    pub sub: u128,
    pub exp: i64,
}

/// A freshly issued bearer token, as handed back to a client that logged in.
#[derive(Debug, Clone)]
pub struct Auth {
    pub token: String,
}

/// `token` was signed with `secret` and carries `sub` as its subject and `exp`
/// as its expiry.
pub open spec fn issued_token(secret: Seq<char>, token: Seq<char>, sub: u128, exp: int) -> bool {
    match token_claims(secret, token) {
        Some((text, e)) => uuid_parse(text) == Some(sub) && e as int == exp,
        None => false,
    }
}

/// `token` was signed with `secret` for `sub` at the instant `now`: it expires one
/// token lifetime later.
pub open spec fn issued_at(secret: Seq<char>, token: Seq<char>, sub: u128, now: int) -> bool {
    issued_token(secret, token, sub, now + TOKEN_LIFETIME_SECS)
}

/// The token issued for `sub` at the instant `now` under `secret`: the signed
/// claims naming the subject's hyphenated identifier and an expiry one token
/// lifetime after `now`. It depends on nothing else.
pub open spec fn token_for(secret: Seq<char>, sub: u128, now: int) -> Seq<char> {
    signed_token(secret, uuid_hyphenated(sub), (now + TOKEN_LIFETIME_SECS) as i64)
}

/// `r` is the outcome of issuing a token for `sub` at the instant `now`: the
/// token `token_for` when the expiry fits in an `i64`, `InternalError` otherwise.
pub open spec fn issue_outcome(secret: Seq<char>, sub: u128, now: int, r: Result<String, AuthError>) -> bool {
    if now + TOKEN_LIFETIME_SECS <= i64::MAX {
        r matches Ok(t) && t@ == token_for(secret, sub, now) && token_text(t@) && issued_at(
            secret,
            t@,
            sub,
            now,
        )
    } else {
        r == Err::<String, AuthError>(AuthError::InternalError)
    }
}

/// The verdict on `token` under `secret` at the instant `now`: its claims when the
/// signature checks out, the expiry lies strictly after `now` and the subject is a
/// well-formed identifier; `TokenError` otherwise.
pub open spec fn validation_of(secret: Seq<char>, token: Seq<char>, now: int) -> Result<Claims, AuthError> {
    match token_claims(secret, token) {
        Some((text, e)) => {
            if e <= now {
                Err(AuthError::TokenError)
            } else {
                match uuid_parse(text) {
                    Some(sub) => Ok(Claims { sub, exp: e }),
                    None => Err(AuthError::TokenError),
                }
            }
        },
        None => Err(AuthError::TokenError),
    }
}

impl CryptoService {
    pub fn new(key: String, jwt_secret: String) -> (r: CryptoService)
        ensures
            r.key@ == key@,
            r.jwt_secret@ == jwt_secret@,
    {
        CryptoService { key, jwt_secret }
    }

    /// Issues a token for `user_id` that expires one day after `now`. It succeeds
    /// whenever that expiry fits in an `i64`, and fails with `InternalError`
    /// otherwise.
    pub fn gen_jwt_at(&self, user_id: u128, now: i64) -> (r: Result<String, AuthError>)
        ensures
            issue_outcome(self.jwt_secret@, user_id, now as int, r),
    {
        let exp = match now.checked_add(TOKEN_LIFETIME_SECS) {
            Some(e) => e,
            None => return Err(AuthError::InternalError),
        };
        let sub = uuid_text(user_id);
        match sign_claims(self.jwt_secret.as_str(), sub.as_str(), exp) {
            Ok(t) => Ok(t),
            Err(_) => Err(AuthError::InternalError),
        }
    }

    /// Issues a token for `user_id` that expires one day after a single reading
    /// of the current time.
    pub fn gen_jwt(&self, user_id: u128) -> (r: Result<String, AuthError>)
        ensures
            exists|now: i64| #[trigger] issue_outcome(self.jwt_secret@, user_id, now as int, r),
    {
        let now = now_timestamp();
        let r = self.gen_jwt_at(user_id, now);
        assert(issue_outcome(self.jwt_secret@, user_id, now as int, r));
        r
    }

    /// Checks `token` at the instant `now`: its signature under the signing
    /// secret, its expiry, and the form of its subject.
    pub fn verify_jwt_at(&self, token: &str, now: i64) -> (r: Result<Claims, AuthError>)
        ensures
            r == validation_of(self.jwt_secret@, token@, now as int),
            !token@.contains('.') ==> r == Err::<Claims, AuthError>(AuthError::TokenError),
    {
        let (text, exp) = match read_claims(self.jwt_secret.as_str(), token) {
            Some(c) => c,
            None => return Err(AuthError::TokenError),
        };
        if exp <= now {
            return Err(AuthError::TokenError);
        }
        match parse_uuid(text.as_str()) {
            Some(sub) => Ok(Claims { sub, exp }),
            None => Err(AuthError::TokenError),
        }
    }

    /// Checks `token` against a single reading of the current time.
    pub fn verify_jwt(&self, token: &str) -> (r: Result<Claims, AuthError>)
        ensures
            exists|now: i64| r == validation_of(self.jwt_secret@, token@, now as int),
    {
        let now = now_timestamp();
        let r = self.verify_jwt_at(token, now);
        assert(r == validation_of(self.jwt_secret@, token@, now as int));
        r
    }
}

/// A token issued for `sub` at `issued_at` validates, at any instant from its
/// issue up to (not including) its expiry, to claims naming that same subject.
pub proof fn lemma_issued_token_validates(
    secret: Seq<char>,
    token: Seq<char>,
    sub: u128,
    issued_at: i64,
    at: int,
)
    requires
        issued_at + TOKEN_LIFETIME_SECS <= i64::MAX,
        issued_token(secret, token, sub, issued_at + TOKEN_LIFETIME_SECS),
        issued_at <= at < issued_at + TOKEN_LIFETIME_SECS,
    ensures
        validation_of(secret, token, at) == Ok::<Claims, AuthError>(
            Claims { sub, exp: (issued_at + TOKEN_LIFETIME_SECS) as i64 },
        ),
{
}

/// Issuing is a function of the signing secret, the subject and the instant
/// alone: two issues that agree on those give the same outcome and the same token.
pub proof fn lemma_issue_is_deterministic(
    secret: Seq<char>,
    sub: u128,
    now: int,
    r1: Result<String, AuthError>,
    r2: Result<String, AuthError>,
)
    requires
        issue_outcome(secret, sub, now, r1),
        issue_outcome(secret, sub, now, r2),
    ensures
        r1 is Ok <==> r2 is Ok,
        r1 is Ok ==> r1->Ok_0@ == r2->Ok_0@,
{
}

/// Once its expiry instant has come, a token is refused with `TokenError`,
/// although its signature is correct.
pub proof fn lemma_expired_token_rejected(
    secret: Seq<char>,
    token: Seq<char>,
    sub: u128,
    exp: int,
    at: int,
)
    requires
        issued_token(secret, token, sub, exp),
        at >= exp,
    ensures
        validation_of(secret, token, at) == Err::<Claims, AuthError>(AuthError::TokenError),
{
}

/// Every accepted token expires strictly after the instant at which it was checked.
pub proof fn lemma_accepted_token_unexpired(secret: Seq<char>, token: Seq<char>, at: int)
    ensures
        validation_of(secret, token, at) matches Ok(c) ==> c.exp > at,
{
}

/// A token that does not decode under the signing secret (garbage, unsigned, or
/// signed with another secret) is refused with `TokenError`.
pub proof fn lemma_undecodable_token_rejected(secret: Seq<char>, token: Seq<char>, at: int)
    requires
        token_claims(secret, token) is None,
    ensures
        validation_of(secret, token, at) == Err::<Claims, AuthError>(AuthError::TokenError),
{
}

} // verus!
