use actix_web_httpauth::headers::authorization::Scheme;
use vstd::prelude::*;

use crate::crypto::{lemma_issued_token_validates, validation_of, Auth, CryptoService, TOKEN_LIFETIME_SECS};
use crate::login::{login_outcome, PasswordCheck};
use crate::error::AuthError;
use crate::token::{now_timestamp, token_text};

verus! {

/// A character that may stand in a header value that is read as text: visible
/// ASCII, the space, or a tab.
pub open spec fn header_text_char(c: char) -> bool {
    (' ' <= c && c <= '~') || c == '\t'
}

/// The token of an `Authorization` header value of the form `Bearer <token>`,
/// with a token of at least one character; `None` for any other value.
pub open spec fn bearer_token_of(header: Seq<char>) -> Option<Seq<char>> {
    if header.len() >= 8 && (forall|i: int| 0 <= i < header.len() ==> header_text_char(#[trigger] header[i]))
        && header.subrange(0, 7) == "Bearer "@ {
        Some(header.subrange(7, header.len() as int))
    } else {
        None
    }
}

/// Relies on actix-web-httpauth's `Bearer::parse` over the header value that
/// `HeaderValue::from_str` builds: a value of at least eight bytes, all of them
/// visible ASCII or tabs, whose text up to the first space is `Bearer`; the
/// token is the rest.
#[verifier::external_body]
fn parse_bearer(header: &str) -> (r: Option<String>)
    ensures
        match r {
            Some(t) => bearer_token_of(header@) == Some(t@),
            None => bearer_token_of(header@) is None,
        },
{
    let value = actix_web::http::header::HeaderValue::from_str(header).ok()?;
    let bearer = actix_web_httpauth::headers::authorization::Bearer::parse(&value).ok()?;
    Some(bearer.token().to_string())
}

/// The bearer token carried by a request's `Authorization` header, if the
/// header is present and of the bearer form.
pub fn token_from_header(header: Option<&str>) -> (r: Option<String>)
    ensures
        match header {
            None => r is None,
            Some(h) => match r {
                Some(t) => bearer_token_of(h@) == Some(t@),
                None => bearer_token_of(h@) is None,
            },
        },
{
    match header {
        None => None,
        Some(h) => parse_bearer(h),
    }
}

/// The text of a header that may be missing.
pub open spec fn header_text(header: Option<&str>) -> Option<Seq<char>> {
    match header {
        Some(h) => Some(h@),
        None => None,
    }
}

/// The verdict on a request's `Authorization` header at the instant `now`: a
/// missing or ill-formed header is `NotAuthorized`; otherwise the verdict on the
/// token it carries.
pub open spec fn header_verdict(secret: Seq<char>, header: Option<Seq<char>>, now: int) -> Result<u128, AuthError> {
    match header {
        None => Err(AuthError::NotAuthorized),
        Some(h) => match bearer_token_of(h) {
            None => Err(AuthError::NotAuthorized),
            Some(t) => match validation_of(secret, t, now) {
                Ok(c) => Ok(c.sub),
                Err(e) => Err(e),
            },
        },
    }
}

impl CryptoService {
    /// Authenticates a request by its `Authorization` header at the instant `now`,
    /// giving the identifier of the token's subject.
    pub fn authenticate_header_at(&self, header: Option<&str>, now: i64) -> (r: Result<u128, AuthError>)
        ensures
            r == header_verdict(
                self.jwt_secret@,
                header_text(header),
                now as int,
            ),
    {
        match token_from_header(header) {
            None => Err(AuthError::NotAuthorized),
            Some(t) => self.authenticate_at(t.as_str(), now),
        }
    }

    /// Authenticates a request by its `Authorization` header against a single
    /// reading of the current time.
    pub fn authenticate_header(&self, header: Option<&str>) -> (r: Result<u128, AuthError>)
        ensures
            exists|now: i64|
                r == #[trigger] header_verdict(
                    self.jwt_secret@,
                    header_text(header),
                    now as int,
                ),
    {
        let now = now_timestamp();
        let r = self.authenticate_header_at(header, now);
        assert(r == header_verdict(self.jwt_secret@, header_text(header), now as int));
        r
    }
}

/// A header value `Bearer <t>` made from a token's text carries that token.
pub proof fn lemma_bearer_header_carries_token(t: Seq<char>)
    requires
        token_text(t),
    ensures
        bearer_token_of("Bearer "@ + t) == Some(t),
{
    reveal_strlit("Bearer ");
    let h = "Bearer "@ + t;
    assert forall|i: int| 0 <= i < h.len() implies header_text_char(#[trigger] h[i]) by {
        if i >= 7 {
            assert(h[i] == t[i - 7]);
        }
    }
    assert(h.subrange(0, 7) =~= "Bearer "@);
    assert(h.subrange(7, h.len() as int) =~= t);
}

/// A login with a matching password yields a token, and a request that carries
/// it as `Authorization: Bearer <token>` authenticates as that account at any
/// instant before the token expires.
pub proof fn lemma_login_then_authenticate(
    secret: Seq<char>,
    id: u128,
    issued: i64,
    at: int,
    r: Result<Auth, AuthError>,
)
    requires
        issued + TOKEN_LIFETIME_SECS <= i64::MAX,
        issued <= at < issued + TOKEN_LIFETIME_SECS,
        login_outcome(secret, Some((id, PasswordCheck::Matches)), issued as int, r),
    ensures
        r is Ok,
        header_verdict(secret, Some("Bearer "@ + r->Ok_0.token@), at) == Ok::<u128, AuthError>(id),
{
    let t = r->Ok_0.token@;
    lemma_bearer_header_carries_token(t);
    lemma_issued_token_validates(secret, t, id, issued, at);
}

} // verus!
