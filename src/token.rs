use vstd::prelude::*;

verus! {

/// The claims that jsonwebtoken's `decode` reads from `token` when its HS256
/// signature checks out under `secret`: the `sub` string and the `exp` number.
/// `None` when the token does not decode or lacks either claim.
pub uninterp spec fn token_claims(secret: Seq<char>, token: Seq<char>) -> Option<(Seq<char>, i64)>;

/// The identifier that uuid's `Uuid::parse_str` reads from `text`, as its 128-bit
/// value; `None` when the text is not a well-formed identifier.
pub uninterp spec fn uuid_parse(text: Seq<char>) -> Option<u128>;

/// The token that jsonwebtoken's `encode` makes from the claims object
/// `{"sub": sub, "exp": exp}` with the default HS256 header and `secret` as key.
pub uninterp spec fn signed_token(secret: Seq<char>, sub: Seq<char>, exp: i64) -> Seq<char>;

/// The hyphenated text that uuid writes for the identifier with 128-bit value `id`.
pub uninterp spec fn uuid_hyphenated(id: u128) -> Seq<char>;

/// A character of base64url without padding, the alphabet of each part of a token.
pub open spec fn base64url_char(c: char) -> bool {
    ('A' <= c && c <= 'Z') || ('a' <= c && c <= 'z') || ('0' <= c && c <= '9') || c == '-' || c == '_'
}

/// Text in the form of a signed token: not empty, and made of base64url
/// characters and the dots that separate the parts.
pub open spec fn token_text(t: Seq<char>) -> bool {
    t.len() > 0 && forall|i: int| 0 <= i < t.len() ==> (base64url_char(#[trigger] t[i]) || t[i] == '.')
}

/// jsonwebtoken's error type, carried opaque from `encode` to the caller.
#[verifier::external_type_specification]
#[verifier::external_body]
pub struct ExJwtError(jsonwebtoken::errors::Error);

/// Relies on jsonwebtoken::encode with the default header (HS256) and an HMAC key
/// made from the secret's bytes. With that header and key, and claims that always
/// serialise, it succeeds; the token is the three base64url parts (header,
/// claims, HMAC) joined by dots, and it decodes, under that same secret, to the
/// claims object `{"sub": sub, "exp": exp}` that was signed.
#[verifier::external_body]
pub(crate) fn sign_claims(secret: &str, sub: &str, exp: i64) -> (r: Result<
    String,
    jsonwebtoken::errors::Error,
>)
    ensures
        r is Ok,
        r matches Ok(t) ==> t@ == signed_token(secret@, sub@, exp),
        r matches Ok(t) ==> token_text(t@),
        r matches Ok(t) ==> token_claims(secret@, t@) == Some((sub@, exp)),
{
    let mut claims = serde_json::Map::new();
    claims.insert("sub".to_string(), serde_json::Value::from(sub));
    claims.insert("exp".to_string(), serde_json::Value::from(exp));
    let key = jsonwebtoken::EncodingKey::from_secret(secret.as_bytes());
    jsonwebtoken::encode(&jsonwebtoken::Header::default(), &claims, &key)
}

/// Relies on jsonwebtoken::decode, with HS256 and an HMAC key made from the
/// secret's bytes, to check the signature and read the `sub` and `exp` claims.
/// Its own clock-based checks are switched off: expiry is decided by the caller
/// against a single reading of the clock. A token without a dot is refused
/// before anything else.
#[verifier::external_body]
pub(crate) fn read_claims(secret: &str, token: &str) -> (r: Option<(String, i64)>)
    ensures
        match r {
            Some(c) => token_claims(secret@, token@) == Some((c.0@, c.1)),
            None => token_claims(secret@, token@) is None,
        },
        !token@.contains('.') ==> r is None,
{
    let key = jsonwebtoken::DecodingKey::from_secret(secret.as_bytes());
    let mut validation = jsonwebtoken::Validation::new(jsonwebtoken::Algorithm::HS256);
    validation.validate_exp = false;
    validation.required_spec_claims = std::collections::HashSet::new();
    let data = jsonwebtoken::decode::<serde_json::Map<String, serde_json::Value>>(
        token, &key, &validation,
    ).ok()?;
    let sub = data.claims.get("sub")?.as_str()?.to_string();
    let exp = data.claims.get("exp")?.as_i64()?;
    Some((sub, exp))
}

/// Relies on uuid's `Uuid::parse_str` (the value read as `as_u128`).
#[verifier::external_body]
pub(crate) fn parse_uuid(text: &str) -> (r: Option<u128>)
    ensures
        r == uuid_parse(text@),
{
    uuid::Uuid::parse_str(text).ok().map(|u| u.as_u128())
}

/// Relies on uuid's hyphenated `Display` of `Uuid::from_u128(id)`: the text it
/// writes is read back by `Uuid::parse_str` as the same identifier.
#[verifier::external_body]
pub(crate) fn uuid_text(id: u128) -> (r: String)
    ensures
        r@ == uuid_hyphenated(id),
        uuid_parse(r@) == Some(id),
{
    uuid::Uuid::from_u128(id).hyphenated().to_string()
}

/// Relies on chrono's `Utc::now().timestamp()`: the current time in whole
/// seconds since the Unix epoch. Nothing is known of the value it returns.
#[verifier::external_body]
pub(crate) fn now_timestamp() -> (r: i64) {
    chrono::Utc::now().timestamp()
}

} // verus!
