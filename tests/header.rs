use credential_core::crypto::CryptoService;
use credential_core::error::AuthError;
use credential_core::header::token_from_header;

const ALICE: u128 = 0x67e5_5044_10b1_426f_9247_bb68_0e5f_e0c8;
const NOW: i64 = 1_700_000_000;

#[test]
fn bearer_header_gives_its_token() {
    assert_eq!(token_from_header(Some("Bearer abc.def.ghi")), Some("abc.def.ghi".to_string()));
    assert_eq!(token_from_header(Some("Bearer x")), Some("x".to_string()));
}

#[test]
fn other_headers_give_no_token() {
    assert_eq!(token_from_header(None), None);
    assert_eq!(token_from_header(Some("")), None);
    assert_eq!(token_from_header(Some("Bearer ")), None);
    assert_eq!(token_from_header(Some("bearer abc")), None);
    assert_eq!(token_from_header(Some("Basic YWxpY2U6aHVudGVyMjI=")), None);
    assert_eq!(token_from_header(Some("Bearerabc")), None);
    assert_eq!(token_from_header(Some("Bearer caf\u{e9}")), None);
}

#[test]
fn header_authentication_outcomes() {
    let s = CryptoService::new("hashing-key".to_string(), "signing-secret".to_string());
    let token = s.gen_jwt_at(ALICE, NOW).unwrap();
    let header = format!("Bearer {}", token);
    assert_eq!(s.authenticate_header_at(Some(&header), NOW), Ok(ALICE));
    assert_eq!(s.authenticate_header_at(Some(&header), NOW + 86400), Err(AuthError::TokenError));
    assert_eq!(s.authenticate_header_at(Some(&token), NOW), Err(AuthError::NotAuthorized));
    assert_eq!(s.authenticate_header_at(None, NOW), Err(AuthError::NotAuthorized));
    assert_eq!(s.authenticate_header_at(Some("Bearer garbage"), NOW), Err(AuthError::TokenError));
    let fresh = format!("Bearer {}", s.gen_jwt(ALICE).unwrap());
    assert_eq!(s.authenticate_header(Some(&fresh)), Ok(ALICE));
    assert_eq!(s.authenticate_header(Some(&header)), Err(AuthError::TokenError));
}
