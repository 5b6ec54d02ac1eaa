use credential_core::crypto::CryptoService;
use credential_core::error::AuthError;
use credential_core::login::{confirm_identity, credential_verdict, AuthedUser, PasswordCheck};
use credential_core::models::User;

const ALICE: u128 = 0x67e5_5044_10b1_426f_9247_bb68_0e5f_e0c8;
const NOW: i64 = 1_700_000_000;

fn service() -> CryptoService {
    CryptoService::new("hashing-key".to_string(), "signing-secret".to_string())
}

fn alice() -> User {
    User {
        id: ALICE,
        username: "alice".to_string(),
        email: "alice@example.com".to_string(),
        password_hash: "$argon2id$v=19$m=4096,t=192,p=4$c2FsdA$aGFzaA".to_string(),
        full_name: None,
        bio: None,
        created_at: NOW - 1000,
        updated_at: NOW - 1000,
    }
}

#[test]
fn verdict_for_each_lookup_outcome() {
    assert_eq!(credential_verdict(None), Err(AuthError::InvalidCredentials));
    assert_eq!(credential_verdict(Some((7, PasswordCheck::Mismatch))), Err(AuthError::InvalidCredentials));
    assert_eq!(credential_verdict(Some((7, PasswordCheck::Malformed))), Err(AuthError::InternalError));
    assert_eq!(credential_verdict(Some((7, PasswordCheck::Matches))), Ok(7));
}

#[test]
fn unknown_user_and_wrong_password_look_alike() {
    let s = service();
    let unknown = s.login_at(None, NOW).unwrap_err();
    let wrong = s.login_at(Some((ALICE, PasswordCheck::Mismatch)), NOW).unwrap_err();
    assert_eq!(unknown, wrong);
    assert_eq!(unknown, AuthError::InvalidCredentials);
}

#[test]
fn malformed_stored_hash_is_internal_error() {
    let s = service();
    assert_eq!(
        s.login_at(Some((ALICE, PasswordCheck::Malformed)), NOW).unwrap_err(),
        AuthError::InternalError
    );
}

#[test]
fn login_then_authenticate_then_expire() {
    let s = service();
    let user = alice();
    let auth = s.login_at(Some((user.id, PasswordCheck::Matches)), NOW).unwrap();
    let id = s.authenticate_at(&auth.token, NOW + 5).unwrap();
    assert_eq!(confirm_identity(id, Some(&user)), Ok(AuthedUser(ALICE)));
    assert_eq!(s.authenticate_at(&auth.token, NOW + 86400), Err(AuthError::TokenError));
    assert_eq!(s.authenticate_at(&auth.token, NOW + 86400 + 3600), Err(AuthError::TokenError));
}

#[test]
fn login_on_current_clock() {
    let s = service();
    let auth = s.login(Some((ALICE, PasswordCheck::Matches))).unwrap();
    assert_eq!(s.authenticate(&auth.token), Ok(ALICE));
    assert_eq!(s.login(None).unwrap_err(), AuthError::InvalidCredentials);
}

#[test]
fn deleted_account_is_not_authorized() {
    let s = service();
    let auth = s.login_at(Some((ALICE, PasswordCheck::Matches)), NOW).unwrap();
    let id = s.authenticate_at(&auth.token, NOW).unwrap();
    assert_eq!(confirm_identity(id, None), Err(AuthError::NotAuthorized));
}

#[test]
fn lookup_returning_another_account_is_not_authorized() {
    let mut other = alice();
    other.id = ALICE + 1;
    assert_eq!(confirm_identity(ALICE, Some(&other)), Err(AuthError::NotAuthorized));
}

#[test]
fn garbage_bearer_token_is_rejected() {
    let s = service();
    let err = s.authenticate_at("not-a-token", NOW).unwrap_err();
    assert!(err.is_rejection());
    assert!(AuthError::NotAuthorized.is_rejection());
    assert!(!AuthError::InvalidCredentials.is_rejection());
    assert!(!AuthError::InternalError.is_rejection());
}

#[test]
fn login_token_authenticates_through_bearer_header() {
    let s = service();
    let auth = s.login_at(Some((ALICE, PasswordCheck::Matches)), NOW).unwrap();
    let header = format!("Bearer {}", auth.token);
    assert_eq!(s.authenticate_header_at(Some(&header), NOW + 86399), Ok(ALICE));
    assert_eq!(s.authenticate_header_at(Some(&header), NOW + 86400), Err(AuthError::TokenError));
}
