use aquafarm::error::AuthError;
use aquafarm::guard::{bearer_token, AuthorizationGuard, OwnerKey};
use aquafarm::token::{Claims, TokenCodec};
use std::cell::Cell;

const SECRET: &str = "guard-secret";
const NOW: u64 = 1_700_000_000;

fn guard() -> AuthorizationGuard {
    AuthorizationGuard::new(TokenCodec::new(SECRET.to_string()))
}

fn header_for(subject: &str, issued_at: u64) -> String {
    let token = TokenCodec::new(SECRET.to_string()).issue_at(subject, issued_at).unwrap();
    format!("Bearer {}", token)
}

fn valid_claims(subject: &str) -> Claims {
    Claims { sub: subject.to_string(), exp: NOW + 10 }
}

#[test]
fn bearer_token_is_what_follows_the_scheme() {
    assert_eq!(bearer_token(Some("Bearer abc.def.ghi")), Ok("abc.def.ghi"));
    assert_eq!(bearer_token(Some("Bearer ")), Ok(""));
    assert_eq!(bearer_token(Some("Bearer  spaced")), Ok(" spaced"));
}

#[test]
fn absent_or_foreign_header_has_no_token() {
    assert_eq!(bearer_token(None), Err(AuthError::MissingToken));
    assert_eq!(bearer_token(Some("")), Err(AuthError::MissingToken));
    assert_eq!(bearer_token(Some("Basic dXNlcjpwYXNz")), Err(AuthError::MissingToken));
    assert_eq!(bearer_token(Some("bearer abc")), Err(AuthError::MissingToken));
    assert_eq!(bearer_token(Some("Bearer")), Err(AuthError::MissingToken));
    assert_eq!(bearer_token(Some("abc.def.ghi")), Err(AuthError::MissingToken));
}

#[test]
fn authenticate_reads_the_claims_of_a_valid_token() {
    let header = header_for("alice@example.org", NOW);
    let claims = guard().authenticate_at(Some(&header), NOW + 60).unwrap();
    assert_eq!(claims.sub, "alice@example.org");
    assert_eq!(claims.exp, NOW + 172_800);
}

#[test]
fn authenticate_passes_token_errors_on() {
    let g = guard();
    assert_eq!(g.authenticate_at(None, NOW).unwrap_err(), AuthError::MissingToken);
    assert_eq!(
        g.authenticate_at(Some("Bearer not-a-token"), NOW).unwrap_err(),
        AuthError::MalformedToken
    );
    let header = header_for("alice@example.org", NOW);
    assert_eq!(
        g.authenticate_at(Some(&header), NOW + 172_800).unwrap_err(),
        AuthError::Expired
    );
    let forged = format!("{}x", header);
    assert_eq!(g.authenticate_at(Some(&forged), NOW).unwrap_err(), AuthError::InvalidSignature);
}

#[test]
fn authenticate_with_the_clock_accepts_a_fresh_token() {
    let token = TokenCodec::new(SECRET.to_string()).issue("alice@example.org").unwrap();
    let header = format!("Bearer {}", token);
    assert_eq!(guard().authenticate(Some(&header)).unwrap().sub, "alice@example.org");
    assert_eq!(guard().authenticate(None).unwrap_err(), AuthError::MissingToken);
}

#[test]
fn owner_by_email_passes() {
    let owner = OwnerKey::Email("alice@example.org".to_string());
    let context = AuthorizationGuard::check_owner(&valid_claims("alice@example.org"), Some(&owner));
    assert_eq!(context.unwrap().caller_subject(), "alice@example.org");
}

#[test]
fn stranger_is_an_identity_mismatch() {
    let owner = OwnerKey::Email("bob@example.org".to_string());
    let refused = AuthorizationGuard::check_owner(&valid_claims("alice@example.org"), Some(&owner));
    assert_eq!(refused.unwrap_err(), AuthError::IdentityMismatch);
    let close = OwnerKey::Email("Alice@example.org".to_string());
    let refused = AuthorizationGuard::check_owner(&valid_claims("alice@example.org"), Some(&close));
    assert_eq!(refused.unwrap_err(), AuthError::IdentityMismatch);
}

#[test]
fn failed_lookup_is_a_store_error() {
    let refused = AuthorizationGuard::check_owner(&valid_claims("alice@example.org"), None);
    assert_eq!(refused.unwrap_err(), AuthError::StoreError);
}

#[test]
fn owner_by_numeric_id_is_compared_by_numeral() {
    let owner = OwnerKey::NumericId(42);
    assert_eq!(owner.to_identity(), "42");
    assert!(AuthorizationGuard::check_owner(&valid_claims("42"), Some(&owner)).is_ok());
    assert_eq!(
        AuthorizationGuard::check_owner(&valid_claims("042"), Some(&owner)).unwrap_err(),
        AuthError::IdentityMismatch
    );
    assert_eq!(
        AuthorizationGuard::check_owner(&valid_claims("43"), Some(&owner)).unwrap_err(),
        AuthError::IdentityMismatch
    );
    assert_eq!(OwnerKey::NumericId(-3).to_identity(), "-3");
    assert_eq!(OwnerKey::Email("a@b.c".to_string()).to_identity(), "a@b.c");
}

#[test]
fn authorize_lets_the_owner_through() {
    let header = header_for("alice@example.org", NOW);
    let context = guard()
        .authorize_at(Some(&header), NOW, || Some(OwnerKey::Email("alice@example.org".to_string())))
        .unwrap();
    assert_eq!(context.caller_subject(), "alice@example.org");
}

#[test]
fn authorize_turns_a_stranger_away() {
    let header = header_for("alice@example.org", NOW);
    let refused = guard()
        .authorize_at(Some(&header), NOW, || Some(OwnerKey::Email("bob@example.org".to_string())));
    assert_eq!(refused.unwrap_err(), AuthError::IdentityMismatch);
}

#[test]
fn authorize_reports_a_failed_lookup() {
    let header = header_for("alice@example.org", NOW);
    let refused = guard().authorize_at(Some(&header), NOW, || None);
    assert_eq!(refused.unwrap_err(), AuthError::StoreError);
}

#[test]
fn authorize_does_not_consult_the_lookup_for_a_bad_token() {
    let consulted = Cell::new(false);
    let lookup = || {
        consulted.set(true);
        Some(OwnerKey::Email("alice@example.org".to_string()))
    };
    let refused = guard().authorize_at(None, NOW, lookup);
    assert_eq!(refused.unwrap_err(), AuthError::MissingToken);
    assert!(!consulted.get());

    let header = header_for("alice@example.org", NOW);
    let expired = guard().authorize_at(Some(&header), NOW + 200_000, || {
        consulted.set(true);
        Some(OwnerKey::Email("alice@example.org".to_string()))
    });
    assert_eq!(expired.unwrap_err(), AuthError::Expired);
    assert!(!consulted.get());
}

#[test]
fn authorize_with_the_clock_lets_the_owner_through() {
    let token = TokenCodec::new(SECRET.to_string()).issue("7").unwrap();
    let header = format!("Bearer {}", token);
    let context = guard().authorize(Some(&header), || Some(OwnerKey::NumericId(7))).unwrap();
    assert_eq!(context.caller_subject(), "7");
    let refused = guard().authorize(Some(&header), || Some(OwnerKey::NumericId(8)));
    assert_eq!(refused.unwrap_err(), AuthError::IdentityMismatch);
}
