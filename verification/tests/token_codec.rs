use aquafarm::error::AuthError;
use aquafarm::token::{Claims, DecodeFailure, RawClaims, TokenCodec, VALIDITY_SECONDS};

fn codec() -> TokenCodec {
    TokenCodec::new(String::from("a-signing-secret"))
}

#[test]
fn issued_token_validates_to_its_subject() {
    let codec = codec();
    let token = codec.issue_at("alice@example.org", 1_700_000_000).unwrap();
    let claims: Claims = codec.validate_at(&token, 1_700_000_000).unwrap();
    assert_eq!(claims.sub, "alice@example.org");
    assert_eq!(claims.exp, 1_700_000_000 + 172_800);
    assert_eq!(VALIDITY_SECONDS, 48 * 60 * 60);
}

#[test]
fn token_has_three_segments() {
    let token = codec().issue_at("alice@example.org", 1_700_000_000).unwrap();
    assert_eq!(token.split('.').count(), 3);
}

#[test]
fn issuing_is_deterministic() {
    let a = codec().issue_at("alice@example.org", 1_700_000_000).unwrap();
    let b = codec().issue_at("alice@example.org", 1_700_000_000).unwrap();
    assert_eq!(a, b);
    let c = codec().issue_at("alice@example.org", 1_700_000_001).unwrap();
    assert_ne!(a, c);
}

#[test]
fn token_is_valid_until_the_last_second() {
    let codec = codec();
    let token = codec.issue_at("bob", 1_000).unwrap();
    assert!(codec.validate_at(&token, 1_000 + 172_799).is_ok());
}

#[test]
fn token_expires_at_its_expiry() {
    let codec = codec();
    let token = codec.issue_at("bob", 1_000).unwrap();
    assert_eq!(codec.validate_at(&token, 1_000 + 172_800).unwrap_err(), AuthError::Expired);
    assert_eq!(codec.validate_at(&token, 1_000 + 172_801).unwrap_err(), AuthError::Expired);
    assert_eq!(codec.validate_at(&token, u64::MAX).unwrap_err(), AuthError::Expired);
}

#[test]
fn tampered_signature_is_invalid() {
    let codec = codec();
    let token = codec.issue_at("bob", 1_000).unwrap();
    let last = token.chars().last().unwrap();
    let replaced = if last == 'A' { 'B' } else { 'A' };
    let mut tampered: String = token[..token.len() - 1].to_string();
    tampered.push(replaced);
    assert_eq!(codec.validate_at(&tampered, 1_000).unwrap_err(), AuthError::InvalidSignature);
}

#[test]
fn token_of_another_secret_is_invalid() {
    let token = codec().issue_at("bob", 1_000).unwrap();
    let other = TokenCodec::new(String::from("another-secret"));
    assert_eq!(other.validate_at(&token, 1_000).unwrap_err(), AuthError::InvalidSignature);
}

#[test]
fn text_that_is_no_token_is_malformed() {
    let codec = codec();
    assert_eq!(codec.validate_at("", 0).unwrap_err(), AuthError::MalformedToken);
    assert_eq!(codec.validate_at("not a token", 0).unwrap_err(), AuthError::MalformedToken);
    assert_eq!(codec.validate_at("a.b.c", 0).unwrap_err(), AuthError::MalformedToken);
}

#[test]
fn subject_with_special_characters_survives() {
    let codec = codec();
    let subject = "zoé \"quoted\" \\ back\nline 🐟";
    let token = codec.issue_at(subject, 5).unwrap();
    assert_eq!(codec.validate_at(&token, 5).unwrap().sub, subject);
}

#[test]
fn current_time_token_validates_now() {
    let codec = codec();
    let token = codec.issue("carol@example.org").unwrap();
    let claims = codec.validate(&token).unwrap();
    assert_eq!(claims.sub, "carol@example.org");
    let now = aquafarm::token::now();
    assert!(claims.exp >= now + 172_800 - 5 && claims.exp <= now + 172_800);
}

#[test]
fn decoded_claims_are_judged_by_the_clock() {
    let raw = || Ok(RawClaims { sub: Some(String::from("dave")), exp: Some(100) });
    assert_eq!(TokenCodec::check_decoded(raw(), 99).unwrap().exp, 100);
    assert_eq!(TokenCodec::check_decoded(raw(), 99).unwrap().sub, "dave");
    assert_eq!(TokenCodec::check_decoded(raw(), 100).unwrap_err(), AuthError::Expired);
    assert_eq!(TokenCodec::check_decoded(raw(), 101).unwrap_err(), AuthError::Expired);
}

#[test]
fn decoded_claims_must_be_complete() {
    let no_sub = Ok(RawClaims { sub: None, exp: Some(100) });
    assert_eq!(TokenCodec::check_decoded(no_sub, 0).unwrap_err(), AuthError::MalformedToken);
    let no_exp = Ok(RawClaims { sub: Some(String::from("dave")), exp: None });
    assert_eq!(TokenCodec::check_decoded(no_exp, 0).unwrap_err(), AuthError::MalformedToken);
}

#[test]
fn decode_failures_keep_their_kind() {
    assert_eq!(
        TokenCodec::check_decoded(Err(DecodeFailure::InvalidSignature), 0).unwrap_err(),
        AuthError::InvalidSignature
    );
    assert_eq!(
        TokenCodec::check_decoded(Err(DecodeFailure::Unreadable), 0).unwrap_err(),
        AuthError::MalformedToken
    );
}

#[test]
fn clock_reading_before_the_epoch_counts_as_the_epoch() {
    assert_eq!(aquafarm::token::seconds_of(-1), 0);
    assert_eq!(aquafarm::token::seconds_of(-86_400), 0);
    assert_eq!(aquafarm::token::seconds_of(i64::MIN), 0);
}

#[test]
fn clock_reading_from_the_epoch_on_is_kept() {
    assert_eq!(aquafarm::token::seconds_of(0), 0);
    assert_eq!(aquafarm::token::seconds_of(1), 1);
    assert_eq!(aquafarm::token::seconds_of(1_700_000_000), 1_700_000_000);
    assert_eq!(aquafarm::token::seconds_of(i64::MAX), 9_223_372_036_854_775_807);
}
