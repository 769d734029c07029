use aquafarm::error::{AuthError, Disposition};

#[test]
fn token_and_identity_failures_are_unauthorized() {
    for e in [
        AuthError::MissingToken,
        AuthError::MalformedToken,
        AuthError::InvalidSignature,
        AuthError::Expired,
        AuthError::IdentityMismatch,
    ] {
        assert!(e.is_unauthorized());
        assert_eq!(e.disposition(), Disposition::Unauthorized);
        assert_eq!(e.disposition().status_code(), 401);
    }
}

#[test]
fn infrastructure_failures_are_server_errors() {
    for e in [AuthError::HashingFailure, AuthError::StoreError] {
        assert!(!e.is_unauthorized());
        assert_eq!(e.disposition(), Disposition::ServerError);
        assert_eq!(e.disposition().status_code(), 500);
    }
}

#[test]
fn the_kinds_are_distinct() {
    assert_ne!(AuthError::IdentityMismatch, AuthError::InvalidSignature);
    assert_ne!(AuthError::MissingToken, AuthError::MalformedToken);
    assert_ne!(AuthError::Expired, AuthError::InvalidSignature);
}
