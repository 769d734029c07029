//! Bearer tokens: signed, time-bounded assertions of a caller's identity.
//!
//! A token is valid from the moment it is issued until its expiry, and
//! expired ever after. Nothing is stored: whether a token is valid depends on
//! the token, the secret and the time alone.

use vstd::prelude::*;
use crate::error::AuthError;
use crate::text::text_view;

verus! {

/// How long a token stays valid: 48 hours, in seconds.
pub const VALIDITY_SECONDS: u64 = 172_800;

/// The payload of a token: who the caller is, and until when the token holds.
#[derive(Debug)]
pub struct Claims {
    /// The identity the token asserts.
    pub sub: String,
    /// The expiry, in seconds since the Unix epoch.
    pub exp: u64,
}

/// What [`Claims`] stand for.
pub struct ClaimsView {
    pub sub: Seq<char>,
    pub exp: u64,
}

impl View for Claims {
    type V = ClaimsView;

    open spec fn view(&self) -> ClaimsView {
        ClaimsView { sub: self.sub@, exp: self.exp }
    }
}

/// The two claims as they were found in a token whose signature holds; either
/// may be missing or of the wrong type.
#[derive(Debug)]
pub struct RawClaims {
    /// The `sub` claim, where it is a string.
    pub sub: Option<String>,
    /// The `exp` claim, where it is a non-negative integer.
    pub exp: Option<u64>,
}

/// What [`RawClaims`] stand for.
pub struct RawClaimsView {
    pub sub: Option<Seq<char>>,
    pub exp: Option<u64>,
}

impl View for RawClaims {
    type V = RawClaimsView;

    open spec fn view(&self) -> RawClaimsView {
        RawClaimsView { sub: text_view(self.sub), exp: self.exp }
    }
}

/// Why a token could not be decoded.
#[derive(Clone, Copy, Debug, PartialEq, Eq, Structural)]
pub enum DecodeFailure {
    /// The token has the shape of a token, but its signature is not the one
    /// that the secret gives.
    InvalidSignature,
    /// Anything else: not three segments, not base64, not JSON, another
    /// algorithm, no expiry.
    Unreadable,
}

/// The error type of the `jsonwebtoken` crate. Nothing is known of a value of it.
#[verifier::external_type_specification]
#[verifier::external_body]
pub struct ExJwtError(jsonwebtoken::errors::Error);

/// The token that `jsonwebtoken::encode` makes of a subject and an expiry
/// under a secret, or `None` where it fails.
pub uninterp spec fn jwt_encoded(
    subject: Seq<char>,
    expires_at: u64,
    secret: Seq<char>,
) -> Option<Seq<char>>;

/// What `jsonwebtoken::decode` finds in a token under a secret, the expiry
/// left unjudged.
pub uninterp spec fn jwt_decoded(token: Seq<char>, secret: Seq<char>) -> Result<
    RawClaimsView,
    DecodeFailure,
>;

/// Whether `token` is signed under `secret` and carries this subject and this
/// expiry: what [`TokenCodec::issue_at`] promises of every token it returns.
pub open spec fn carries(
    token: Seq<char>,
    secret: Seq<char>,
    subject: Seq<char>,
    expires_at: u64,
) -> bool {
    jwt_decoded(token, secret) == Ok::<RawClaimsView, DecodeFailure>(
        RawClaimsView { sub: Some(subject), exp: Some(expires_at) },
    )
}

/// The result of a decoding, the claims by their view.
pub open spec fn raw_claims_view(r: Result<RawClaims, DecodeFailure>) -> Result<
    RawClaimsView,
    DecodeFailure,
> {
    match r {
        Ok(raw) => Ok(raw@),
        Err(e) => Err(e),
    }
}

/// Calls `jsonwebtoken::encode` with the default header (HS256) on the claim
/// set `{exp, sub}`. The result depends on the three arguments alone: the
/// claims are serialised in one fixed order and HMAC draws no randomness.
///
/// Stated besides is the crate's round trip: what `encode` has signed under a
/// secret, `decode` accepts under the same secret and reads the same two
/// claims from.
#[verifier::external_body]
fn jwt_encode(subject: &str, expires_at: u64, secret: &str) -> (r: Result<
    String,
    jsonwebtoken::errors::Error,
>)
    ensures
        match r {
            Ok(token) => jwt_encoded(subject@, expires_at, secret@) == Some(token@),
            Err(_) => jwt_encoded(subject@, expires_at, secret@) is None,
        },
        r matches Ok(token) ==> carries(token@, secret@, subject@, expires_at),
{
    let mut claims = serde_json::Map::new();
    claims.insert("exp".to_owned(), serde_json::Value::from(expires_at));
    claims.insert("sub".to_owned(), serde_json::Value::from(subject));
    let key = jsonwebtoken::EncodingKey::from_secret(secret.as_bytes());
    jsonwebtoken::encode(&jsonwebtoken::Header::default(), &claims, &key)
}

/// Calls `jsonwebtoken::decode` for HS256 with the expiry check switched off,
/// so that the result depends on the token and the secret alone (the crate
/// would read the machine's clock). The signature, the shape of the token and
/// the presence of `exp` are checked by the crate. Of its errors only the kind
/// `InvalidSignature` is told apart.
#[verifier::external_body]
fn jwt_decode(token: &str, secret: &str) -> (r: Result<RawClaims, DecodeFailure>)
    ensures
        raw_claims_view(r) == jwt_decoded(token@, secret@),
{
    let mut validation = jsonwebtoken::Validation::new(jsonwebtoken::Algorithm::HS256);
    validation.validate_exp = false;
    let key = jsonwebtoken::DecodingKey::from_secret(secret.as_bytes());
    match jsonwebtoken::decode::<serde_json::Value>(token, &key, &validation) {
        Ok(data) => Ok(RawClaims {
            sub: data.claims.get("sub").and_then(serde_json::Value::as_str).map(str::to_owned),
            exp: data.claims.get("exp").and_then(serde_json::Value::as_u64),
        }),
        Err(e) => Err(match e.kind() {
            jsonwebtoken::errors::ErrorKind::InvalidSignature => DecodeFailure::InvalidSignature,
            _ => DecodeFailure::Unreadable,
        }),
    }
}

/// Calls `chrono::Utc::now` and takes its `timestamp`: the machine's clock, in
/// seconds since the Unix epoch. Nothing is claimed of the reading.
#[verifier::external_body]
fn clock_reading() -> i64 {
    chrono::Utc::now().timestamp()
}

/// The current time in seconds since the Unix epoch. A clock that stands
/// before the epoch counts as standing at the epoch.
pub fn now() -> (r: u64)
    ensures
        r <= i64::MAX,
{
    seconds_of(clock_reading())
}

/// The time that a clock reading stands for: the reading itself, and the
/// epoch for a reading before the epoch.
pub open spec fn spec_seconds_of(reading: i64) -> u64 {
    if reading < 0 {
        0
    } else {
        reading as u64
    }
}

/// The time that a clock reading stands for, in seconds since the Unix epoch.
#[verifier::when_used_as_spec(spec_seconds_of)]
pub fn seconds_of(reading: i64) -> (r: u64)
    ensures
        r == spec_seconds_of(reading),
{
    if reading < 0 {
        0
    } else {
        reading as u64
    }
}

/// What [`TokenCodec::issue_at`] returns for a subject at a time.
pub open spec fn issue_outcome(secret: Seq<char>, subject: Seq<char>, now: u64) -> Result<
    Seq<char>,
    AuthError,
> {
    match jwt_encoded(subject, (now + VALIDITY_SECONDS) as u64, secret) {
        Some(token) => Ok(token),
        None => Err(AuthError::HashingFailure),
    }
}

/// What validation makes of a decoded token at a time: the claims where both
/// are there and the expiry lies after `now`.
pub open spec fn validation_outcome(
    decoded: Result<RawClaimsView, DecodeFailure>,
    now: u64,
) -> Result<ClaimsView, AuthError> {
    match decoded {
        Err(DecodeFailure::InvalidSignature) => Err(AuthError::InvalidSignature),
        Err(DecodeFailure::Unreadable) => Err(AuthError::MalformedToken),
        Ok(raw) => match (raw.sub, raw.exp) {
            (Some(sub), Some(exp)) => if exp > now {
                Ok(ClaimsView { sub, exp })
            } else {
                Err(AuthError::Expired)
            },
            _ => Err(AuthError::MalformedToken),
        },
    }
}

/// The result of a validation, the claims by their view.
pub open spec fn claims_view(r: Result<Claims, AuthError>) -> Result<ClaimsView, AuthError> {
    match r {
        Ok(claims) => Ok(claims@),
        Err(e) => Err(e),
    }
}

/// The result of an issuance, the token by its view.
pub open spec fn token_view(r: Result<String, AuthError>) -> Result<Seq<char>, AuthError> {
    match r {
        Ok(token) => Ok(token@),
        Err(e) => Err(e),
    }
}

/// Issues and validates tokens under one secret. The secret is configuration:
/// it is set once and only read afterwards.
pub struct TokenCodec {
    secret: String,
}

impl TokenCodec {
    /// The signing secret.
    pub closed spec fn secret(&self) -> Seq<char> {
        self.secret@
    }

    /// A codec that signs and checks with `secret`.
    pub fn new(secret: String) -> (r: Self)
        ensures
            r.secret() == secret@,
    {
        TokenCodec { secret }
    }

    /// Issues a token for `subject` at time `now`: it expires 48 hours later.
    /// A token that comes back is signed under the secret and carries the
    /// subject and that expiry. Signing is deterministic.
    pub fn issue_at(&self, subject: &str, now: u64) -> (r: Result<String, AuthError>)
        requires
            now + VALIDITY_SECONDS <= u64::MAX,
        ensures
            token_view(r) == issue_outcome(self.secret(), subject@, now),
            r matches Ok(token) ==> carries(
                token@,
                self.secret(),
                subject@,
                (now + VALIDITY_SECONDS) as u64,
            ),
    {
        match jwt_encode(subject, now + VALIDITY_SECONDS, self.secret.as_str()) {
            Ok(token) => Ok(token),
            Err(_) => Err(AuthError::HashingFailure),
        }
    }

    /// Issues a token for `subject` at the current time.
    pub fn issue(&self, subject: &str) -> (r: Result<String, AuthError>)
        ensures
            exists|now: u64|
                now + VALIDITY_SECONDS <= u64::MAX && token_view(r) == #[trigger] issue_outcome(
                    self.secret(),
                    subject@,
                    now,
                ) && (r matches Ok(token) ==> carries(
                    token@,
                    self.secret(),
                    subject@,
                    (now + VALIDITY_SECONDS) as u64,
                )),
    {
        let now = now();
        self.issue_at(subject, now)
    }

    /// Judges a decoded token at time `now`. A failed signature is
    /// [`AuthError::InvalidSignature`]; anything else that could not be decoded,
    /// or lacks a claim, is [`AuthError::MalformedToken`]; an expiry that does
    /// not lie after `now` is [`AuthError::Expired`].
    pub fn check_decoded(decoded: Result<RawClaims, DecodeFailure>, now: u64) -> (r: Result<
        Claims,
        AuthError,
    >)
        ensures
            claims_view(r) == validation_outcome(raw_claims_view(decoded), now),
    {
        match decoded {
            Err(DecodeFailure::InvalidSignature) => Err(AuthError::InvalidSignature),
            Err(DecodeFailure::Unreadable) => Err(AuthError::MalformedToken),
            Ok(raw) => match (raw.sub, raw.exp) {
                (Some(sub), Some(exp)) => if exp > now {
                    Ok(Claims { sub, exp })
                } else {
                    Err(AuthError::Expired)
                },
                _ => Err(AuthError::MalformedToken),
            },
        }
    }

    /// Validates `token` at time `now`: its signature must hold under the
    /// secret and its expiry must lie after `now`.
    pub fn validate_at(&self, token: &str, now: u64) -> (r: Result<Claims, AuthError>)
        ensures
            claims_view(r) == validation_outcome(jwt_decoded(token@, self.secret()), now),
    {
        let decoded = jwt_decode(token, self.secret.as_str());
        Self::check_decoded(decoded, now)
    }

    /// Validates `token` at the current time.
    pub fn validate(&self, token: &str) -> (r: Result<Claims, AuthError>)
        ensures
            exists|now: u64|
                claims_view(r) == #[trigger] validation_outcome(
                    jwt_decoded(token@, self.secret()),
                    now,
                ),
    {
        let now = now();
        self.validate_at(token, now)
    }
}

/// A token that was issued validates, for as long as it has not expired, to
/// the subject it was issued for and to an expiry 48 hours after issuance.
pub proof fn law_issued_token_validates(
    secret: Seq<char>,
    subject: Seq<char>,
    issued_at: u64,
    token: Seq<char>,
    now: u64,
)
    requires
        issued_at + VALIDITY_SECONDS <= u64::MAX,
        carries(token, secret, subject, (issued_at + VALIDITY_SECONDS) as u64),
        now < issued_at + VALIDITY_SECONDS,
    ensures
        validation_outcome(jwt_decoded(token, secret), now) == Ok::<ClaimsView, AuthError>(
            ClaimsView { sub: subject, exp: (issued_at + VALIDITY_SECONDS) as u64 },
        ),
{
}

/// A token validated once its expiry has passed is expired, whoever it was
/// issued for.
pub proof fn law_expired_token_rejected(
    secret: Seq<char>,
    subject: Seq<char>,
    expires_at: u64,
    token: Seq<char>,
    now: u64,
)
    requires
        carries(token, secret, subject, expires_at),
        now >= expires_at,
    ensures
        validation_outcome(jwt_decoded(token, secret), now) == Err::<ClaimsView, AuthError>(
            AuthError::Expired,
        ),
{
}

/// Validity never comes back: a token that is valid at some time was valid at
/// every earlier time, and one that is expired stays expired.
pub proof fn law_expiry_is_final(
    decoded: Result<RawClaimsView, DecodeFailure>,
    earlier: u64,
    later: u64,
)
    requires
        earlier <= later,
    ensures
        validation_outcome(decoded, later) is Ok ==> validation_outcome(decoded, earlier)
            == validation_outcome(decoded, later),
        validation_outcome(decoded, earlier) == Err::<ClaimsView, AuthError>(AuthError::Expired)
            ==> validation_outcome(decoded, later) == Err::<ClaimsView, AuthError>(
            AuthError::Expired,
        ),
{
}

} // verus!
