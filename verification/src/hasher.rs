//! One-way hashing of credentials, and the check of a plaintext against a
//! stored digest.
//!
//! Hashing is bcrypt: slow by design, salted afresh on every call, and
//! reading no more than the first 72 bytes of a plaintext.

use vstd::prelude::*;
use crate::error::AuthError;
use crate::text::digit;

verus! {

/// The error type of the `bcrypt` crate. Nothing is known of a value of it.
#[verifier::external_type_specification]
#[verifier::external_body]
pub struct ExBcryptError(bcrypt::BcryptError);

/// What `bcrypt::verify` answers for a plaintext and a digest: whether the
/// digest was made from the plaintext, or `None` where the digest is not a
/// well-formed bcrypt hash.
pub uninterp spec fn bcrypt_verdict(plaintext: Seq<char>, digest: Seq<char>) -> Option<bool>;

/// How many characters a digest has.
pub const DIGEST_LENGTH: usize = 60;

/// How every digest made at `cost` begins: the version tag, the cost in two
/// digits, and the separator before the salt.
pub open spec fn digest_head(cost: u32) -> Seq<char> {
    "$2b$"@ + seq![digit(cost as int / 10), digit(cost as int % 10)] + "$"@
}

/// Calls `bcrypt::hash`, which salts the plaintext with fresh random bytes, so
/// that two calls on one plaintext give different digests. Two things are
/// stated of the digest. The first is the crate's round trip: `bcrypt::verify`
/// parses the salt and the cost back out of the digest, hashes the plaintext
/// again and finds the same bytes. The second is the layout that the crate
/// formats a digest in: `$2b$`, the cost in two digits, `$`, then 22
/// characters of salt and 31 of hash.
#[verifier::external_body]
fn bcrypt_hash(plaintext: &str, cost: u32) -> (r: Result<String, bcrypt::BcryptError>)
    ensures
        r matches Ok(digest) ==> bcrypt_verdict(plaintext@, digest@) == Some(true),
        r matches Ok(digest) ==> digest@.len() == DIGEST_LENGTH && digest_head(cost).is_prefix_of(
            digest@,
        ),
{
    bcrypt::hash(plaintext, cost)
}

/// Calls `bcrypt::verify`, which depends on its two arguments alone and
/// compares in constant time. It fails only where the digest cannot be parsed.
#[verifier::external_body]
fn bcrypt_verify(plaintext: &str, digest: &str) -> (r: Result<bool, bcrypt::BcryptError>)
    ensures
        match r {
            Ok(matches) => bcrypt_verdict(plaintext@, digest@) == Some(matches),
            Err(_) => bcrypt_verdict(plaintext@, digest@) is None,
        },
{
    bcrypt::verify(plaintext, digest)
}

/// The lowest cost factor that can be hashed with.
pub const MIN_COST: u32 = 4;

/// The highest cost factor that can be hashed with.
pub const MAX_COST: u32 = 31;

/// The cost factor used where none is configured.
pub const DEFAULT_COST: u32 = 12;

/// Whether `digest` is a digest of `plaintext`: what [`CredentialHasher::hash`]
/// promises of every digest that it returns.
pub open spec fn is_digest_of(digest: Seq<char>, plaintext: Seq<char>) -> bool {
    bcrypt_verdict(plaintext, digest) == Some(true)
}

/// What [`CredentialHasher::verify`] returns for a plaintext and a digest.
pub open spec fn verify_outcome(plaintext: Seq<char>, digest: Seq<char>) -> Result<
    bool,
    AuthError,
> {
    match bcrypt_verdict(plaintext, digest) {
        Some(matches) => Ok(matches),
        None => Err(AuthError::HashingFailure),
    }
}

/// Hashes credentials at a fixed cost factor. The cost is configuration: it is
/// set once and only read afterwards.
#[derive(Debug)]
pub struct CredentialHasher {
    cost: u32,
}

impl CredentialHasher {
    #[verifier::type_invariant]
    spec fn well_formed(self) -> bool {
        MIN_COST <= self.cost <= MAX_COST
    }

    /// The cost factor.
    pub closed spec fn spec_cost(&self) -> u32 {
        self.cost
    }

    /// A hasher with the given cost factor, where the factor can be hashed with.
    pub fn new(cost: u32) -> (r: Option<Self>)
        ensures
            r is Some <==> MIN_COST <= cost <= MAX_COST,
            r matches Some(hasher) ==> hasher.spec_cost() == cost,
    {
        if MIN_COST <= cost && cost <= MAX_COST {
            Some(CredentialHasher { cost })
        } else {
            None
        }
    }

    /// A hasher with the default cost factor.
    pub fn with_default_cost() -> (r: Self)
        ensures
            r.spec_cost() == DEFAULT_COST,
    {
        CredentialHasher { cost: DEFAULT_COST }
    }

    /// The cost factor.
    #[verifier::when_used_as_spec(spec_cost)]
    pub fn cost(&self) -> (r: u32)
        ensures
            r == self.spec_cost(),
            MIN_COST <= r <= MAX_COST,
    {
        proof {
            use_type_invariant(self);
        }
        self.cost
    }

    /// Hashes a plaintext under a fresh salt. What comes back is a digest of
    /// the plaintext, so [`CredentialHasher::verify`] accepts it, in the
    /// fixed layout of 60 characters that begins with the cost. The only
    /// failure is [`AuthError::HashingFailure`], and it never comes from what
    /// the plaintext holds.
    pub fn hash(&self, plaintext: &str) -> (r: Result<String, AuthError>)
        ensures
            match r {
                Ok(digest) => {
                    &&& is_digest_of(digest@, plaintext@)
                    &&& digest@.len() == DIGEST_LENGTH
                    &&& digest_head(self.spec_cost()).is_prefix_of(digest@)
                },
                Err(e) => e == AuthError::HashingFailure,
            },
    {
        match bcrypt_hash(plaintext, self.cost) {
            Ok(digest) => Ok(digest),
            Err(_) => Err(AuthError::HashingFailure),
        }
    }

    /// Whether `digest` was made from `plaintext`. A mismatch is `Ok(false)`;
    /// only a digest that cannot be parsed is a failure.
    pub fn verify(&self, plaintext: &str, digest: &str) -> (r: Result<bool, AuthError>)
        ensures
            r == verify_outcome(plaintext@, digest@),
    {
        match bcrypt_verify(plaintext, digest) {
            Ok(matches) => Ok(matches),
            Err(_) => Err(AuthError::HashingFailure),
        }
    }
}

/// Hashing, then verifying: a digest of a plaintext is accepted for that
/// plaintext, whatever the plaintext and whatever salt was drawn.
pub proof fn law_hash_then_verify(plaintext: Seq<char>, digest: Seq<char>)
    requires
        is_digest_of(digest, plaintext),
    ensures
        verify_outcome(plaintext, digest) == Ok::<bool, AuthError>(true),
{
}

} // verus!
