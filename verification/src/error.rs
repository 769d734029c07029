//! The failures that authentication, authorisation and hashing can end in.

use vstd::prelude::*;

verus! {

/// Why a request was turned away.
///
/// The first five kinds all surface as one "unauthorized" answer; the
/// distinction is kept for diagnostics only. The last two are failures of the
/// infrastructure and surface as a server error.
#[derive(Clone, Copy, Debug, PartialEq, Eq, Structural)]
pub enum AuthError {
    /// No bearer credential accompanied the request.
    MissingToken,
    /// The credential could not be read as a token.
    MalformedToken,
    /// The token's signature does not match its content.
    InvalidSignature,
    /// The token's validity window has closed.
    Expired,
    /// The caller is authenticated but does not own the resource.
    IdentityMismatch,
    /// Hashing or signing failed for a reason unrelated to the input.
    HashingFailure,
    /// The data store failed.
    StoreError,
}

/// The status family a failure is reported under.
#[derive(Clone, Copy, Debug, PartialEq, Eq, Structural)]
pub enum Disposition {
    /// The caller is not allowed; no detail is given away.
    Unauthorized,
    /// The service itself failed.
    ServerError,
}

impl AuthError {
    /// Whether the failure is reported as "unauthorized".
    pub open spec fn spec_is_unauthorized(self) -> bool {
        self != AuthError::HashingFailure && self != AuthError::StoreError
    }

    /// Whether the failure is reported as "unauthorized".
    #[verifier::when_used_as_spec(spec_is_unauthorized)]
    pub fn is_unauthorized(self) -> (r: bool)
        ensures
            r == self.spec_is_unauthorized(),
    {
        match self {
            AuthError::HashingFailure | AuthError::StoreError => false,
            _ => true,
        }
    }

    /// The status family of the failure.
    pub open spec fn spec_disposition(self) -> Disposition {
        if self.spec_is_unauthorized() {
            Disposition::Unauthorized
        } else {
            Disposition::ServerError
        }
    }

    /// The status family of the failure.
    #[verifier::when_used_as_spec(spec_disposition)]
    pub fn disposition(self) -> (r: Disposition)
        ensures
            r == self.spec_disposition(),
    {
        if self.is_unauthorized() {
            Disposition::Unauthorized
        } else {
            Disposition::ServerError
        }
    }
}

impl Disposition {
    /// The HTTP status code of the family.
    pub open spec fn spec_status_code(self) -> u16 {
        match self {
            Disposition::Unauthorized => 401,
            Disposition::ServerError => 500,
        }
    }

    /// The HTTP status code of the family.
    #[verifier::when_used_as_spec(spec_status_code)]
    pub fn status_code(self) -> (r: u16)
        ensures
            r == self.spec_status_code(),
    {
        match self {
            Disposition::Unauthorized => 401,
            Disposition::ServerError => 500,
        }
    }
}

} // verus!
