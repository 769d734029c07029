//! The guard in front of every protected mutation: it reads the bearer token
//! of a request, validates it, and lets the caller through only where the
//! identity in the token is the owner of the resource.

use vstd::prelude::*;
use crate::error::AuthError;
use crate::text::{
    decimal, decimal_text, law_decimal_is_injective, same_text, slice_view, strip_prefix,
};
use crate::token::{
    carries, claims_view, jwt_decoded, now, validation_outcome, Claims, ClaimsView, TokenCodec,
};

verus! {

/// The identity by which the owner of a resource is compared with the subject
/// of a token. Each endpoint names its key.
#[derive(Debug)]
pub enum OwnerKey {
    /// The owner's email address, as the store holds it.
    Email(String),
    /// The owner's numeric id, compared by its decimal numeral.
    NumericId(i32),
}

impl OwnerKey {
    /// The text that the subject of a token must equal.
    pub open spec fn identity(self) -> Seq<char> {
        match self {
            OwnerKey::Email(email) => email@,
            OwnerKey::NumericId(id) => decimal(id as int),
        }
    }

    /// The text that the subject of a token must equal.
    pub fn to_identity(&self) -> (r: String)
        ensures
            r@ == self.identity(),
    {
        match self {
            OwnerKey::Email(email) => email.clone(),
            OwnerKey::NumericId(id) => decimal_text(*id),
        }
    }
}

/// Who a request was made by, once its token is validated and the caller is
/// known to own the resource. It lives as long as the request.
#[derive(Debug)]
pub struct AuthorizationContext {
    caller_subject: String,
}

/// What an [`AuthorizationContext`] stands for.
pub struct ContextView {
    pub caller_subject: Seq<char>,
}

impl View for AuthorizationContext {
    type V = ContextView;

    closed spec fn view(&self) -> ContextView {
        ContextView { caller_subject: self.caller_subject@ }
    }
}

impl AuthorizationContext {
    /// The subject of the caller's token.
    pub fn caller_subject(&self) -> (r: &str)
        ensures
            r@ == self@.caller_subject,
    {
        self.caller_subject.as_str()
    }
}

/// The scheme word and the space that precede a bearer token.
pub open spec fn bearer_prefix() -> Seq<char> {
    "Bearer "@
}

/// The token in the value of an authorization header: what follows `Bearer `.
/// A request without the header, or with another scheme, has no token.
pub open spec fn bearer_of(authorization: Option<Seq<char>>) -> Result<Seq<char>, AuthError> {
    match authorization {
        Some(value) => if bearer_prefix().is_prefix_of(value) {
            Ok(value.skip(bearer_prefix().len() as int))
        } else {
            Err(AuthError::MissingToken)
        },
        None => Err(AuthError::MissingToken),
    }
}

/// What authentication makes of an authorization header at a time.
pub open spec fn authentication_outcome(
    secret: Seq<char>,
    authorization: Option<Seq<char>>,
    now: u64,
) -> Result<ClaimsView, AuthError> {
    match bearer_of(authorization) {
        Ok(token) => validation_outcome(jwt_decoded(token, secret), now),
        Err(e) => Err(e),
    }
}

/// What the comparison with the owner makes of validated claims. `owner` is
/// the answer of the owner lookup, `None` where the lookup failed.
pub open spec fn ownership_outcome(claims: ClaimsView, owner: Option<Seq<char>>) -> Result<
    ContextView,
    AuthError,
> {
    match owner {
        Some(identity) => if claims.sub == identity {
            Ok(ContextView { caller_subject: claims.sub })
        } else {
            Err(AuthError::IdentityMismatch)
        },
        None => Err(AuthError::StoreError),
    }
}

/// What authorization makes of a header, a time and the answer of the owner
/// lookup: the token is judged first, the owner second.
pub open spec fn authorization_outcome(
    secret: Seq<char>,
    authorization: Option<Seq<char>>,
    now: u64,
    owner: Option<Seq<char>>,
) -> Result<ContextView, AuthError> {
    match authentication_outcome(secret, authorization, now) {
        Ok(claims) => ownership_outcome(claims, owner),
        Err(e) => Err(e),
    }
}

/// The answer of an owner lookup by the identity it names.
pub open spec fn identity_view(owner: Option<OwnerKey>) -> Option<Seq<char>> {
    match owner {
        Some(key) => Some(key.identity()),
        None => None,
    }
}

/// The answer of an owner lookup, held by reference, by the identity it names.
pub open spec fn identity_of(owner: Option<&OwnerKey>) -> Option<Seq<char>> {
    match owner {
        Some(key) => Some(key.identity()),
        None => None,
    }
}

/// The result of an authorization, the context by its view.
pub open spec fn context_view(r: Result<AuthorizationContext, AuthError>) -> Result<
    ContextView,
    AuthError,
> {
    match r {
        Ok(context) => Ok(context@),
        Err(e) => Err(e),
    }
}

/// The result of a token extraction, the token by its view.
pub open spec fn bearer_view(r: Result<&str, AuthError>) -> Result<Seq<char>, AuthError> {
    match r {
        Ok(token) => Ok(token@),
        Err(e) => Err(e),
    }
}

/// The bearer token of a request, from the value of its authorization header.
pub fn bearer_token<'a>(authorization: Option<&'a str>) -> (r: Result<&'a str, AuthError>)
    ensures
        bearer_view(r) == bearer_of(slice_view(authorization)),
{
    match authorization {
        Some(value) => match strip_prefix(value, "Bearer ") {
            Some(token) => Ok(token),
            None => Err(AuthError::MissingToken),
        },
        None => Err(AuthError::MissingToken),
    }
}

/// Authorizes requests against the owners of the resources they target.
pub struct AuthorizationGuard {
    codec: TokenCodec,
}

impl AuthorizationGuard {
    /// The secret under which the guard validates tokens.
    pub closed spec fn secret(&self) -> Seq<char> {
        self.codec.secret()
    }

    /// A guard that validates tokens with `codec`.
    pub fn new(codec: TokenCodec) -> (r: Self)
        ensures
            r.secret() == codec.secret(),
    {
        AuthorizationGuard { codec }
    }

    /// Reads the bearer token of a request and validates it at time `now`.
    pub fn authenticate_at(&self, authorization: Option<&str>, now: u64) -> (r: Result<
        Claims,
        AuthError,
    >)
        ensures
            claims_view(r) == authentication_outcome(self.secret(), slice_view(authorization), now),
    {
        match bearer_token(authorization) {
            Ok(token) => self.codec.validate_at(token, now),
            Err(e) => Err(e),
        }
    }

    /// Reads the bearer token of a request and validates it at the current time.
    pub fn authenticate(&self, authorization: Option<&str>) -> (r: Result<Claims, AuthError>)
        ensures
            exists|now: u64|
                claims_view(r) == #[trigger] authentication_outcome(
                    self.secret(),
                    slice_view(authorization),
                    now,
                ),
    {
        let now = now();
        self.authenticate_at(authorization, now)
    }

    /// Compares validated claims with the owner that the lookup resolved. The
    /// caller passes only where the subject equals the owner's identity; a
    /// failed lookup is [`AuthError::StoreError`].
    pub fn check_owner(claims: &Claims, owner: Option<&OwnerKey>) -> (r: Result<
        AuthorizationContext,
        AuthError,
    >)
        ensures
            context_view(r) == ownership_outcome(claims@, identity_of(owner)),
    {
        match owner {
            Some(key) => {
                let identity = key.to_identity();
                if same_text(claims.sub.as_str(), identity.as_str()) {
                    Ok(AuthorizationContext { caller_subject: claims.sub.clone() })
                } else {
                    Err(AuthError::IdentityMismatch)
                }
            },
            None => Err(AuthError::StoreError),
        }
    }

    /// Authorizes a request at time `now`: extracts the bearer token, validates
    /// it, resolves the owner of the resource through `lookup` and compares.
    /// The lookup is consulted only once the token is found valid; an error of
    /// the token is passed on as it is.
    pub fn authorize_at<F: FnOnce() -> Option<OwnerKey>>(
        &self,
        authorization: Option<&str>,
        now: u64,
        lookup: F,
    ) -> (r: Result<AuthorizationContext, AuthError>)
        requires
            lookup.requires(()),
        ensures
            match authentication_outcome(self.secret(), slice_view(authorization), now) {
                Ok(claims) => exists|owner: Option<OwnerKey>|
                    #[trigger] lookup.ensures((), owner) && context_view(r) == ownership_outcome(
                        claims,
                        identity_view(owner),
                    ),
                Err(e) => context_view(r) == Err::<ContextView, AuthError>(e),
            },
    {
        match self.authenticate_at(authorization, now) {
            Ok(claims) => {
                let owner = lookup();
                Self::check_owner(&claims, owner.as_ref())
            },
            Err(e) => Err(e),
        }
    }

    /// Authorizes a request at the current time.
    pub fn authorize<F: FnOnce() -> Option<OwnerKey>>(
        &self,
        authorization: Option<&str>,
        lookup: F,
    ) -> (r: Result<AuthorizationContext, AuthError>)
        requires
            lookup.requires(()),
        ensures
            exists|now: u64|
                match #[trigger] authentication_outcome(
                    self.secret(),
                    slice_view(authorization),
                    now,
                ) {
                    Ok(claims) => exists|owner: Option<OwnerKey>|
                        #[trigger] lookup.ensures((), owner) && context_view(r)
                            == ownership_outcome(claims, identity_view(owner)),
                    Err(e) => context_view(r) == Err::<ContextView, AuthError>(e),
                },
    {
        let now = now();
        self.authorize_at(authorization, now, lookup)
    }
}

/// A header made of the scheme and a token carries that token.
pub proof fn law_bearer_header_carries_token(token: Seq<char>)
    ensures
        bearer_of(Some(bearer_prefix() + token)) == Ok::<Seq<char>, AuthError>(token),
{
    let header = bearer_prefix() + token;
    assert(header.subrange(0, bearer_prefix().len() as int) =~= bearer_prefix());
    assert(header.skip(bearer_prefix().len() as int) =~= token);
}

/// The owner who presents a token that was issued for them, before it
/// expires, is let through, and the context names them.
pub proof fn law_owner_with_valid_token_passes(
    secret: Seq<char>,
    token: Seq<char>,
    subject: Seq<char>,
    expires_at: u64,
    now: u64,
)
    requires
        carries(token, secret, subject, expires_at),
        now < expires_at,
    ensures
        authorization_outcome(secret, Some(bearer_prefix() + token), now, Some(subject)) == Ok::<
            ContextView,
            AuthError,
        >(ContextView { caller_subject: subject }),
{
    law_bearer_header_carries_token(token);
}

/// A caller with a valid token who is not the owner is turned away with
/// [`AuthError::IdentityMismatch`], whatever else the request holds.
pub proof fn law_stranger_is_turned_away(
    secret: Seq<char>,
    authorization: Option<Seq<char>>,
    now: u64,
    owner: Seq<char>,
)
    requires
        authentication_outcome(secret, authorization, now) matches Ok(claims) && claims.sub
            != owner,
    ensures
        authorization_outcome(secret, authorization, now, Some(owner)) == Err::<
            ContextView,
            AuthError,
        >(AuthError::IdentityMismatch),
{
}

/// Authorization succeeds exactly where the token is valid and its subject is
/// the owner; the context then names that subject.
pub proof fn law_only_the_owner_passes(
    secret: Seq<char>,
    authorization: Option<Seq<char>>,
    now: u64,
    owner: Option<Seq<char>>,
)
    ensures
        authorization_outcome(secret, authorization, now, owner) is Ok <==> (
        authentication_outcome(secret, authorization, now) matches Ok(claims) && owner == Some(
            claims.sub,
        )),
        authorization_outcome(secret, authorization, now, owner) matches Ok(context) ==> owner
            == Some(context.caller_subject),
{
}

/// Under the numeric-id key one subject owns at most one id: claims that pass
/// for two ids pass for the same id twice.
pub proof fn law_numeric_key_names_one_id(claims: ClaimsView, first: i32, second: i32)
    requires
        ownership_outcome(claims, Some(OwnerKey::NumericId(first).identity())) is Ok,
        ownership_outcome(claims, Some(OwnerKey::NumericId(second).identity())) is Ok,
    ensures
        first == second,
{
    law_decimal_is_injective(first as int, second as int);
}

} // verus!
