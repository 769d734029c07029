//! Accounts: creation with a hashed password, login, and the two protected
//! mutations of an account, update and deletion.

use vstd::prelude::*;
use crate::error::AuthError;
use crate::guard::{
    authentication_outcome, context_view, identity_of, ownership_outcome, AuthorizationContext,
    AuthorizationGuard, OwnerKey,
};
use crate::hasher::{is_digest_of, verify_outcome, CredentialHasher};
use crate::store::{row_id, row_id_of};
use crate::text::{decimal, slice_view, text_view};
use crate::token::{carries, claims_view, issue_outcome, Claims, TokenCodec, VALIDITY_SECONDS};
use crate::update::{
    build_outcome, field_views, sealed, FieldView, PartialUpdateBuilder, UpdateOutcome,
};

verus! {

/// An account as the store holds it. `mot_de_passe` is a digest, never a
/// plaintext.
#[derive(Debug)]
pub struct User {
    pub id: i32,
    pub type_user_id: i32,
    pub nom: String,
    pub prenom: String,
    pub email: String,
    pub numero_telephone: String,
    pub mot_de_passe: String,
}

/// What a [`User`] stands for.
pub struct UserView {
    pub id: i32,
    pub type_user_id: i32,
    pub nom: Seq<char>,
    pub prenom: Seq<char>,
    pub email: Seq<char>,
    pub numero_telephone: Seq<char>,
    pub mot_de_passe: Seq<char>,
}

impl View for User {
    type V = UserView;

    open spec fn view(&self) -> UserView {
        UserView {
            id: self.id,
            type_user_id: self.type_user_id,
            nom: self.nom@,
            prenom: self.prenom@,
            email: self.email@,
            numero_telephone: self.numero_telephone@,
            mot_de_passe: self.mot_de_passe@,
        }
    }
}

/// The row of an account that is about to be inserted: the password is
/// already hashed, the id not yet given.
#[derive(Debug)]
pub struct NewUser {
    pub type_user_id: i32,
    pub nom: String,
    pub prenom: String,
    pub email: String,
    pub numero_telephone: String,
    pub mot_de_passe: String,
}

/// The part of an account that a login answers with: everything but the digest.
#[derive(Debug)]
pub struct PublicUser {
    pub id: i32,
    pub nom: String,
    pub prenom: String,
    pub email: String,
    pub numero_telephone: String,
    pub type_user_id: i32,
}

/// What a successful login answers with.
#[derive(Debug)]
pub struct LoginResponse {
    pub user: PublicUser,
    pub token: String,
}

/// Why a login did not succeed.
#[derive(Clone, Copy, Debug, PartialEq, Eq, Structural)]
pub enum LoginError {
    /// Unknown email or wrong password: the two are not told apart.
    InvalidCredentials,
    /// The service failed.
    Failure(AuthError),
}

/// The body of an account update: every field is optional.
#[derive(Debug)]
pub struct UpdateUser {
    pub nom: Option<String>,
    pub prenom: Option<String>,
    pub email: Option<String>,
    pub numero_telephone: Option<String>,
    pub mot_de_passe: Option<String>,
}

/// The fields of an account update, in the order in which they are assigned.
/// The password takes part by its digest.
pub open spec fn user_fields(form: UpdateUser, digest: Option<Seq<char>>) -> Seq<FieldView> {
    seq![
        FieldView { column: "nom"@, value: text_view(form.nom) },
        FieldView { column: "prenom"@, value: text_view(form.prenom) },
        FieldView { column: "email"@, value: text_view(form.email) },
        FieldView { column: "numero_telephone"@, value: text_view(form.numero_telephone) },
        FieldView { column: "mot_de_passe"@, value: digest },
    ]
}

/// What a login makes of the check of the password: a match lets the login
/// go on, a mismatch is [`LoginError::InvalidCredentials`], and a digest that
/// could not be read is a failure of the service.
pub open spec fn verdict_outcome(verdict: Result<bool, AuthError>) -> Result<(), LoginError> {
    match verdict {
        Ok(true) => Ok(()),
        Ok(false) => Err(LoginError::InvalidCredentials),
        Err(e) => Err(LoginError::Failure(e)),
    }
}

/// What a login with `password` makes of a stored account at time `now`: the
/// token, where the password matches the stored digest.
pub open spec fn login_outcome(
    user: UserView,
    secret: Seq<char>,
    password: Seq<char>,
    now: u64,
) -> Result<Seq<char>, LoginError> {
    match verdict_outcome(verify_outcome(password, user.mot_de_passe)) {
        Ok(_) => match issue_outcome(secret, user.email, now) {
            Ok(token) => Ok(token),
            Err(e) => Err(LoginError::Failure(e)),
        },
        Err(e) => Err(e),
    }
}

/// Judges the check of a password at login.
pub fn login_verdict(verdict: Result<bool, AuthError>) -> (r: Result<(), LoginError>)
    ensures
        r == verdict_outcome(verdict),
{
    match verdict {
        Ok(true) => Ok(()),
        Ok(false) => Err(LoginError::InvalidCredentials),
        Err(e) => Err(LoginError::Failure(e)),
    }
}

/// Reads the bearer token of a request and validates it under `secret` at the
/// current time.
pub fn validate_token(authorization: Option<&str>, secret: &str) -> (r: Result<
    Claims,
    AuthError,
>)
    ensures
        exists|now: u64|
            claims_view(r) == #[trigger] authentication_outcome(
                secret@,
                slice_view(authorization),
                now,
            ),
{
    let guard = AuthorizationGuard::new(TokenCodec::new(secret.to_owned()));
    guard.authenticate(authorization)
}

impl User {
    /// Lays out the row of a new account: the password is hashed, everything
    /// else is taken as it is.
    pub fn prepare(
        hasher: &CredentialHasher,
        type_user_id: i32,
        nom: String,
        prenom: String,
        email: String,
        numero_telephone: String,
        mot_de_passe: &str,
    ) -> (r: Result<NewUser, AuthError>)
        ensures
            match r {
                Ok(row) => {
                    &&& row.type_user_id == type_user_id
                    &&& row.nom == nom
                    &&& row.prenom == prenom
                    &&& row.email == email
                    &&& row.numero_telephone == numero_telephone
                    &&& is_digest_of(row.mot_de_passe@, mot_de_passe@)
                },
                Err(e) => e == AuthError::HashingFailure,
            },
    {
        match hasher.hash(mot_de_passe) {
            Ok(digest) => Ok(
                NewUser {
                    type_user_id,
                    nom,
                    prenom,
                    email,
                    numero_telephone,
                    mot_de_passe: digest,
                },
            ),
            Err(e) => Err(e),
        }
    }

    /// The account that now exists, from the row that was inserted and the
    /// insert id that the store reported.
    pub fn create(row: NewUser, last_insert_id: u64) -> (r: User)
        ensures
            r.id == row_id(last_insert_id),
            r.type_user_id == row.type_user_id,
            r.nom == row.nom,
            r.prenom == row.prenom,
            r.email == row.email,
            r.numero_telephone == row.numero_telephone,
            r.mot_de_passe == row.mot_de_passe,
    {
        User {
            id: row_id_of(last_insert_id),
            type_user_id: row.type_user_id,
            nom: row.nom,
            prenom: row.prenom,
            email: row.email,
            numero_telephone: row.numero_telephone,
            mot_de_passe: row.mot_de_passe,
        }
    }

    /// Checks `mot_de_passe` against the stored digest and, where it matches,
    /// issues a token for the account's email at time `now`.
    pub fn authenticate(
        self,
        hasher: &CredentialHasher,
        codec: &TokenCodec,
        mot_de_passe: &str,
        now: u64,
    ) -> (r: Result<(User, String), LoginError>)
        requires
            now + VALIDITY_SECONDS <= u64::MAX,
        ensures
            match r {
                Ok((user, token)) => {
                    &&& user == self
                    &&& login_outcome(self@, codec.secret(), mot_de_passe@, now) == Ok::<
                        Seq<char>,
                        LoginError,
                    >(token@)
                    &&& carries(
                        token@,
                        codec.secret(),
                        self.email@,
                        (now + VALIDITY_SECONDS) as u64,
                    )
                },
                Err(e) => login_outcome(self@, codec.secret(), mot_de_passe@, now) == Err::<
                    Seq<char>,
                    LoginError,
                >(e),
            },
    {
        match login_verdict(hasher.verify(mot_de_passe, self.mot_de_passe.as_str())) {
            Ok(_) => match codec.issue_at(self.email.as_str(), now) {
                Ok(token) => Ok((self, token)),
                Err(e) => Err(LoginError::Failure(e)),
            },
            Err(e) => Err(e),
        }
    }

    /// The account without its digest.
    pub fn public(&self) -> (r: PublicUser)
        ensures
            r.id == self.id,
            r.nom == self.nom,
            r.prenom == self.prenom,
            r.email == self.email,
            r.numero_telephone == self.numero_telephone,
            r.type_user_id == self.type_user_id,
    {
        PublicUser {
            id: self.id,
            nom: self.nom.clone(),
            prenom: self.prenom.clone(),
            email: self.email.clone(),
            numero_telephone: self.numero_telephone.clone(),
            type_user_id: self.type_user_id,
        }
    }
}

/// Decides a login. `credential` is the account that the store holds for the
/// email, `None` where it holds none. An unknown email and a wrong password
/// end in the same [`LoginError::InvalidCredentials`].
pub fn login_user(
    hasher: &CredentialHasher,
    codec: &TokenCodec,
    credential: Option<User>,
    mot_de_passe: &str,
    now: u64,
) -> (r: Result<LoginResponse, LoginError>)
    requires
        now + VALIDITY_SECONDS <= u64::MAX,
    ensures
        match credential {
            Some(user) => match r {
                Ok(response) => {
                    &&& login_outcome(user@, codec.secret(), mot_de_passe@, now) == Ok::<
                        Seq<char>,
                        LoginError,
                    >(response.token@)
                    &&& carries(
                        response.token@,
                        codec.secret(),
                        user.email@,
                        (now + VALIDITY_SECONDS) as u64,
                    )
                    &&& response.user.id == user.id
                    &&& response.user.nom == user.nom
                    &&& response.user.prenom == user.prenom
                    &&& response.user.email == user.email
                    &&& response.user.numero_telephone == user.numero_telephone
                    &&& response.user.type_user_id == user.type_user_id
                },
                Err(e) => login_outcome(user@, codec.secret(), mot_de_passe@, now) == Err::<
                    Seq<char>,
                    LoginError,
                >(e),
            },
            None => r matches Err(e) && e == LoginError::InvalidCredentials,
        },
{
    match credential {
        Some(user) => match user.authenticate(hasher, codec, mot_de_passe, now) {
            Ok((user, token)) => Ok(LoginResponse { user: user.public(), token }),
            Err(e) => Err(e),
        },
        None => Err(LoginError::InvalidCredentials),
    }
}

/// Decides the update of account `id` for a caller with validated `claims`.
/// `owner` is the answer of the owner lookup: the email of account `id`.
///
/// Nothing is built unless the caller owns the account. For the owner the
/// supplied fields become one statement on table `users`, the password by its
/// digest; with no field supplied the outcome is a no-op.
pub fn update_user(
    hasher: &CredentialHasher,
    claims: &Claims,
    owner: Option<&OwnerKey>,
    id: i32,
    form: UpdateUser,
) -> (r: Result<UpdateOutcome, AuthError>)
    ensures
        match ownership_outcome(claims@, identity_of(owner)) {
            Ok(_) => match r {
                Ok(outcome) => exists|digest: Option<Seq<char>>|
                    sealed(text_view(form.mot_de_passe), digest) && outcome@
                        == #[trigger] build_outcome("users"@, id as int, user_fields(form, digest)),
                Err(e) => e == AuthError::HashingFailure && form.mot_de_passe is Some,
            },
            Err(refusal) => r matches Err(e) && e == refusal,
        },
{
    match AuthorizationGuard::check_owner(claims, owner) {
        Ok(_) => {},
        Err(e) => {
            return Err(e);
        },
    }
    let mut builder = PartialUpdateBuilder::new("users", id);
    builder.set("nom", form.nom);
    builder.set("prenom", form.prenom);
    builder.set("email", form.email);
    builder.set("numero_telephone", form.numero_telephone);
    let ghost before = builder;
    let password = match &form.mot_de_passe {
        Some(p) => Some(p.as_str()),
        None => None,
    };
    match builder.set_secret(hasher, "mot_de_passe", password) {
        Ok(_) => {},
        Err(e) => {
            return Err(e);
        },
    }
    proof {
        let digest = choose|digest: Option<Seq<char>>|
            sealed(slice_view(password), digest) && field_views(builder.fields@)
                == #[trigger] field_views(before.fields@).push(
                FieldView { column: "mot_de_passe"@, value: digest },
            );
        assert(field_views(builder.fields@) =~= user_fields(form, digest));
    }
    Ok(builder.build())
}

/// Decides the deletion of account `id` for a caller with validated `claims`:
/// the caller passes only where the subject of the token is the decimal
/// numeral of `id`.
pub fn delete_user(claims: &Claims, id: i32) -> (r: Result<AuthorizationContext, AuthError>)
    ensures
        context_view(r) == ownership_outcome(claims@, Some(decimal(id as int))),
{
    let owner = OwnerKey::NumericId(id);
    AuthorizationGuard::check_owner(claims, Some(&owner))
}

} // verus!
