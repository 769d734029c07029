//! Domains: the records that an account owns.

use vstd::prelude::*;
use crate::error::AuthError;
use crate::update::{build_outcome, field_views, FieldView, PartialUpdateBuilder, UpdateOutcome};
use crate::store::{row_id, row_id_of};
use crate::text::text_view;

verus! {

/// A domain as the store holds it.
#[derive(Debug)]
pub struct Domaine {
    pub id: i32,
    pub user_id: i32,
    pub nom_domaine: String,
}

/// The body of a request that creates a domain.
#[derive(Debug)]
pub struct CreateDomaine {
    pub user_id: i32,
    pub nom_domaine: String,
}

impl Domaine {
    /// The domain that now exists, from what was inserted and the insert id
    /// that the store reported.
    pub fn create(last_insert_id: u64, user_id: i32, nom_domaine: String) -> (r: Domaine)
        ensures
            r.id == row_id(last_insert_id),
            r.user_id == user_id,
            r.nom_domaine == nom_domaine,
    {
        Domaine { id: row_id_of(last_insert_id), user_id, nom_domaine }
    }

    /// Decides the renaming of domain `id`: a statement on table `domaines`
    /// where a name is supplied, a no-op where none is.
    pub fn update_domaine(id: i32, nom_domaine: Option<String>) -> (r: UpdateOutcome)
        ensures
            r@ == build_outcome(
                "domaines"@,
                id as int,
                seq![FieldView { column: "nom_domaine"@, value: text_view(nom_domaine) }],
            ),
    {
        let mut builder = PartialUpdateBuilder::new("domaines", id);
        builder.set("nom_domaine", nom_domaine);
        assert(field_views(builder.fields@) =~= seq![
            FieldView { column: "nom_domaine"@, value: text_view(nom_domaine) },
        ]);
        builder.build()
    }
}

/// Decides what is created where an authenticated caller adds a domain of
/// their own. `caller_id` is the answer of the lookup of the caller's account,
/// `None` where it failed. The domain goes to the caller, whatever owner the
/// body names.
pub fn add_domaine_for_user(caller_id: Option<i32>, form: CreateDomaine) -> (r: Result<
    CreateDomaine,
    AuthError,
>)
    ensures
        match caller_id {
            Some(id) => r matches Ok(created) && created.user_id == id && created.nom_domaine
                == form.nom_domaine,
            None => r matches Err(e) && e == AuthError::StoreError,
        },
{
    match caller_id {
        Some(id) => Ok(CreateDomaine { user_id: id, nom_domaine: form.nom_domaine }),
        None => Err(AuthError::StoreError),
    }
}

} // verus!
