//! Kinds of account.

use vstd::prelude::*;
use crate::store::{row_id, row_id_of};

verus! {

/// A kind of account as the store holds it.
#[derive(Debug)]
pub struct TypeUser {
    pub id: i32,
    pub nom_type_user: String,
}

impl TypeUser {
    /// The kind that now exists, from what was inserted and the insert id that
    /// the store reported.
    pub fn create(last_insert_id: u64, nom_type_user: String) -> (r: TypeUser)
        ensures
            r.id == row_id(last_insert_id),
            r.nom_type_user == nom_type_user,
    {
        TypeUser { id: row_id_of(last_insert_id), nom_type_user }
    }
}

} // verus!
