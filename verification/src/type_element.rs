//! Kinds of element.

use vstd::prelude::*;
use crate::store::{row_id, row_id_of};

verus! {

/// A kind of element as the store holds it.
#[derive(Debug)]
pub struct TypeElement {
    pub id: i32,
    pub nom_type_element: String,
}

impl TypeElement {
    /// The kind that now exists, from what was inserted and the insert id that
    /// the store reported.
    pub fn create(last_insert_id: u64, nom_type_element: String) -> (r: TypeElement)
        ensures
            r.id == row_id(last_insert_id),
            r.nom_type_element == nom_type_element,
    {
        TypeElement { id: row_id_of(last_insert_id), nom_type_element }
    }
}

} // verus!
