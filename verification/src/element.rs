//! Elements: the stock of an exploitation.

use vstd::prelude::*;
use crate::store::{row_id, row_id_of};

verus! {

/// An element as the store holds it.
#[derive(Debug)]
pub struct Element {
    pub id: i32,
    pub exploitation_id: i32,
    pub nom_element: String,
    pub quantite: i32,
}

impl Element {
    /// The element that now exists, from what was inserted and the insert id
    /// that the store reported.
    pub fn create(
        last_insert_id: u64,
        exploitation_id: i32,
        nom_element: String,
        quantite: i32,
    ) -> (r: Element)
        ensures
            r.id == row_id(last_insert_id),
            r.exploitation_id == exploitation_id,
            r.nom_element == nom_element,
            r.quantite == quantite,
    {
        Element { id: row_id_of(last_insert_id), exploitation_id, nom_element, quantite }
    }
}

} // verus!
