//! Production records: what an element yielded on a day.

use vstd::prelude::*;
use crate::store::{row_id, row_id_of};

verus! {

/// The calendar date type of the `chrono` crate. A date is carried through
/// as it is; nothing is read from it.
#[verifier::external_type_specification]
#[verifier::external_body]
pub struct ExNaiveDate(chrono::NaiveDate);

/// A production record as the store holds it.
#[derive(Debug)]
pub struct Production {
    pub id: i32,
    pub element_id: i32,
    pub quantite_produite: i32,
    pub unite_production: String,
    pub date_de_production: chrono::NaiveDate,
}

impl Production {
    /// The record that now exists, from what was inserted and the insert id
    /// that the store reported.
    pub fn create(
        last_insert_id: u64,
        element_id: i32,
        quantite_produite: i32,
        unite_production: String,
        date_de_production: chrono::NaiveDate,
    ) -> (r: Production)
        ensures
            r.id == row_id(last_insert_id),
            r.element_id == element_id,
            r.quantite_produite == quantite_produite,
            r.unite_production == unite_production,
            r.date_de_production == date_de_production,
    {
        Production {
            id: row_id_of(last_insert_id),
            element_id,
            quantite_produite,
            unite_production,
            date_de_production,
        }
    }
}

} // verus!
