//! What the library reads from the answers of the data store.

use vstd::prelude::*;

verus! {

/// The id of a row, from the insert id that the store reports: the id itself
/// where it fits, its low 32 bits otherwise.
pub open spec fn row_id(last_insert_id: u64) -> i32 {
    last_insert_id as i32
}

/// The id of a row, from the insert id that the store reports.
pub fn row_id_of(last_insert_id: u64) -> (r: i32)
    ensures
        r == row_id(last_insert_id),
        last_insert_id <= i32::MAX ==> r == last_insert_id,
{
    #[verifier::truncate]
    (last_insert_id as i32)
}

} // verus!
