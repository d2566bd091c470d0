//! Rows for callers that keep fetched reference data in local storage.
//!
//! The storage itself is an external collaborator; the library only defines
//! the shapes such a caller persists.

use vstd::prelude::*;

verus! {

/// A city as a caller's local storage keys it: display name and carrier
/// reference.
#[derive(Clone, Debug, PartialEq, Eq, Hash)]
pub struct City {
    pub name: String,
    pub ref_: String,
}

/// One row of a persisted warehouse table: the branch's city-scoped number,
/// its city's reference and name, and the branch's own reference.
#[derive(Clone, Debug, PartialEq, Eq)]
pub struct WarehousesTableItem {
    pub number: String,
    pub ref_city: String,
    pub ref_warehouse: String,
    pub city_name: String,
}

} // verus!
