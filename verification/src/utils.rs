use vstd::prelude::*;

pub mod helpers;

verus! {

/// Placeholder for storing a ride's track as GeoJSON in the database: the
/// service does nothing here yet.
pub fn storage_geo_json_in_db() {
}

} // verus!
