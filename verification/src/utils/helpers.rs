use vstd::prelude::*;

verus! {

/// The data records that decoding a FIT file yields; the upload requests
/// carry them from the decoder to the writer without looking inside.
#[verifier::external_type_specification]
#[verifier::external_body]
pub struct ExFitDataRecord(fitparser::FitDataRecord);

/// Placeholder for storing a ride's track as GeoJSON in the database: the
/// service does nothing here yet.
pub fn storage_geo_json_in_db() {
}

} // verus!
