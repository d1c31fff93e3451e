//! Types of the database schema.

use vstd::prelude::*;

verus! {

/// The PostGIS `geometry` column type of the `ride_geometries` table.
#[derive(Debug, Clone, Copy, PartialEq, Eq)]
pub struct Geometry;

} // verus!
