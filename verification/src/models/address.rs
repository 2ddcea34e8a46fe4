//! Where a property stands.

use vstd::prelude::*;
use crate::models::geo_coords::GeoCoords;

verus! {

#[derive(Debug, Clone, PartialEq)]
pub struct Address {
    pub country: Option<String>,
    pub geo_coordinates: Option<GeoCoords>,
    pub locality: Option<String>,
    pub post_office_box_number: Option<String>,
    pub postal_code: Option<String>,
    pub region: Option<String>,
    pub street: Option<String>,
    pub street_addition: Option<String>,
}

} // verus!
