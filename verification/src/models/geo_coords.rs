//! A point on the map.

use vstd::prelude::*;

verus! {

/// A point on the map; both angles are counted in millionths of a degree.
#[derive(Debug, Clone, Copy, PartialEq, Eq, Structural)]
pub struct GeoCoords {
    pub latitude: i32,
    pub longitude: i32,
}

} // verus!
