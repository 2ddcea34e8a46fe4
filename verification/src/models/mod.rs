//! The records that the service returns.

pub mod address;
pub mod geo_coords;
pub mod listing;
pub mod location;
pub mod paginated;
pub mod realestate;
