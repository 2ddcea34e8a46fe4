//! Typed client logic for a real-estate listing service: request signing,
//! header assembly, search-request construction and page decoding.

pub mod api;
pub mod json;
pub mod models;
pub mod text;
