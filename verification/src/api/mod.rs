//! Building requests for the service and reading its answers.

pub mod app_id;
pub mod listing;
pub mod request;
pub mod search;
