//! The quote service's library: its quote store, the request handlers'
//! decisions, the response formats and the small parsers the server needs.
pub mod api;
pub mod chance;
pub mod clock;
pub mod models;
pub mod settings;
pub mod store;
pub mod telemetry;
pub mod text;
