//! The HTTP API: its errors, health reports and quotes.
pub mod error;
pub mod health;
pub mod quote;

pub use error::APIError;
