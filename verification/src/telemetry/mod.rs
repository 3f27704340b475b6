//! Where the service sends its traces.
pub mod session;

pub use session::Session;
