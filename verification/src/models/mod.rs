//! The values that the quote store holds and the messages it answers.
pub mod health;
pub mod quote;
pub mod stateview;

pub use health::{GetHealth, Health};
pub use quote::{AddQuote, AddQuotes, GetQuote, Quote};
pub use stateview::StateView;
