//! The health of the service.
use vstd::prelude::*;
use crate::clock::Timestamp;

verus! {

/// How the service is doing: whether it works and when it started.
#[derive(Clone, Copy, Debug, PartialEq, Eq, Structural)]
pub struct Health {
    pub ok: bool,
    pub started_at: Timestamp,
}

/// Asks the quote store for the service's health.
#[derive(Debug)]
pub struct GetHealth {}

} // verus!
