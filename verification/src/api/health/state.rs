//! The service's own record of its health.
use vstd::prelude::*;
use crate::clock::{utc_now, Timestamp};
use crate::models::StateView;

verus! {

/// Whether the service works and when it started.
#[derive(Clone, Copy, Debug, PartialEq, Eq, Structural)]
pub struct HealthState {
    pub ok: bool,
    pub started_at: Timestamp,
}

impl HealthState {
    /// A working service, started at `now`.
    pub fn at(now: Timestamp) -> (s: Self)
        ensures
            s.ok,
            s.started_at == now,
    {
        HealthState { ok: true, started_at: now }
    }

    /// A working service, started now: at the time that the clock reads.
    pub fn new() -> (s: Self)
        ensures
            s.ok,
    {
        let now = utc_now();
        HealthState::at(now)
    }

    /// This health, shown as `T`.
    pub fn health<T: StateView<HealthState>>(&self) -> (r: T)
        ensures
            r.represents(*self),
    {
        T::from_state(self)
    }
}

} // verus!
