//! The health report as versions 1 and 2 of the API send it.
use vstd::prelude::*;
use vstd::std_specs::convert::FromSpec;
use vstd::std_specs::convert::FromSpecImpl;
use crate::api::health::state::HealthState;
use crate::clock::{utc_now, Timestamp};
use crate::models::{Health, StateView};

verus! {

/// Version 1 of the health report: whether the service works.
#[derive(Clone, Copy, Debug, PartialEq, Eq, Structural)]
pub struct HealthV1 {
    pub ok: bool,
}

/// Version 2 of the health report: whether the service works, and since when
/// it has been running.
#[derive(Clone, Copy, Debug, PartialEq, Eq, Structural)]
pub struct HealthV2 {
    pub ok: bool,
    pub started_at: Timestamp,
}

impl From<Health> for HealthV1 {
    fn from(state: Health) -> (r: Self) {
        HealthV1 { ok: state.ok }
    }
}

impl FromSpecImpl<Health> for HealthV1 {
    open spec fn obeys_from_spec() -> bool {
        true
    }

    open spec fn from_spec(state: Health) -> HealthV1 {
        HealthV1 { ok: state.ok }
    }
}

impl From<Health> for HealthV2 {
    fn from(state: Health) -> (r: Self) {
        HealthV2 { ok: state.ok, started_at: state.started_at }
    }
}

impl FromSpecImpl<Health> for HealthV2 {
    open spec fn obeys_from_spec() -> bool {
        true
    }

    open spec fn from_spec(state: Health) -> HealthV2 {
        HealthV2 { ok: state.ok, started_at: state.started_at }
    }
}

impl From<HealthV2> for Health {
    fn from(val: HealthV2) -> (r: Self) {
        Health { ok: val.ok, started_at: val.started_at }
    }
}

impl FromSpecImpl<HealthV2> for Health {
    open spec fn obeys_from_spec() -> bool {
        true
    }

    open spec fn from_spec(val: HealthV2) -> Health {
        Health { ok: val.ok, started_at: val.started_at }
    }
}

impl Health {
    /// The health that a version 1 report shows: its state, with the start
    /// time taken as now, which that report does not carry.
    pub fn from_v1(val: HealthV1) -> (r: Health)
        ensures
            r.ok == val.ok,
    {
        Health::from_v1_at(val, utc_now())
    }

    /// The health that a version 1 report shows, for a service started at
    /// `now`.
    pub fn from_v1_at(val: HealthV1, now: Timestamp) -> (r: Health)
        ensures
            r == (Health { ok: val.ok, started_at: now }),
    {
        Health { ok: val.ok, started_at: now }
    }
}

impl HealthV1 {
    /// The health state that this report shows, for a service started at
    /// `now`.
    pub fn to_state_at(&self, now: Timestamp) -> (s: HealthState)
        ensures
            s == (HealthState { ok: self.ok, started_at: now }),
    {
        HealthState { ok: self.ok, started_at: now }
    }
}

impl StateView<HealthState> for HealthV1 {
    open spec fn represents(&self, state: HealthState) -> bool {
        self.ok == state.ok
    }

    fn to_state(&self) -> (s: HealthState) {
        self.to_state_at(utc_now())
    }

    fn from_state(state: &HealthState) -> (r: Self) {
        HealthV1 { ok: state.ok }
    }
}

impl StateView<HealthState> for HealthV2 {
    open spec fn represents(&self, state: HealthState) -> bool {
        self.ok == state.ok && self.started_at == state.started_at
    }

    fn to_state(&self) -> (s: HealthState) {
        HealthState { ok: self.ok, started_at: self.started_at }
    }

    fn from_state(state: &HealthState) -> (r: Self) {
        HealthV2 { ok: state.ok, started_at: state.started_at }
    }
}

/// A version 2 report shows a health state in full: the state it shows is
/// the state it was made from.
pub proof fn lemma_health_v2_shows_state(v: HealthV2, s: HealthState, back: HealthState)
    requires
        v.represents(s),
        v.represents(back),
    ensures
        back == s,
{
}

/// Turning a version 2 report into the health it shows and back gives the
/// same report, and the reverse holds too: nothing is lost either way.
pub proof fn lemma_health_v2_roundtrip(h: Health, v: HealthV2)
    ensures
        <HealthV2 as FromSpec<Health>>::from_spec(<Health as FromSpec<HealthV2>>::from_spec(v)) == v,
        <Health as FromSpec<HealthV2>>::from_spec(<HealthV2 as FromSpec<Health>>::from_spec(h)) == h,
{
}

} // verus!
