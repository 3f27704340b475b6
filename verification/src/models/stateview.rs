//! Conversions between the stored state and the shapes the API returns.
use vstd::prelude::*;

verus! {

/// A view of some stored state `S` that the API sends to clients.
pub trait StateView<S>: Sized {
    /// Whether this value shows exactly the state `state`.
    spec fn represents(&self, state: S) -> bool;

    /// The state that this value shows.
    fn to_state(&self) -> (s: S)
        ensures
            self.represents(s),
    ;

    /// The value that shows `state`.
    fn from_state(state: &S) -> (r: Self)
        ensures
            r.represents(*state),
    ;
}

} // verus!
