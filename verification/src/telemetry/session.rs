//! The choice of where traces go, made once when the service starts.
use vstd::prelude::*;

verus! {

/// Where the service's traces are sent.
#[derive(Clone, Copy, Debug, PartialEq, Eq, Structural)]
pub enum TelemetryBackend {
    /// Honeycomb, with the configured API key.
    Honeycomb,
    /// Azure Application Insights, with the configured instrumentation key.
    ApplicationInsights,
    /// Standard output.
    Stdout,
}

/// The backend that the configured keys select: Honeycomb where its key is
/// set, otherwise Application Insights where its key is set, otherwise
/// standard output. A key that is empty counts as unset.
pub open spec fn selected_backend(honeycomb_key: Seq<char>, app_insights_key: Seq<char>) -> TelemetryBackend {
    if honeycomb_key.len() > 0 {
        TelemetryBackend::Honeycomb
    } else if app_insights_key.len() > 0 {
        TelemetryBackend::ApplicationInsights
    } else {
        TelemetryBackend::Stdout
    }
}

/// Any Honeycomb key that is set, of any length, sends traces to
/// Honeycomb; without one, any Application Insights key that is set sends
/// them there; with neither, they go to standard output. Which backend is
/// chosen depends only on which keys are empty, not on what they hold.
pub proof fn lemma_backend_choice(h: Seq<char>, a: Seq<char>, h2: Seq<char>, a2: Seq<char>)
    ensures
        h.len() > 0 ==> selected_backend(h, a) == TelemetryBackend::Honeycomb,
        h.len() == 0 && a.len() > 0 ==> selected_backend(h, a) == TelemetryBackend::ApplicationInsights,
        h.len() == 0 && a.len() == 0 ==> selected_backend(h, a) == TelemetryBackend::Stdout,
        (h.len() == 0) == (h2.len() == 0) && (a.len() == 0) == (a2.len() == 0) ==> selected_backend(h, a)
            == selected_backend(h2, a2),
{
}

/// A telemetry session: the backend that traces go to while it lasts.
#[derive(Debug)]
pub struct Session {
    pub backend: TelemetryBackend,
}

impl Session {
    /// The session that the configured Honeycomb and Application Insights
    /// keys select.
    pub fn new(honeycomb_key: &str, app_insights_key: &str) -> (s: Session)
        ensures
            s.backend == selected_backend(honeycomb_key@, app_insights_key@),
    {
        if !honeycomb_key.is_empty() {
            Session { backend: TelemetryBackend::Honeycomb }
        } else if !app_insights_key.is_empty() {
            Session { backend: TelemetryBackend::ApplicationInsights }
        } else {
            Session { backend: TelemetryBackend::Stdout }
        }
    }
}

} // verus!
