//! The health and tracing endpoints.
pub mod models;
pub mod state;

use vstd::prelude::*;
use crate::api::error::APIError;
use crate::models::GetHealth;
use crate::store::memory::MemoryStore;
use models::{HealthV1, HealthV2};

verus! {

/// The answer to `GET /api/v1/health`: the service works.
pub fn health_v1(store: &MemoryStore) -> (r: Result<HealthV1, APIError>)
    ensures
        r == Ok::<HealthV1, APIError>(HealthV1 { ok: true }),
{
    match store.get_health(&GetHealth {}) {
        Ok(h) => Ok(HealthV1::from(h)),
        Err(e) => Err(e),
    }
}

/// The answer to `GET /api/v2/health`: the service works, and has since the
/// store started.
pub fn health_v2(store: &MemoryStore) -> (r: Result<HealthV2, APIError>)
    ensures
        r == Ok::<HealthV2, APIError>(HealthV2 { ok: true, started_at: store.start_time() }),
{
    match store.get_health(&GetHealth {}) {
        Ok(h) => Ok(HealthV2::from(h)),
        Err(e) => Err(e),
    }
}

/// A request header: its name, and its value where that is text (`None`
/// where it holds bytes that are not visible ASCII).
#[derive(Debug)]
pub struct HeaderEntry {
    pub name: String,
    pub value: Option<String>,
}

/// How a header's value is shown.
pub open spec fn value_text(value: Option<String>) -> Seq<char> {
    match value {
        Some(v) => v@,
        None => "invalid utf8"@,
    }
}

/// A header shown as `<name>: <value>`.
pub open spec fn header_line(h: HeaderEntry) -> Seq<char> {
    h.name@ + ": "@ + value_text(h.value)
}

/// The headers shown one per line, separated by line breaks.
pub open spec fn header_lines(hs: Seq<HeaderEntry>) -> Seq<char>
    decreases hs.len(),
{
    if hs.len() == 0 {
        Seq::empty()
    } else if hs.len() == 1 {
        header_line(hs[0])
    } else {
        header_lines(hs.drop_last()) + "\n"@ + header_line(hs.last())
    }
}

/// The value of the first `traceparent` header, or `<not set>` where there is none.
pub open spec fn traceparent_text(hs: Seq<HeaderEntry>) -> Seq<char>
    decreases hs.len(),
{
    if hs.len() == 0 {
        "<not set>"@
    } else if hs[0].name@ == "traceparent"@ {
        value_text(hs[0].value)
    } else {
        traceparent_text(hs.drop_first())
    }
}

/// Without a `traceparent` header the report says `<not set>`.
pub proof fn lemma_traceparent_absent(hs: Seq<HeaderEntry>)
    requires
        forall|i: int| 0 <= i < hs.len() ==> (#[trigger] hs[i]).name@ != "traceparent"@,
    ensures
        traceparent_text(hs) == "<not set>"@,
    decreases hs.len(),
{
    if hs.len() > 0 {
        let rest = hs.drop_first();
        assert forall|i: int| 0 <= i < rest.len() implies (#[trigger] rest[i]).name@ != "traceparent"@ by {
            assert(rest[i] == hs[i + 1]);
        }
        lemma_traceparent_absent(rest);
    }
}

/// The report shows the value of the first `traceparent` header; later ones
/// do not matter.
pub proof fn lemma_first_traceparent(hs: Seq<HeaderEntry>, k: int)
    requires
        0 <= k < hs.len(),
        hs[k].name@ == "traceparent"@,
        forall|i: int| 0 <= i < k ==> (#[trigger] hs[i]).name@ != "traceparent"@,
    ensures
        traceparent_text(hs) == value_text(hs[k].value),
    decreases k,
{
    if k > 0 {
        let rest = hs.drop_first();
        assert(rest[k - 1] == hs[k]);
        assert forall|i: int| 0 <= i < k - 1 implies (#[trigger] rest[i]).name@ != "traceparent"@ by {
            assert(rest[i] == hs[i + 1]);
        }
        lemma_first_traceparent(rest, k - 1);
    }
}

/// The tracing report: the client's trace parent, the current trace and
/// whether it is sampled, then every request header.
pub open spec fn tracing_report(hs: Seq<HeaderEntry>, trace_id: Seq<char>, sampled: bool) -> Seq<char> {
    "OpenTelemetry TraceParent is: "@ + traceparent_text(hs) + " (current trace ID is: "@ + trace_id
        + ", sampling is "@ + (if sampled {
        "enabled"@
    } else {
        "disabled"@
    }) + ")\n\n"@ + header_lines(hs)
}

/// Where the trace id starts in a report on headers `hs`: after the label,
/// the trace parent and the trace id's own label.
pub open spec fn trace_id_start(hs: Seq<HeaderEntry>) -> int {
    ("OpenTelemetry TraceParent is: "@ + traceparent_text(hs) + " (current trace ID is: "@).len() as int
}

/// The report carries the current trace id whole, whatever its length: it
/// starts with `OpenTelemetry TraceParent is: `, the trace parent and
/// ` (current trace ID is: `, then holds exactly the trace id, followed by
/// `, sampling is `. Two reports on the same headers and sampling differ in
/// length by exactly the difference of their trace ids' lengths.
pub proof fn lemma_report_shows_trace_id(
    hs: Seq<HeaderEntry>,
    t: Seq<char>,
    t2: Seq<char>,
    sampled: bool,
)
    ensures
        tracing_report(hs, t, sampled).subrange(0, trace_id_start(hs))
            == "OpenTelemetry TraceParent is: "@ + traceparent_text(hs) + " (current trace ID is: "@,
        tracing_report(hs, t, sampled).subrange(trace_id_start(hs), trace_id_start(hs) + t.len()) == t,
        tracing_report(hs, t, sampled).subrange(
            trace_id_start(hs) + t.len(),
            trace_id_start(hs) + t.len() + ", sampling is "@.len(),
        ) == ", sampling is "@,
        tracing_report(hs, t, sampled).len() - t.len() == tracing_report(hs, t2, sampled).len()
            - t2.len(),
{
    let pre = "OpenTelemetry TraceParent is: "@ + traceparent_text(hs) + " (current trace ID is: "@;
    let r = tracing_report(hs, t, sampled);
    assert(r.subrange(0, pre.len() as int) =~= pre);
    let p = pre.len() as int;
    let q = p + t.len();
    assert(r.subrange(p, q) =~= t);
    assert(r.subrange(q, q + ", sampling is "@.len()) =~= ", sampling is "@);
}

fn append_value(s: &mut String, value: &Option<String>)
    ensures
        final(s)@ == old(s)@ + value_text(*value),
{
    match value {
        Some(v) => s.append(v.as_str()),
        None => s.append("invalid utf8"),
    }
}

/// The answer to `GET /api/v1/tracing`, given the request's headers, the
/// current trace's id and whether it is sampled: the tracing report.
pub fn tracing_v1(headers: &Vec<HeaderEntry>, trace_id: &str, sampled: bool) -> (r: Result<String, APIError>)
    ensures
        r matches Ok(s) && s@ == tracing_report(headers@, trace_id@, sampled),
        r matches Ok(s) && s@.subrange(
            trace_id_start(headers@),
            trace_id_start(headers@) + trace_id@.len(),
        ) == trace_id@,
{
    // The value of the first `traceparent` header.
    let parent_name = "traceparent".to_owned();
    let mut traceparent = String::new();
    let mut i: usize = 0;
    let mut found = false;
    assert(headers@.skip(0) =~= headers@);
    while i < headers.len()
        invariant
            i <= headers@.len(),
            parent_name@ == "traceparent"@,
            !found ==> traceparent@ == Seq::<char>::empty(),
            found ==> traceparent@ == traceparent_text(headers@),
            !found ==> traceparent_text(headers@) == traceparent_text(headers@.skip(i as int)),
        decreases headers@.len() - i,
    {
        if !found {
            let ghost rest = headers@.skip(i as int);
            assert(rest[0] == headers@[i as int]);
            assert(rest.drop_first() =~= headers@.skip(i + 1));
            if headers[i].name == parent_name {
                append_value(&mut traceparent, &headers[i].value);
                found = true;
            }
        }
        i = i + 1;
    }
    if !found {
        assert(headers@.skip(i as int) =~= Seq::<HeaderEntry>::empty());
        traceparent.append("<not set>");
    }
    // Every header, one per line.
    let mut lines = String::new();
    let mut j: usize = 0;
    while j < headers.len()
        invariant
            j <= headers@.len(),
            lines@ == header_lines(headers@.take(j as int)),
        decreases headers@.len() - j,
    {
        let ghost before = headers@.take(j as int);
        let ghost after = headers@.take(j + 1);
        assert(after.drop_last() =~= before);
        assert(after.last() == headers@[j as int]);
        if j > 0 {
            lines.append("\n");
        } else {
            assert(after.len() == 1);
            assert(lines@ == Seq::<char>::empty());
        }
        lines.append(headers[j].name.as_str());
        lines.append(": ");
        append_value(&mut lines, &headers[j].value);
        j = j + 1;
    }
    assert(headers@.take(headers@.len() as int) =~= headers@);
    let mut reply = String::new();
    reply.append("OpenTelemetry TraceParent is: ");
    reply.append(traceparent.as_str());
    reply.append(" (current trace ID is: ");
    reply.append(trace_id);
    reply.append(", sampling is ");
    if sampled {
        reply.append("enabled");
    } else {
        reply.append("disabled");
    }
    reply.append(")\n\n");
    reply.append(lines.as_str());
    proof {
        assert(reply@ =~= tracing_report(headers@, trace_id@, sampled));
        lemma_report_shows_trace_id(headers@, trace_id@, trace_id@, sampled);
    }
    Ok(reply)
}

} // verus!
