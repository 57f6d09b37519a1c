//! Rendering and delivering match notifications.
//!
//! Two sinks exist. The stdout sink writes one JSON line per matched
//! pattern, `{"domain":...,"regex":...}`; it is the monitoring
//! interface and a write failure there is fatal to the whole process.
//! The optional webhook sink posts one structured payload per
//! domain-with-matches, `{"domain":...,"patterns":[...]}`; its failure
//! is logged and otherwise ignored. The library renders both bodies
//! exactly and decides what a delivery outcome means for the session;
//! the unverified binary performs the writes and the HTTP post.

use crate::matcher::MatchResult;
use crate::matcher::MatchResultModel;
use vstd::prelude::*;

verus! {

/// The JSON string literal — quotes and escapes included — that the
/// JSON engine produces for a text.
pub uninterp spec fn json_quoted(s: Seq<char>) -> Seq<char>;

/// Relies on `serde_json::to_string` on a string slice: the literal
/// produced depends on the text alone, and serialising a string slice
/// into a fresh buffer cannot fail (the fallback arm is unreachable).
#[verifier::external_body]
fn quote_json_str(s: &str) -> (r: String)
    ensures
        r@ == json_quoted(s@),
{
    match serde_json::to_string(s) {
        Ok(q) => q,
        Err(_) => String::new(),
    }
}

/// One stdout notification line for one matched pattern on one domain.
pub open spec fn notification_line(pattern: Seq<char>, domain: Seq<char>) -> Seq<char> {
    "{\"domain\":"@ + json_quoted(domain) + ",\"regex\":"@ + json_quoted(pattern) + "}\n"@
}

/// Render the stdout notification line for one matched pattern.
pub fn render_notification(pattern: &str, domain: &str) -> (r: String)
    ensures
        r@ == notification_line(pattern@, domain@),
{
    let mut out = String::new();
    out.append("{\"domain\":");
    out.append(quote_json_str(domain).as_str());
    out.append(",\"regex\":");
    out.append(quote_json_str(pattern).as_str());
    out.append("}\n");
    proof {
        assert(out@ =~= notification_line(pattern@, domain@));
    }
    out
}

/// The stdout lines for one match result: one line per matched
/// pattern, in declaration order.
pub open spec fn notification_lines(m: MatchResultModel) -> Seq<Seq<char>> {
    Seq::new(m.patterns.len(), |i: int| notification_line(m.patterns[i], m.domain))
}

/// Render every stdout line for one match result.
pub fn render_match(m: &MatchResult) -> (r: Vec<String>)
    ensures
        r.deep_view() == notification_lines(m@),
{
    let mut out: Vec<String> = Vec::new();
    let mut i: usize = 0;
    while i < m.patterns.len()
        invariant
            i <= m.patterns@.len(),
            out.deep_view() == notification_lines(m@).take(i as int),
        decreases m.patterns@.len() - i,
    {
        let ghost prev = out.deep_view();
        let line = render_notification(m.patterns[i].as_str(), m.domain.as_str());
        out.push(line);
        proof {
            assert(out.deep_view() =~= prev.push(
                notification_line(m@.patterns[i as int], m@.domain),
            ));
            assert(notification_lines(m@).take(i + 1) =~= prev.push(
                notification_line(m@.patterns[i as int], m@.domain),
            ));
        }
        i += 1;
    }
    proof {
        assert(notification_lines(m@).take(m.patterns@.len() as int) =~= notification_lines(m@));
    }
    out
}

/// The quoted pattern texts joined with commas, in order.
pub open spec fn joined_quoted(patterns: Seq<Seq<char>>) -> Seq<char>
    decreases patterns.len(),
{
    if patterns.len() == 0 {
        Seq::empty()
    } else {
        joined_quoted(patterns.drop_last()) + (if patterns.len() > 1 {
            ","@
        } else {
            Seq::empty()
        }) + json_quoted(patterns.last())
    }
}

/// The webhook payload for one match result: the domain and every
/// matched pattern text, as one structured JSON object.
pub open spec fn webhook_payload_spec(m: MatchResultModel) -> Seq<char> {
    "{\"domain\":"@ + json_quoted(m.domain) + ",\"patterns\":["@ + joined_quoted(m.patterns)
        + "]}"@
}

/// Render the webhook payload body for one match result.
pub fn webhook_payload(m: &MatchResult) -> (r: String)
    ensures
        r@ == webhook_payload_spec(m@),
{
    let mut joined = String::new();
    let mut i: usize = 0;
    while i < m.patterns.len()
        invariant
            i <= m.patterns@.len(),
            joined@ == joined_quoted(m@.patterns.take(i as int)),
        decreases m.patterns@.len() - i,
    {
        proof {
            assert(m@.patterns.take(i + 1).drop_last() =~= m@.patterns.take(i as int));
            assert(m@.patterns.take(i + 1).last() == m@.patterns[i as int]);
        }
        if i > 0 {
            joined.append(",");
        }
        joined.append(quote_json_str(m.patterns[i].as_str()).as_str());
        proof {
            assert(joined@ =~= joined_quoted(m@.patterns.take(i + 1)));
        }
        i += 1;
    }
    proof {
        assert(m@.patterns.take(m.patterns@.len() as int) =~= m@.patterns);
    }
    let mut out = String::new();
    out.append("{\"domain\":");
    out.append(quote_json_str(m.domain.as_str()).as_str());
    out.append(",\"patterns\":[");
    out.append(joined.as_str());
    out.append("]}");
    proof {
        assert(out@ =~= webhook_payload_spec(m@));
    }
    out
}

/// The outcome the driver observed for one sink delivery attempt.
#[derive(Clone, Copy, Debug, PartialEq, Eq, Structural)]
pub enum SinkStatus {
    /// The sink accepted the notification.
    Delivered,
    /// The sink failed: a write error, a network error, or a
    /// non-success HTTP status.
    Failed,
}

/// What a delivery round means for the process.
#[derive(Clone, Copy, Debug, PartialEq, Eq, Structural)]
pub enum DeliveryVerdict {
    /// Keep the session running.
    Continue,
    /// The monitoring channel itself is broken; the process must stop.
    FatalOutput,
}

/// The delivery policy: a stdout write failure is unrecoverable for the
/// process, while a webhook failure — or its absence — never is.
pub open spec fn delivery_verdict_spec(stdout: SinkStatus, webhook: Option<SinkStatus>)
    -> DeliveryVerdict {
    if stdout is Failed {
        DeliveryVerdict::FatalOutput
    } else {
        DeliveryVerdict::Continue
    }
}

/// Judge one delivery round: `stdout` is the outcome of the stdout
/// write, `webhook` the outcome of the optional webhook post.
pub fn delivery_verdict(stdout: SinkStatus, webhook: Option<SinkStatus>) -> (v: DeliveryVerdict)
    ensures
        v == delivery_verdict_spec(stdout, webhook),
{
    match stdout {
        SinkStatus::Delivered => DeliveryVerdict::Continue,
        SinkStatus::Failed => DeliveryVerdict::FatalOutput,
    }
}

/// Law: a webhook failure is isolated — the verdict for the session
/// depends on the stdout sink alone, so a failed post never stops the
/// session nor suppresses the stdout notification already rendered.
pub proof fn lemma_webhook_failure_isolated(
    stdout: SinkStatus,
    w1: Option<SinkStatus>,
    w2: Option<SinkStatus>,
)
    ensures
        delivery_verdict_spec(stdout, w1) == delivery_verdict_spec(stdout, w2),
{
}

} // verus!
