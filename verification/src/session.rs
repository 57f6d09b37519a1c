//! The connection-lifecycle state machine.
//!
//! One live upstream connection is a session; the supervisor owns the
//! reconnect loop around it. The driver (the unverified binary) performs
//! the outside work — connecting, awaiting a frame — and feeds the
//! observed outcome back in as a [`FeedEvent`]; [`step`] decides the next
//! state and the next action. The policy follows the monitor's design:
//! a failure of the very first connection attempt is fatal to the
//! process, while any later loss of the transport triggers an immediate
//! reconnect, with no delay, no backoff and no cap on attempts.

use crate::extract::extract;
use crate::extract::extract_spec;
use crate::extract::feed_message_model;
use crate::extract::ExtractError;
use crate::extract::ExtractModel;
use crate::matcher::evaluate;
use crate::matcher::evaluate_spec;
use crate::matcher::MatchResultModel;
use crate::notify::notification_lines;
use crate::notify::render_match;
use crate::patterns::PatternSet;
use vstd::prelude::*;

verus! {

/// The phase of the supervisor's connection lifecycle.
#[derive(Clone, Copy, Debug, PartialEq, Eq, Structural)]
pub enum SupervisorState {
    /// No session has run yet; the first connection attempt is pending.
    AwaitingFirstConnect,
    /// A session is live and frames are being consumed.
    Streaming,
    /// A session ended; a reconnect attempt is pending.
    Reconnecting,
    /// The monitor has given up; the process should exit with an error.
    Failed,
}

/// What the driver observed while performing the previous action.
#[derive(Debug, PartialEq, Eq)]
pub enum FeedEvent {
    /// A connection attempt succeeded.
    ConnectSucceeded,
    /// A connection attempt failed.
    ConnectFailed,
    /// A text frame arrived, carrying one raw feed message.
    FrameText(String),
    /// A frame arrived that carries no usable text (a non-text frame, or
    /// a transport-level per-frame error); it is skipped.
    FrameSkipped,
    /// The transport is exhausted: closed cleanly or lost with an error.
    StreamEnded,
}

/// What the driver must do next.
#[derive(Debug, PartialEq, Eq)]
pub enum SessionAction {
    /// Attempt to establish a new connection to the upstream feed.
    Connect,
    /// Await the next frame on the live connection.
    Receive,
    /// Schedule processing of this raw message, then await the next
    /// frame; processing must not block receipt of further frames.
    Process(String),
    /// Stop: the monitor cannot continue.
    Fatal,
}

/// The transition function of the supervisor: from the current state and
/// the observed event to the next state and the next action.
pub open spec fn step_spec(state: SupervisorState, event: FeedEvent) -> (SupervisorState,
    SessionAction) {
    match state {
        SupervisorState::AwaitingFirstConnect => match event {
            FeedEvent::ConnectSucceeded => (SupervisorState::Streaming, SessionAction::Receive),
            FeedEvent::ConnectFailed => (SupervisorState::Failed, SessionAction::Fatal),
            _ => (SupervisorState::AwaitingFirstConnect, SessionAction::Connect),
        },
        SupervisorState::Streaming => match event {
            FeedEvent::FrameText(raw) => (SupervisorState::Streaming, SessionAction::Process(raw)),
            FeedEvent::FrameSkipped => (SupervisorState::Streaming, SessionAction::Receive),
            FeedEvent::StreamEnded => (SupervisorState::Reconnecting, SessionAction::Connect),
            _ => (SupervisorState::Streaming, SessionAction::Receive),
        },
        SupervisorState::Reconnecting => match event {
            FeedEvent::ConnectSucceeded => (SupervisorState::Streaming, SessionAction::Receive),
            _ => (SupervisorState::Reconnecting, SessionAction::Connect),
        },
        SupervisorState::Failed => (SupervisorState::Failed, SessionAction::Fatal),
    }
}

/// Advance the supervisor by one observed event.
pub fn step(state: SupervisorState, event: FeedEvent) -> (r: (SupervisorState, SessionAction))
    ensures
        r == step_spec(state, event),
{
    match state {
        SupervisorState::AwaitingFirstConnect => match event {
            FeedEvent::ConnectSucceeded => (SupervisorState::Streaming, SessionAction::Receive),
            FeedEvent::ConnectFailed => (SupervisorState::Failed, SessionAction::Fatal),
            _ => (SupervisorState::AwaitingFirstConnect, SessionAction::Connect),
        },
        SupervisorState::Streaming => match event {
            FeedEvent::FrameText(raw) => (SupervisorState::Streaming, SessionAction::Process(raw)),
            FeedEvent::FrameSkipped => (SupervisorState::Streaming, SessionAction::Receive),
            FeedEvent::StreamEnded => (SupervisorState::Reconnecting, SessionAction::Connect),
            _ => (SupervisorState::Streaming, SessionAction::Receive),
        },
        SupervisorState::Reconnecting => match event {
            FeedEvent::ConnectSucceeded => (SupervisorState::Streaming, SessionAction::Receive),
            _ => (SupervisorState::Reconnecting, SessionAction::Connect),
        },
        SupervisorState::Failed => (SupervisorState::Failed, SessionAction::Fatal),
    }
}

/// The stdout lines of a sequence of match results, flattened in
/// order.
pub open spec fn flatten_lines(results: Seq<MatchResultModel>) -> Seq<Seq<char>>
    decreases results.len(),
{
    if results.len() == 0 {
        Seq::empty()
    } else {
        flatten_lines(results.drop_last()) + notification_lines(results.last())
    }
}

/// What processing one raw message yields: the stdout notification
/// lines for every matched domain, in order; no lines for a message of
/// another kind; or the structural error of a malformed certificate
/// update.
pub open spec fn process_spec(raw: Seq<char>, patterns: Seq<Seq<char>>) -> Result<
    Seq<Seq<char>>,
    ExtractError,
> {
    match extract_spec(feed_message_model(raw)) {
        ExtractModel::Event(domains) => Ok(flatten_lines(evaluate_spec(domains, patterns))),
        ExtractModel::Skip => Ok(Seq::empty()),
        ExtractModel::Error(e) => Err(e),
    }
}

/// The whole per-message unit of work: extract the domains, match them
/// against the pattern set, render the notification lines. Pure; a
/// failure concerns this message alone and never the session.
pub fn process_message(raw: &str, patterns: &PatternSet) -> (r: Result<Vec<String>, ExtractError>)
    requires
        patterns.wf(),
    ensures
        r is Ok <==> process_spec(raw@, patterns@) is Ok,
        r matches Ok(lines) ==> lines.deep_view() == process_spec(raw@, patterns@)->Ok_0,
        r matches Err(e) ==> process_spec(raw@, patterns@) == Err::<Seq<Seq<char>>, _>(e),
{
    match extract(raw) {
        crate::extract::ExtractOutcome::Event(event) => {
            let results = evaluate(&event, patterns);
            let ghost models = results.deep_view();
            let mut lines: Vec<String> = Vec::new();
            let mut i: usize = 0;
            while i < results.len()
                invariant
                    i <= results@.len(),
                    models == results.deep_view(),
                    lines.deep_view() == flatten_lines(models.take(i as int)),
                decreases results@.len() - i,
            {
                proof {
                    assert(models.take(i + 1).drop_last() =~= models.take(i as int));
                    assert(models.take(i + 1).last() == models[i as int]);
                }
                let ghost prev = lines.deep_view();
                let mut rendered = render_match(&results[i]);
                let ghost rv = rendered.deep_view();
                lines.append(&mut rendered);
                proof {
                    assert(lines.deep_view() =~= prev + rv);
                    assert(flatten_lines(models.take(i + 1)) == flatten_lines(models.take(
                        i as int,
                    )) + notification_lines(models[i as int]));
                }
                i += 1;
            }
            proof {
                assert(models.take(results@.len() as int) =~= models);
            }
            Ok(lines)
        },
        crate::extract::ExtractOutcome::Skip => {
            proof {
                assert(Seq::<Seq<char>>::empty() =~= process_spec(raw@, patterns@)->Ok_0);
            }
            Ok(Vec::new())
        },
        crate::extract::ExtractOutcome::Error(e) => Err(e),
    }
}

/// Law: no single frame ever terminates the session — whatever text a
/// frame holds (a certificate update, a message of another kind, or
/// malformed data), and also when a frame is skipped, the supervisor
/// stays streaming; only the transport's end leaves that state.
pub proof fn lemma_frames_never_end_session(raw: String)
    ensures
        step_spec(SupervisorState::Streaming, FeedEvent::FrameText(raw)).0
            == SupervisorState::Streaming,
        step_spec(SupervisorState::Streaming, FeedEvent::FrameSkipped).0
            == SupervisorState::Streaming,
{
}

/// Law: when the transport closes mid-stream, the supervisor makes
/// exactly one new connection attempt, and on its success resumes normal
/// frame processing — no operator intervention, no further attempt.
pub proof fn lemma_reconnect_after_stream_end()
    ensures
        step_spec(SupervisorState::Streaming, FeedEvent::StreamEnded) == (
        SupervisorState::Reconnecting,
        SessionAction::Connect,
        ),
        step_spec(SupervisorState::Reconnecting, FeedEvent::ConnectSucceeded) == (
        SupervisorState::Streaming,
        SessionAction::Receive,
        ),
{
}

} // verus!
