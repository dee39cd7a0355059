//! The decisions of the stubborn sink: a sink of messages that keeps a
//! connection to a remote server, opening it again whenever it is lost, and
//! that accepts a message only once it has been handed to a live connection.
//!
//! Sending one message is a loop: in each phase the sink does one thing
//! (start a connection attempt, look at the attempt under way, or hand the
//! message to the connection), observes what came of it, and then either
//! answers or moves to another phase and goes round again. The doing is left
//! to the caller; what to do next is decided here.

use vstd::prelude::*;

verus! {

/// The phase of the connection to the remote server.
pub enum ConnectionPhase {
    NotConnected,
    Connecting,
    Connected,
}

/// The name of a phase, as the sink shows it.
pub open spec fn phase_name(phase: ConnectionPhase) -> Seq<char> {
    match phase {
        ConnectionPhase::NotConnected => "NotConnected"@,
        ConnectionPhase::Connecting => "Connecting"@,
        ConnectionPhase::Connected => "Connected"@,
    }
}

impl ConnectionPhase {
    /// The name of the phase.
    pub fn name(&self) -> (name: &'static str)
        ensures
            name@ == phase_name(*self),
    {
        match self {
            ConnectionPhase::NotConnected => "NotConnected",
            ConnectionPhase::Connecting => "Connecting",
            ConnectionPhase::Connected => "Connected",
        }
    }
}

/// What the sink does in a phase.
pub enum Attempt {
    /// Start a connection attempt to the remote server.
    StartConnecting,
    /// Look at the connection attempt under way.
    PollConnecting,
    /// Hand the message to the open connection.
    SendMessage,
}

/// What the sink does in each phase.
pub open spec fn attempt_in(phase: ConnectionPhase) -> Attempt {
    match phase {
        ConnectionPhase::NotConnected => Attempt::StartConnecting,
        ConnectionPhase::Connecting => Attempt::PollConnecting,
        ConnectionPhase::Connected => Attempt::SendMessage,
    }
}

/// What came of what the sink did.
pub enum Observation {
    /// A connection attempt has been started.
    AttemptStarted,
    /// The attempt failed.
    ConnectFailed,
    /// The attempt is still under way.
    ConnectPending,
    /// The attempt succeeded, and the connection is ready for messages.
    ConnectSucceeded,
    /// The connection took the message.
    SendAccepted,
    /// The connection refused the message: it has been lost.
    SendRefused,
}

/// Whether an observation can come of what the sink does in a phase.
pub open spec fn observation_fits(phase: ConnectionPhase, seen: Observation) -> bool {
    match attempt_in(phase) {
        Attempt::StartConnecting => seen is AttemptStarted,
        Attempt::PollConnecting => seen is ConnectFailed || seen is ConnectPending
            || seen is ConnectSucceeded,
        Attempt::SendMessage => seen is SendAccepted || seen is SendRefused,
    }
}

/// The sink's answer to the caller that offered a message.
pub enum SinkReply {
    /// The message has been taken.
    Ready,
    /// The message is handed back: offer it again later.
    NotReady,
}

/// What the sink does after an observation.
pub enum Step {
    /// Answer the caller.
    Reply(SinkReply),
    /// Move to another phase, after waiting `pause_ms` milliseconds, and go
    /// round again.
    Move { next: ConnectionPhase, pause_ms: u64 },
}

/// How long the sink waits after a failed connection attempt before it
/// tries again, in milliseconds.
pub const RETRY_PAUSE_MS: u64 = 50;

/// The step that follows an observation in a phase.
pub open spec fn step_spec(phase: ConnectionPhase, seen: Observation) -> Step {
    match seen {
        Observation::AttemptStarted => Step::Move { next: ConnectionPhase::Connecting, pause_ms: 0 },
        Observation::ConnectFailed => Step::Move {
            next: ConnectionPhase::NotConnected,
            pause_ms: RETRY_PAUSE_MS,
        },
        Observation::ConnectPending => Step::Reply(SinkReply::NotReady),
        Observation::ConnectSucceeded => Step::Move {
            next: ConnectionPhase::Connected,
            pause_ms: 0,
        },
        Observation::SendAccepted => Step::Reply(SinkReply::Ready),
        Observation::SendRefused => Step::Move { next: ConnectionPhase::NotConnected, pause_ms: 0 },
    }
}

/// What the sink does in `phase`.
pub fn attempt_for(phase: &ConnectionPhase) -> (attempt: Attempt)
    ensures
        attempt == attempt_in(*phase),
{
    match phase {
        ConnectionPhase::NotConnected => Attempt::StartConnecting,
        ConnectionPhase::Connecting => Attempt::PollConnecting,
        ConnectionPhase::Connected => Attempt::SendMessage,
    }
}

/// Decides what the sink does after observing `seen` in `phase`.
pub fn next_step(phase: &ConnectionPhase, seen: &Observation) -> (step: Step)
    requires
        observation_fits(*phase, *seen),
    ensures
        step == step_spec(*phase, *seen),
{
    match seen {
        Observation::AttemptStarted => Step::Move { next: ConnectionPhase::Connecting, pause_ms: 0 },
        Observation::ConnectFailed => Step::Move {
            next: ConnectionPhase::NotConnected,
            pause_ms: RETRY_PAUSE_MS,
        },
        Observation::ConnectPending => Step::Reply(SinkReply::NotReady),
        Observation::ConnectSucceeded => Step::Move {
            next: ConnectionPhase::Connected,
            pause_ms: 0,
        },
        Observation::SendAccepted => Step::Reply(SinkReply::Ready),
        Observation::SendRefused => Step::Move { next: ConnectionPhase::NotConnected, pause_ms: 0 },
    }
}

/// Whether an observation reports a failure: a failed attempt or a lost
/// connection.
pub open spec fn is_failure(seen: Observation) -> bool {
    seen is ConnectFailed || seen is SendRefused
}

/// Where a run of observations leads from `phase`: the reply it ends in, if
/// it ends in one, and the phase it stops in. Observations after the reply
/// are not looked at.
pub open spec fn run(phase: ConnectionPhase, seen: Seq<Observation>) -> (
    ConnectionPhase,
    Option<SinkReply>,
)
    decreases seen.len(),
{
    if seen.len() == 0 {
        (phase, None)
    } else {
        match step_spec(phase, seen[0]) {
            Step::Reply(reply) => (phase, Some(reply)),
            Step::Move { next, .. } => run(next, seen.drop_first()),
        }
    }
}

/// Whether each observation of a run can come of what the sink does in the
/// phase it has reached, up to the reply.
pub open spec fn run_fits(phase: ConnectionPhase, seen: Seq<Observation>) -> bool
    decreases seen.len(),
{
    seen.len() == 0 || (observation_fits(phase, seen[0]) && match step_spec(phase, seen[0]) {
        Step::Reply(_) => true,
        Step::Move { next, .. } => run_fits(next, seen.drop_first()),
    })
}

/// A message is taken only when the open connection took it: the sink
/// answers `Ready` only in the connected phase, after the send was accepted.
pub proof fn law_ready_only_after_accepted_send(phase: ConnectionPhase, seen: Observation)
    requires
        observation_fits(phase, seen),
        step_spec(phase, seen) == Step::Reply(SinkReply::Ready),
    ensures
        phase is Connected,
        seen is SendAccepted,
{
}

/// The message is handed back only while a connection attempt is under way.
pub proof fn law_hand_back_only_while_connecting(phase: ConnectionPhase, seen: Observation)
    requires
        observation_fits(phase, seen),
        step_spec(phase, seen) == Step::Reply(SinkReply::NotReady),
    ensures
        phase is Connecting,
        seen is ConnectPending,
{
}

/// After any failure the sink is no longer connected: it goes back to the
/// start, and it waits before trying again only after a failed attempt.
pub proof fn law_failure_starts_over(phase: ConnectionPhase, seen: Observation)
    requires
        observation_fits(phase, seen),
        is_failure(seen),
    ensures
        step_spec(phase, seen) matches Step::Move { next, pause_ms } && next is NotConnected && (
        pause_ms > 0 <==> seen is ConnectFailed),
{
}

/// A move never waits except after a failed attempt.
pub proof fn law_pause_only_after_failed_attempt(phase: ConnectionPhase, seen: Observation)
    requires
        observation_fits(phase, seen),
        !(seen is ConnectFailed),
    ensures
        step_spec(phase, seen) matches Step::Move { pause_ms, .. } ==> pause_ms == 0,
{
}

/// The sink is never stuck: from any phase, a run of at most three fitting
/// observations without a failure ends in a reply.
pub proof fn law_answers_without_failures(phase: ConnectionPhase, seen: Seq<Observation>)
    requires
        seen.len() >= 3,
        run_fits(phase, seen),
        forall|i: int| 0 <= i < seen.len() ==> !is_failure(#[trigger] seen[i]),
    ensures
        run(phase, seen).1 is Some,
{
    reveal_with_fuel(run, 4);
    reveal_with_fuel(run_fits, 4);
    let s1 = seen.drop_first();
    let s2 = s1.drop_first();
    assert(!is_failure(seen[0]));
    assert(s1[0] == seen[1]);
    assert(!is_failure(seen[1]));
    assert(s2[0] == seen[2]);
    assert(!is_failure(seen[2]));
}

/// Whenever the sink answers, it stands in the phase that answer belongs
/// to: `Ready` is answered only when connected and `NotReady` only while
/// connecting, so a sink that has answered is never left not connected.
pub proof fn law_answer_leaves_sink_started(phase: ConnectionPhase, seen: Seq<Observation>)
    requires
        run_fits(phase, seen),
        run(phase, seen).1 is Some,
    ensures
        run(phase, seen).1 == Some(SinkReply::Ready) ==> run(phase, seen).0 is Connected,
        run(phase, seen).1 == Some(SinkReply::NotReady) ==> run(phase, seen).0 is Connecting,
        !(run(phase, seen).0 is NotConnected),
    decreases seen.len(),
{
    match step_spec(phase, seen[0]) {
        Step::Reply(_) => {},
        Step::Move { next, .. } => {
            law_answer_leaves_sink_started(next, seen.drop_first());
        },
    }
}

} // verus!
