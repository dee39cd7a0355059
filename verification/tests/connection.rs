use async_bzip::connection::{
    attempt_for, next_step, Attempt, ConnectionPhase, Observation, SinkReply, Step, RETRY_PAUSE_MS,
};

#[test]
fn phase_names() {
    assert_eq!(ConnectionPhase::NotConnected.name(), "NotConnected");
    assert_eq!(ConnectionPhase::Connecting.name(), "Connecting");
    assert_eq!(ConnectionPhase::Connected.name(), "Connected");
}

#[test]
fn attempt_in_each_phase() {
    assert!(matches!(attempt_for(&ConnectionPhase::NotConnected), Attempt::StartConnecting));
    assert!(matches!(attempt_for(&ConnectionPhase::Connecting), Attempt::PollConnecting));
    assert!(matches!(attempt_for(&ConnectionPhase::Connected), Attempt::SendMessage));
}

/// Runs the sink's loop over a list of observations, as the caller does.
fn drive(mut phase: ConnectionPhase, seen: &[Observation]) -> (ConnectionPhase, Option<SinkReply>, u64) {
    let mut paused = 0;
    for obs in seen {
        match next_step(&phase, obs) {
            Step::Reply(reply) => return (phase, Some(reply), paused),
            Step::Move { next, pause_ms } => {
                paused += pause_ms;
                phase = next;
            }
        }
    }
    (phase, None, paused)
}

#[test]
fn connect_then_deliver() {
    let (phase, reply, paused) = drive(
        ConnectionPhase::NotConnected,
        &[Observation::AttemptStarted, Observation::ConnectSucceeded, Observation::SendAccepted],
    );
    assert!(matches!(phase, ConnectionPhase::Connected));
    assert!(matches!(reply, Some(SinkReply::Ready)));
    assert_eq!(paused, 0);
}

#[test]
fn pending_connection_hands_message_back() {
    let (phase, reply, _) = drive(
        ConnectionPhase::NotConnected,
        &[Observation::AttemptStarted, Observation::ConnectPending],
    );
    assert!(matches!(phase, ConnectionPhase::Connecting));
    assert!(matches!(reply, Some(SinkReply::NotReady)));
}

#[test]
fn failed_attempt_pauses_and_starts_over() {
    let step = next_step(&ConnectionPhase::Connecting, &Observation::ConnectFailed);
    assert!(matches!(step, Step::Move { next: ConnectionPhase::NotConnected, pause_ms } if pause_ms == RETRY_PAUSE_MS));
    assert_eq!(RETRY_PAUSE_MS, 50);
    let (phase, reply, paused) = drive(
        ConnectionPhase::NotConnected,
        &[
            Observation::AttemptStarted,
            Observation::ConnectFailed,
            Observation::AttemptStarted,
            Observation::ConnectSucceeded,
            Observation::SendAccepted,
        ],
    );
    assert!(matches!(phase, ConnectionPhase::Connected));
    assert!(matches!(reply, Some(SinkReply::Ready)));
    assert_eq!(paused, 50);
}

#[test]
fn lost_connection_reconnects_without_pause() {
    let step = next_step(&ConnectionPhase::Connected, &Observation::SendRefused);
    assert!(matches!(step, Step::Move { next: ConnectionPhase::NotConnected, pause_ms: 0 }));
    let (phase, reply, paused) = drive(
        ConnectionPhase::Connected,
        &[
            Observation::SendRefused,
            Observation::AttemptStarted,
            Observation::ConnectSucceeded,
            Observation::SendAccepted,
        ],
    );
    assert!(matches!(phase, ConnectionPhase::Connected));
    assert!(matches!(reply, Some(SinkReply::Ready)));
    assert_eq!(paused, 0);
}
