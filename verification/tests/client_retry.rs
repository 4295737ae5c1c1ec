use homomorphic_enc::client::{
    default_retry_policy, ConnectAction, ConnectEvent, Connector, RetryPolicy, SessionPhase,
};
use homomorphic_enc::errors::ProtocolError;

#[test]
fn session_phases_run_in_protocol_order() {
    let mut phase = SessionPhase::Disconnected;
    let expected = [
        SessionPhase::Connecting,
        SessionPhase::KeyReady,
        SessionPhase::Encrypting,
        SessionPhase::Sending,
        SessionPhase::AwaitingResult,
        SessionPhase::Decrypting,
        SessionPhase::Done,
    ];
    for next in expected {
        phase = phase.complete_step();
        assert_eq!(phase, next);
    }
    // Done is terminal in both directions.
    assert_eq!(phase.complete_step(), SessionPhase::Done);
    assert_eq!(phase.fail_step(), SessionPhase::Done);
}

#[test]
fn a_failed_step_ends_the_session() {
    let phase = SessionPhase::Connecting;
    assert_eq!(phase.fail_step(), SessionPhase::Failed);
    assert_eq!(SessionPhase::Failed.complete_step(), SessionPhase::Failed);
}

#[test]
fn default_policy_is_five_attempts_one_second_apart() {
    let policy = default_retry_policy();
    assert_eq!(policy, RetryPolicy { max_attempts: 5, delay_ms: 1000 });
}

#[test]
fn unreachable_server_gets_exactly_the_configured_attempts() {
    let policy = default_retry_policy();
    let mut connector = Connector::new(policy);
    let mut retries = 0u32;
    loop {
        match connector.on_event(ConnectEvent::Unreachable) {
            ConnectAction::RetryAfterDelay { delay_ms } => {
                assert_eq!(delay_ms, 1000);
                retries += 1;
            }
            ConnectAction::GiveUp { error } => {
                assert_eq!(error, ProtocolError::ConnectionError { attempts_made: 5 });
                break;
            }
            other => panic!("unexpected action {:?}", other),
        }
    }
    // Four waits between five attempts, then the typed failure.
    assert_eq!(retries, 4);
    assert_eq!(connector.attempts_made, 5);
}

#[test]
fn success_on_first_attempt_uses_the_connection() {
    let mut connector = Connector::new(default_retry_policy());
    assert_eq!(
        connector.on_event(ConnectEvent::Connected),
        ConnectAction::UseConnection
    );
    assert_eq!(connector.attempts_made, 1);
}

#[test]
fn success_after_failures_uses_the_connection() {
    let mut connector = Connector::new(default_retry_policy());
    assert!(matches!(
        connector.on_event(ConnectEvent::Unreachable),
        ConnectAction::RetryAfterDelay { .. }
    ));
    assert_eq!(
        connector.on_event(ConnectEvent::Connected),
        ConnectAction::UseConnection
    );
    assert_eq!(connector.attempts_made, 2);
}

#[test]
fn cancellation_stops_without_consuming_an_attempt() {
    let mut connector = Connector::new(default_retry_policy());
    assert!(matches!(
        connector.on_event(ConnectEvent::Unreachable),
        ConnectAction::RetryAfterDelay { .. }
    ));
    assert_eq!(connector.on_event(ConnectEvent::Cancelled), ConnectAction::Abort);
    assert_eq!(connector.attempts_made, 1);
}

#[test]
fn single_attempt_policy_gives_up_immediately() {
    let mut connector = Connector::new(RetryPolicy { max_attempts: 1, delay_ms: 50 });
    assert_eq!(
        connector.on_event(ConnectEvent::Unreachable),
        ConnectAction::GiveUp { error: ProtocolError::ConnectionError { attempts_made: 1 } }
    );
}
