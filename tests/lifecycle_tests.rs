use iggy_tcp::client_state::{fail_if_not_authenticated, ClientState};
use iggy_tcp::config_reconnection::TcpClientReconnectionConfig;
use iggy_tcp::diagnostic::DiagnosticEvent;
use iggy_tcp::error::ClientError;
use iggy_tcp::lifecycle::{retry_decision, ClientLifecycle, ConnectAction, SendRetry};

const SECOND: u64 = 1_000_000;

fn connected_client(now: u64) -> (ClientLifecycle, Vec<DiagnosticEvent>) {
    let mut c = ClientLifecycle::new(TcpClientReconnectionConfig::default());
    let mut events = Vec::new();
    let step = c.begin_connect(now);
    assert_eq!(step.action, ConnectAction::Attempt(0));
    let step = c.on_connected(now, false);
    events.extend(step.event);
    assert_eq!(step.action, ConnectAction::Finish(Ok(())));
    (c, events)
}

#[test]
fn state_byte_encoding() {
    let states = [
        ClientState::Shutdown,
        ClientState::Disconnected,
        ClientState::Connecting,
        ClientState::Connected,
        ClientState::Authenticating,
        ClientState::Authenticated,
    ];
    for (i, s) in states.iter().enumerate() {
        assert_eq!(s.as_u8(), i as u8);
        assert_eq!(u8::from(*s), i as u8);
        assert_eq!(ClientState::from_u8(i as u8), *s);
        assert_eq!(ClientState::from(i as u8), *s);
    }
    assert_eq!(ClientState::from_u8(6), ClientState::Disconnected);
    assert_eq!(ClientState::from_u8(255), ClientState::Disconnected);
}

#[test]
fn state_names() {
    assert_eq!(ClientState::Shutdown.as_str(), "shutdown");
    assert_eq!(ClientState::Authenticating.as_str(), "authenticating");
    assert_eq!(ClientState::Authenticated.as_str(), "authenticated");
}

#[test]
fn authentication_gate() {
    assert_eq!(fail_if_not_authenticated(ClientState::Shutdown), Err(ClientError::ClientShutdown));
    assert_eq!(fail_if_not_authenticated(ClientState::Disconnected), Err(ClientError::Disconnected));
    assert_eq!(fail_if_not_authenticated(ClientState::Connecting), Err(ClientError::Disconnected));
    assert_eq!(fail_if_not_authenticated(ClientState::Authenticating), Err(ClientError::Disconnected));
    assert_eq!(fail_if_not_authenticated(ClientState::Connected), Err(ClientError::Unauthenticated));
    assert_eq!(fail_if_not_authenticated(ClientState::Authenticated), Ok(()));
}

#[test]
fn reconnection_defaults() {
    let r = TcpClientReconnectionConfig::default();
    assert!(r.enabled);
    assert_eq!(r.max_retries, None);
    assert_eq!(r.interval_micros, SECOND);
    assert_eq!(r.reestablish_after_micros, 5 * SECOND);
}

#[test]
fn happy_path_connect_and_send() {
    let (c, events) = connected_client(100);
    assert_eq!(events, vec![DiagnosticEvent::Connected]);
    assert_eq!(c.get_state(), ClientState::Connected);
    assert_eq!(c.connected_at, Some(100));
    let frame = c.prepare_request(0x2A, b"hi").unwrap();
    assert_eq!(frame, vec![6, 0, 0, 0, 0x2A, 0, 0, 0, b'h', b'i']);
}

#[test]
fn send_is_refused_before_connecting() {
    let mut c = ClientLifecycle::new(TcpClientReconnectionConfig::default());
    assert_eq!(c.check_send(), Err(ClientError::NotConnected));
    assert_eq!(c.prepare_request(1, b"x"), Err(ClientError::NotConnected));
    c.begin_connect(0);
    assert_eq!(c.get_state(), ClientState::Connecting);
    assert_eq!(c.check_send(), Err(ClientError::NotConnected));
}

#[test]
fn connect_while_connected_is_a_no_op() {
    let (mut c, _) = connected_client(0);
    let before = c;
    let step = c.begin_connect(10);
    assert_eq!(step.event, None);
    assert_eq!(step.action, ConnectAction::Finish(Ok(())));
    assert_eq!(c, before);
}

#[test]
fn error_status_leaves_state_authenticated() {
    let mut c = ClientLifecycle::new(TcpClientReconnectionConfig::default());
    c.begin_connect(0);
    let step = c.on_connected(0, true);
    assert_eq!(step.action, ConnectAction::SignIn);
    c.begin_sign_in();
    let step = c.on_sign_in(Ok(()));
    assert_eq!(step.event, Some(DiagnosticEvent::SignedIn));
    assert_eq!(c.get_state(), ClientState::Authenticated);
    assert!(iggy_tcp::response::handle_response(4011, 0).is_err());
    assert_eq!(c.get_state(), ClientState::Authenticated);
    assert_eq!(retry_decision(ClientError::Status(4011), true), SendRetry::Propagate(ClientError::Status(4011)));
}

#[test]
fn failed_sign_in_disconnects() {
    let mut c = ClientLifecycle::new(TcpClientReconnectionConfig::default());
    c.begin_connect(0);
    c.on_connected(0, true);
    c.begin_sign_in();
    assert_eq!(c.get_state(), ClientState::Authenticating);
    let step = c.on_sign_in(Err(ClientError::Status(42)));
    assert_eq!(step.event, Some(DiagnosticEvent::Disconnected));
    assert_eq!(step.action, ConnectAction::Finish(Err(ClientError::Status(42))));
    assert_eq!(c.get_state(), ClientState::Disconnected);
}

#[test]
fn reconnect_after_disconnected_send() {
    let (mut c, mut events) = connected_client(0);
    assert_eq!(retry_decision(ClientError::Disconnected, true), SendRetry::Reconnect);
    events.extend(c.disconnect(6 * SECOND));
    let step = c.begin_connect(6 * SECOND);
    assert_eq!(step.action, ConnectAction::Attempt(0));
    let step = c.on_connected(6 * SECOND, false);
    events.extend(step.event);
    assert_eq!(
        events,
        vec![DiagnosticEvent::Connected, DiagnosticEvent::Disconnected, DiagnosticEvent::Connected]
    );
    assert_eq!(c.check_send(), Ok(()));
}

#[test]
fn retry_decisions() {
    for e in [
        ClientError::Disconnected,
        ClientError::EmptyResponse,
        ClientError::Unauthenticated,
        ClientError::StaleClient,
    ] {
        assert_eq!(retry_decision(e, true), SendRetry::Reconnect);
        assert_eq!(retry_decision(e, false), SendRetry::Propagate(e));
    }
    assert_eq!(retry_decision(ClientError::TcpError, true), SendRetry::Propagate(ClientError::TcpError));
    assert_eq!(retry_decision(ClientError::NotConnected, true), SendRetry::Propagate(ClientError::NotConnected));
}

#[test]
fn reestablish_window_delays_connect() {
    let (mut c, _) = connected_client(10 * SECOND);
    assert_eq!(c.disconnect(11 * SECOND), Some(DiagnosticEvent::Disconnected));
    assert_eq!(c.last_reconnect_attempt, Some(11 * SECOND));
    let step = c.begin_connect(12 * SECOND);
    assert_eq!(step.action, ConnectAction::Attempt(3 * SECOND));
    assert_eq!(c.connect_started_at, 12 * SECOND);
}

#[test]
fn reestablish_window_over_means_no_delay() {
    let (mut c, _) = connected_client(0);
    c.disconnect(SECOND);
    assert_eq!(c.begin_connect(5 * SECOND).action, ConnectAction::Attempt(0));
}

#[test]
fn shutdown_is_terminal() {
    let (mut c, _) = connected_client(0);
    assert_eq!(c.shutdown(), Some(DiagnosticEvent::Shutdown));
    assert_eq!(c.get_state(), ClientState::Shutdown);
    assert_eq!(c.check_send(), Err(ClientError::ClientShutdown));
    assert_eq!(c.prepare_request(1, b"x"), Err(ClientError::ClientShutdown));
    let step = c.begin_connect(SECOND);
    assert_eq!(step.event, None);
    assert_eq!(step.action, ConnectAction::Finish(Err(ClientError::ClientShutdown)));
    assert_eq!(c.disconnect(SECOND), None);
    assert_eq!(c.shutdown(), None);
    assert_eq!(c.get_state(), ClientState::Shutdown);
}

#[test]
fn disconnect_when_disconnected_is_a_no_op() {
    let mut c = ClientLifecycle::new(TcpClientReconnectionConfig::default());
    assert_eq!(c.disconnect(5), None);
    assert_eq!(c.last_reconnect_attempt, None);
}

#[test]
fn limited_retries_make_at_most_n_plus_one_attempts() {
    let reconnection = TcpClientReconnectionConfig { max_retries: Some(2), ..TcpClientReconnectionConfig::default() };
    let mut c = ClientLifecycle::new(reconnection);
    let mut attempts = 0;
    let mut step = c.begin_connect(0);
    let mut events = Vec::new();
    loop {
        match step.action {
            ConnectAction::Attempt(_) => {
                attempts += 1;
                step = c.on_connect_failed();
                events.extend(step.event);
            }
            _ => break,
        }
    }
    assert_eq!(attempts, 3);
    assert_eq!(step.action, ConnectAction::Finish(Err(ClientError::CannotEstablishConnection)));
    assert_eq!(events, vec![DiagnosticEvent::Disconnected]);
    assert_eq!(c.get_state(), ClientState::Disconnected);
}

#[test]
fn retry_waits_the_interval() {
    let reconnection = TcpClientReconnectionConfig { interval_micros: 250, ..TcpClientReconnectionConfig::default() };
    let mut c = ClientLifecycle::new(reconnection);
    c.begin_connect(0);
    assert_eq!(c.on_connect_failed().action, ConnectAction::Attempt(250));
    assert_eq!(c.retry_count, 1);
}

#[test]
fn unlimited_retries_keep_attempting() {
    let mut c = ClientLifecycle::new(TcpClientReconnectionConfig::default());
    c.begin_connect(0);
    for _ in 0..1000 {
        assert_eq!(c.on_connect_failed().action, ConnectAction::Attempt(SECOND));
    }
    assert_eq!(c.get_state(), ClientState::Connecting);
}

#[test]
fn disabled_reconnection_gives_up_at_once() {
    let reconnection = TcpClientReconnectionConfig { enabled: false, ..TcpClientReconnectionConfig::default() };
    let mut c = ClientLifecycle::new(reconnection);
    c.begin_connect(0);
    let step = c.on_connect_failed();
    assert_eq!(step.action, ConnectAction::Finish(Err(ClientError::CannotEstablishConnection)));
    assert_eq!(c.get_state(), ClientState::Disconnected);
}

#[test]
fn set_state_moves_along_an_edge() {
    let (mut c, _) = connected_client(0);
    assert!(!c.set_state(ClientState::Connecting));
    assert_eq!(c.get_state(), ClientState::Connected);
    assert!(c.set_state(ClientState::Authenticating));
    assert_eq!(c.get_state(), ClientState::Authenticating);
    let mut d = ClientLifecycle::new(TcpClientReconnectionConfig::default());
    assert!(!d.set_state(ClientState::Authenticated));
    assert!(d.set_state(ClientState::Shutdown));
    assert!(!d.set_state(ClientState::Disconnected));
}
