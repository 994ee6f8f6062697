use vstd::prelude::*;
use crate::client_state::{can_transition, ClientState};
use crate::config_reconnection::TcpClientReconnectionConfig;
use crate::diagnostic::DiagnosticEvent;
use crate::error::ClientError;
use crate::frame::{encode_request, request_frame};

verus! {

/// What the connecting task does next.
#[derive(Debug, Clone, Copy, PartialEq, Eq)]
pub enum ConnectAction {
    /// Wait this many microseconds, then open a TCP connection to the server.
    Attempt(u64),
    /// The connection is up: sign in with the configured credentials.
    SignIn,
    /// `connect` is over with this result.
    Finish(Result<(), ClientError>),
}

/// A decision of the connect procedure: an event to publish first, if any,
/// and what to do next.
#[derive(Debug, Clone, Copy, PartialEq, Eq)]
pub struct ConnectStep {
    pub event: Option<DiagnosticEvent>,
    pub action: ConnectAction,
}

/// What to do after a raw send failed.
#[derive(Debug, Clone, Copy, PartialEq, Eq, Structural)]
pub enum SendRetry {
    /// Return this error to the caller.
    Propagate(ClientError),
    /// Disconnect, connect again (signing in again), and retry the send once.
    Reconnect,
}

/// The lifecycle of a client: its state, its connection timestamps (in
/// microseconds of a monotonic clock) and the progress of a connect.
#[derive(Debug, Clone, Copy, PartialEq, Eq, Structural)]
pub struct ClientLifecycle {
    pub state: ClientState,
    /// When the last connection was established.
    pub connected_at: Option<u64>,
    /// When the client last disconnected.
    pub last_reconnect_attempt: Option<u64>,
    /// The clock when the current or last connect began.
    pub connect_started_at: u64,
    /// Retries made so far in the current connect.
    pub retry_count: u32,
    pub reconnection: TcpClientReconnectionConfig,
}

/// The states in which a connection is established.
pub open spec fn is_up(s: ClientState) -> bool {
    s == ClientState::Connected || s == ClientState::Authenticating || s
        == ClientState::Authenticated
}

/// Whether `to` is `from` or a permitted transition from it.
pub open spec fn stays_or_moves(from: ClientState, to: ClientState) -> bool {
    from == to || can_transition(from, to)
}

/// How long a connect waits before its first attempt: the rest of the
/// reestablish window that began when the last connection was made.
pub open spec fn reestablish_delay(connected_at: Option<u64>, now: u64, window: u64) -> u64 {
    match connected_at {
        Some(t) => {
            let elapsed: int = if now >= t {
                now - t
            } else {
                0
            };
            if elapsed < window {
                (window - elapsed) as u64
            } else {
                0
            }
        },
        None => 0,
    }
}

/// Whether sending is possible in a state: not after shutdown, and not
/// before a connection is established.
pub open spec fn send_gate(s: ClientState) -> Result<(), ClientError> {
    match s {
        ClientState::Shutdown => Err(ClientError::ClientShutdown),
        ClientState::Disconnected | ClientState::Connecting => Err(ClientError::NotConnected),
        _ => Ok(()),
    }
}

/// The errors after which a send is retried over a new connection.
pub open spec fn is_reconnectable(e: ClientError) -> bool {
    e == ClientError::Disconnected || e == ClientError::EmptyResponse || e
        == ClientError::Unauthenticated || e == ClientError::StaleClient
}

/// A step that ends the connect procedure.
pub open spec fn finish(event: Option<DiagnosticEvent>, r: Result<(), ClientError>) -> ConnectStep {
    ConnectStep { event, action: ConnectAction::Finish(r) }
}

/// The lifecycle after `connect` was called at `now`.
pub open spec fn after_begin_connect(c: ClientLifecycle, now: u64) -> ClientLifecycle {
    if c.state == ClientState::Disconnected {
        ClientLifecycle { state: ClientState::Connecting, connect_started_at: now, retry_count: 0, ..c }
    } else {
        c
    }
}

/// The first step of `connect`: it fails after shutdown, succeeds at once
/// while connecting or connected, and otherwise attempts a connection once
/// the reestablish window is over.
pub open spec fn begin_connect_step(c: ClientLifecycle, now: u64) -> ConnectStep {
    match c.state {
        ClientState::Shutdown => finish(None, Err(ClientError::ClientShutdown)),
        ClientState::Disconnected => ConnectStep {
            event: None,
            action: ConnectAction::Attempt(
                reestablish_delay(c.connected_at, now, c.reconnection.reestablish_after_micros),
            ),
        },
        _ => finish(None, Ok(())),
    }
}

/// Whether a failed attempt ends the connect: reconnection is disabled, or
/// the retries are used up.
pub open spec fn gives_up(c: ClientLifecycle) -> bool {
    !c.reconnection.enabled || match c.reconnection.max_retries {
        Some(n) => c.retry_count >= n,
        None => false,
    }
}

/// One more retry, saturating.
pub open spec fn next_retry_count(n: u32) -> u32 {
    if n < u32::MAX {
        (n + 1) as u32
    } else {
        n
    }
}

/// The lifecycle after a connection attempt failed.
pub open spec fn after_connect_failure(c: ClientLifecycle) -> ClientLifecycle {
    if gives_up(c) {
        ClientLifecycle { state: ClientState::Disconnected, ..c }
    } else {
        ClientLifecycle { retry_count: next_retry_count(c.retry_count), ..c }
    }
}

/// The step after a connection attempt failed: give up, publishing
/// `Disconnected`, or wait the retry interval and attempt again.
pub open spec fn connect_failure_step(c: ClientLifecycle) -> ConnectStep {
    if gives_up(c) {
        finish(Some(DiagnosticEvent::Disconnected), Err(ClientError::CannotEstablishConnection))
    } else {
        ConnectStep { event: None, action: ConnectAction::Attempt(c.reconnection.interval_micros) }
    }
}

/// The lifecycle once a connection was established at `now`.
pub open spec fn after_connected(c: ClientLifecycle, now: u64) -> ClientLifecycle {
    ClientLifecycle { state: ClientState::Connected, connected_at: Some(now), ..c }
}

/// The step once a connection was established: publish `Connected`, then
/// sign in if asked to, or finish.
pub open spec fn connected_step(sign_in: bool) -> ConnectStep {
    ConnectStep {
        event: Some(DiagnosticEvent::Connected),
        action: if sign_in {
            ConnectAction::SignIn
        } else {
            ConnectAction::Finish(Ok(()))
        },
    }
}

/// The lifecycle after the sign-in finished with `result`.
pub open spec fn after_sign_in(c: ClientLifecycle, result: Result<(), ClientError>) -> ClientLifecycle {
    ClientLifecycle {
        state: if result is Ok {
            ClientState::Authenticated
        } else {
            ClientState::Disconnected
        },
        ..c
    }
}

/// The step after the sign-in: publish `SignedIn` on success; on failure
/// publish `Disconnected` and return the sign-in error.
pub open spec fn sign_in_step(result: Result<(), ClientError>) -> ConnectStep {
    match result {
        Ok(()) => finish(Some(DiagnosticEvent::SignedIn), Ok(())),
        Err(e) => finish(Some(DiagnosticEvent::Disconnected), Err(e)),
    }
}

/// Whether `disconnect` leaves a state as it is.
pub open spec fn disconnect_is_noop(s: ClientState) -> bool {
    s == ClientState::Disconnected || s == ClientState::Shutdown
}

/// The lifecycle after `disconnect` at `now`.
pub open spec fn after_disconnect(c: ClientLifecycle, now: u64) -> ClientLifecycle {
    if disconnect_is_noop(c.state) {
        c
    } else {
        ClientLifecycle { state: ClientState::Disconnected, last_reconnect_attempt: Some(now), ..c }
    }
}

/// The lifecycle after `shutdown`.
pub open spec fn after_shutdown(c: ClientLifecycle) -> ClientLifecycle {
    ClientLifecycle { state: ClientState::Shutdown, ..c }
}

impl ClientLifecycle {
    /// The invariant: an established connection has a connect time no
    /// earlier than the start of the connect that made it, and a connect
    /// never retries more often than allowed.
    pub open spec fn wf(&self) -> bool {
        &&& (is_up(self.state) ==> match self.connected_at {
            Some(t) => t >= self.connect_started_at,
            None => false,
        })
        &&& match self.reconnection.max_retries {
            Some(n) => self.retry_count <= n,
            None => true,
        }
    }

    /// A disconnected client that has never connected.
    pub fn new(reconnection: TcpClientReconnectionConfig) -> (r: Self)
        ensures
            r == (ClientLifecycle {
                state: ClientState::Disconnected,
                connected_at: None,
                last_reconnect_attempt: None,
                connect_started_at: 0,
                retry_count: 0,
                reconnection,
            }),
            r.wf(),
    {
        ClientLifecycle {
            state: ClientState::Disconnected,
            connected_at: None,
            last_reconnect_attempt: None,
            connect_started_at: 0,
            retry_count: 0,
            reconnection,
        }
    }

    /// The current state.
    pub fn get_state(&self) -> (r: ClientState)
        ensures
            r == self.state,
    {
        self.state
    }

    /// Moves to `state` when that is a permitted transition that does not
    /// reach an established state from one without a connection; tells
    /// whether it moved.
    pub fn set_state(&mut self, state: ClientState) -> (r: bool)
        requires
            old(self).wf(),
        ensures
            r == (can_transition(old(self).state, state) && (is_up(state) ==> is_up(
                old(self).state,
            ))),
            r ==> *final(self) == (ClientLifecycle { state, ..*old(self) }),
            !r ==> *final(self) == *old(self),
            final(self).wf(),
    {
        let permitted = match (self.state, state) {
            (ClientState::Shutdown, _) => false,
            (_, ClientState::Shutdown) => true,
            (ClientState::Disconnected, ClientState::Connecting) => true,
            (ClientState::Connecting, ClientState::Disconnected) => true,
            (ClientState::Connected, ClientState::Authenticating) => true,
            (ClientState::Connected, ClientState::Disconnected) => true,
            (ClientState::Authenticating, ClientState::Authenticated) => true,
            (ClientState::Authenticating, ClientState::Disconnected) => true,
            (ClientState::Authenticated, ClientState::Disconnected) => true,
            _ => false,
        };
        if permitted {
            self.state = state;
        }
        permitted
    }

    /// Fails unless a request can be sent: `ClientShutdown` after shutdown,
    /// `NotConnected` while disconnected or connecting.
    pub fn check_send(&self) -> (r: Result<(), ClientError>)
        ensures
            r == send_gate(self.state),
    {
        match self.state {
            ClientState::Shutdown => Err(ClientError::ClientShutdown),
            ClientState::Disconnected | ClientState::Connecting => Err(ClientError::NotConnected),
            _ => Ok(()),
        }
    }

    /// The request frame to write for `code` and `payload`, when sending is
    /// possible.
    pub fn prepare_request(&self, code: u32, payload: &[u8]) -> (r: Result<Vec<u8>, ClientError>)
        requires
            payload@.len() + 4 <= u32::MAX,
        ensures
            match r {
                Ok(frame) => send_gate(self.state) is Ok && frame@ == request_frame(code, payload@),
                Err(e) => send_gate(self.state) == Err::<(), ClientError>(e),
            },
    {
        match self.check_send() {
            Err(e) => Err(e),
            Ok(()) => Ok(encode_request(code, payload)),
        }
    }

    /// Starts `connect` at time `now`.
    pub fn begin_connect(&mut self, now: u64) -> (r: ConnectStep)
        requires
            old(self).wf(),
        ensures
            *final(self) == after_begin_connect(*old(self), now),
            r == begin_connect_step(*old(self), now),
            final(self).wf(),
            stays_or_moves(old(self).state, final(self).state),
    {
        match self.state {
            ClientState::Shutdown => ConnectStep {
                event: None,
                action: ConnectAction::Finish(Err(ClientError::ClientShutdown)),
            },
            ClientState::Disconnected => {
                self.state = ClientState::Connecting;
                self.connect_started_at = now;
                self.retry_count = 0;
                let window = self.reconnection.reestablish_after_micros;
                let delay: u64 = match self.connected_at {
                    Some(t) => {
                        let elapsed: u64 = if now >= t {
                            now - t
                        } else {
                            0
                        };
                        if elapsed < window {
                            window - elapsed
                        } else {
                            0
                        }
                    },
                    None => 0,
                };
                ConnectStep { event: None, action: ConnectAction::Attempt(delay) }
            },
            _ => ConnectStep { event: None, action: ConnectAction::Finish(Ok(())) },
        }
    }

    /// Handles a failed connection attempt.
    pub fn on_connect_failed(&mut self) -> (r: ConnectStep)
        requires
            old(self).wf(),
            old(self).state == ClientState::Connecting,
        ensures
            *final(self) == after_connect_failure(*old(self)),
            r == connect_failure_step(*old(self)),
            final(self).wf(),
            stays_or_moves(old(self).state, final(self).state),
    {
        let give_up = !self.reconnection.enabled || match self.reconnection.max_retries {
            Some(n) => self.retry_count >= n,
            None => false,
        };
        if give_up {
            self.state = ClientState::Disconnected;
            ConnectStep {
                event: Some(DiagnosticEvent::Disconnected),
                action: ConnectAction::Finish(Err(ClientError::CannotEstablishConnection)),
            }
        } else {
            self.retry_count = self.retry_count.saturating_add(1);
            ConnectStep {
                event: None,
                action: ConnectAction::Attempt(self.reconnection.interval_micros),
            }
        }
    }

    /// Handles an established connection at time `now`; `sign_in` tells
    /// whether the configuration asks for an automatic sign-in.
    pub fn on_connected(&mut self, now: u64, sign_in: bool) -> (r: ConnectStep)
        requires
            old(self).wf(),
            old(self).state == ClientState::Connecting,
            now >= old(self).connect_started_at,
        ensures
            *final(self) == after_connected(*old(self), now),
            r == connected_step(sign_in),
            final(self).wf(),
            stays_or_moves(old(self).state, final(self).state),
    {
        self.state = ClientState::Connected;
        self.connected_at = Some(now);
        ConnectStep {
            event: Some(DiagnosticEvent::Connected),
            action: if sign_in {
                ConnectAction::SignIn
            } else {
                ConnectAction::Finish(Ok(()))
            },
        }
    }

    /// Starts the automatic sign-in.
    pub fn begin_sign_in(&mut self)
        requires
            old(self).wf(),
            old(self).state == ClientState::Connected,
        ensures
            *final(self) == (ClientLifecycle { state: ClientState::Authenticating, ..*old(self) }),
            final(self).wf(),
            stays_or_moves(old(self).state, final(self).state),
    {
        self.state = ClientState::Authenticating;
    }

    /// Handles the result of the automatic sign-in.
    pub fn on_sign_in(&mut self, result: Result<(), ClientError>) -> (r: ConnectStep)
        requires
            old(self).wf(),
            old(self).state == ClientState::Authenticating,
        ensures
            *final(self) == after_sign_in(*old(self), result),
            r == sign_in_step(result),
            final(self).wf(),
            stays_or_moves(old(self).state, final(self).state),
    {
        match result {
            Ok(()) => {
                self.state = ClientState::Authenticated;
                ConnectStep {
                    event: Some(DiagnosticEvent::SignedIn),
                    action: ConnectAction::Finish(Ok(())),
                }
            },
            Err(e) => {
                self.state = ClientState::Disconnected;
                ConnectStep {
                    event: Some(DiagnosticEvent::Disconnected),
                    action: ConnectAction::Finish(Err(e)),
                }
            },
        }
    }

    /// Disconnects at time `now`; returns the event to publish, none when
    /// the client was already disconnected or shut down.
    pub fn disconnect(&mut self, now: u64) -> (r: Option<DiagnosticEvent>)
        requires
            old(self).wf(),
        ensures
            *final(self) == after_disconnect(*old(self), now),
            r == (if disconnect_is_noop(old(self).state) {
                None
            } else {
                Some(DiagnosticEvent::Disconnected)
            }),
            final(self).wf(),
            stays_or_moves(old(self).state, final(self).state),
    {
        if matches!(self.state, ClientState::Disconnected) || matches!(
            self.state,
            ClientState::Shutdown
        ) {
            return None;
        }
        self.state = ClientState::Disconnected;
        self.last_reconnect_attempt = Some(now);
        Some(DiagnosticEvent::Disconnected)
    }

    /// Shuts the client down for good; returns the event to publish, none
    /// when it was already shut down.
    pub fn shutdown(&mut self) -> (r: Option<DiagnosticEvent>)
        requires
            old(self).wf(),
        ensures
            *final(self) == after_shutdown(*old(self)),
            r == (if old(self).state == ClientState::Shutdown {
                None
            } else {
                Some(DiagnosticEvent::Shutdown)
            }),
            final(self).wf(),
            stays_or_moves(old(self).state, final(self).state),
    {
        if matches!(self.state, ClientState::Shutdown) {
            return None;
        }
        self.state = ClientState::Shutdown;
        Some(DiagnosticEvent::Shutdown)
    }
}

/// Decides what follows a failed raw send: errors of the reconnectable
/// kinds lead to one reconnect and retry when reconnection is enabled;
/// every other failure is returned as it is.
pub fn retry_decision(error: ClientError, reconnection_enabled: bool) -> (r: SendRetry)
    ensures
        r == (if is_reconnectable(error) && reconnection_enabled {
            SendRetry::Reconnect
        } else {
            SendRetry::Propagate(error)
        }),
{
    let reconnectable = match error {
        ClientError::Disconnected | ClientError::EmptyResponse | ClientError::Unauthenticated
        | ClientError::StaleClient => true,
        _ => false,
    };
    if reconnectable && reconnection_enabled {
        SendRetry::Reconnect
    } else {
        SendRetry::Propagate(error)
    }
}

/// How many of `k` consecutive failed attempts are followed by another
/// attempt, starting from `c`; the count stops once the connect gave up.
pub open spec fn attempts_after_failures(c: ClientLifecycle, k: nat) -> nat
    decreases k,
{
    if k == 0 || c.state != ClientState::Connecting {
        0
    } else {
        (if connect_failure_step(c).action is Attempt {
            1nat
        } else {
            0nat
        }) + attempts_after_failures(after_connect_failure(c), (k - 1) as nat)
    }
}

proof fn lemma_attempts_within_retries(c: ClientLifecycle, k: nat, n: u32)
    requires
        c.wf(),
        c.reconnection.max_retries == Some(n),
    ensures
        attempts_after_failures(c, k) + c.retry_count <= n,
    decreases k,
{
    if k > 0 && c.state == ClientState::Connecting {
        let d = after_connect_failure(c);
        lemma_attempts_within_retries(d, (k - 1) as nat, n);
    }
}

/// With `max_retries = Some(n)`, a connect opens at most `n + 1` TCP
/// connections: the first attempt, then one per retry, however many of them
/// fail.
pub proof fn lemma_connect_attempts_bounded(c: ClientLifecycle, now: u64, failures: nat, n: u32)
    requires
        c.wf(),
        c.reconnection.max_retries == Some(n),
    ensures
        begin_connect_step(c, now).action is Attempt ==> 1 + attempts_after_failures(
            after_begin_connect(c, now),
            failures,
        ) <= n + 1,
{
    if c.state == ClientState::Disconnected {
        lemma_attempts_within_retries(after_begin_connect(c, now), failures, n);
    }
}

/// With reconnection enabled and no retry limit, a connect whose attempts
/// keep failing never gives up: each failure is followed by another attempt.
pub proof fn lemma_unlimited_retries_never_give_up(c: ClientLifecycle, failures: nat)
    requires
        c.reconnection.enabled,
        c.reconnection.max_retries is None,
        c.state == ClientState::Connecting,
    ensures
        attempts_after_failures(c, failures) == failures,
    decreases failures,
{
    if failures > 0 {
        lemma_unlimited_retries_never_give_up(after_connect_failure(c), (failures - 1) as nat);
    }
}

/// Every transition keeps the invariant and moves only along permitted
/// edges; in particular no transition reaches an established state without
/// a connect time no earlier than the clock at the start of that connect.
pub proof fn lemma_transitions_keep_invariant(
    c: ClientLifecycle,
    now: u64,
    result: Result<(), ClientError>,
)
    requires
        c.wf(),
    ensures
        after_begin_connect(c, now).wf(),
        stays_or_moves(c.state, after_begin_connect(c, now).state),
        c.state == ClientState::Connecting ==> after_connect_failure(c).wf() && stays_or_moves(
            c.state,
            after_connect_failure(c).state,
        ),
        c.state == ClientState::Connecting && now >= c.connect_started_at ==> after_connected(
            c,
            now,
        ).wf() && after_connected(c, now).connected_at == Some(now) && stays_or_moves(
            c.state,
            after_connected(c, now).state,
        ),
        c.state == ClientState::Authenticating ==> after_sign_in(c, result).wf() && stays_or_moves(
            c.state,
            after_sign_in(c, result).state,
        ),
        after_disconnect(c, now).wf(),
        stays_or_moves(c.state, after_disconnect(c, now).state),
        after_shutdown(c).wf(),
        stays_or_moves(c.state, after_shutdown(c).state),
{
}

/// Shutdown is terminal: once shut down, sending fails with
/// `ClientShutdown`, `connect` fails with it too, and no operation changes
/// the state or publishes an event.
pub proof fn lemma_shutdown_is_terminal(c: ClientLifecycle, now: u64)
    requires
        c.state == ClientState::Shutdown,
    ensures
        send_gate(c.state) == Err::<(), ClientError>(ClientError::ClientShutdown),
        begin_connect_step(c, now) == finish(None, Err(ClientError::ClientShutdown)),
        after_begin_connect(c, now) == c,
        disconnect_is_noop(c.state),
        after_disconnect(c, now) == c,
        after_shutdown(c) == c,
        forall|s: ClientState| !can_transition(c.state, s),
{
}

/// A connect that starts while the reestablish window of the last
/// connection is still open waits at least until the window is over before
/// its first attempt.
pub proof fn lemma_reestablish_window_respected(c: ClientLifecycle, now: u64, t: u64)
    requires
        c.state == ClientState::Disconnected,
        c.connected_at == Some(t),
        now >= t,
    ensures
        begin_connect_step(c, now).action is Attempt,
        begin_connect_step(c, now).event is None,
        now + begin_connect_step(c, now).action->Attempt_0 >= t
            + c.reconnection.reestablish_after_micros,
{
}

/// The first connect of a fresh client publishes exactly one event,
/// `Connected`, and succeeds once the connection is up when no sign-in is
/// asked for.
pub proof fn lemma_first_connect_publishes_connected(
    reconnection: TcpClientReconnectionConfig,
    start: u64,
    connected: u64,
)
    requires
        connected >= start,
    ensures
        ({
            let fresh = ClientLifecycle {
                state: ClientState::Disconnected,
                connected_at: None,
                last_reconnect_attempt: None,
                connect_started_at: 0,
                retry_count: 0,
                reconnection,
            };
            let connecting = after_begin_connect(fresh, start);
            &&& begin_connect_step(fresh, start) == (ConnectStep {
                event: None,
                action: ConnectAction::Attempt(0),
            })
            &&& connecting.state == ClientState::Connecting
            &&& connected >= connecting.connect_started_at
            &&& connected_step(false) == finish(Some(DiagnosticEvent::Connected), Ok(()))
            &&& after_connected(connecting, connected).state == ClientState::Connected
        }),
{
}

/// Reconnecting a connected client after a failed send publishes
/// `Disconnected` and then `Connected`, and leaves it connected: with the
/// `Connected` of its first connect, the events are `Connected`,
/// `Disconnected`, `Connected`.
pub proof fn lemma_reconnect_events(c: ClientLifecycle, dropped: u64, again: u64, connected: u64)
    requires
        c.wf(),
        c.state == ClientState::Connected,
        again <= connected,
    ensures
        ({
            let d = after_disconnect(c, dropped);
            let r = after_begin_connect(d, again);
            &&& !disconnect_is_noop(c.state)
            &&& d.state == ClientState::Disconnected
            &&& begin_connect_step(d, again).event is None
            &&& begin_connect_step(d, again).action is Attempt
            &&& r.state == ClientState::Connecting
            &&& connected >= r.connect_started_at
            &&& connected_step(false).event == Some(DiagnosticEvent::Connected)
            &&& after_connected(r, connected).state == ClientState::Connected
            &&& send_gate(after_connected(r, connected).state) is Ok
        }),
{
}

} // verus!
