use vstd::prelude::*;
use crate::error::ClientError;

verus! {

/// The lifecycle state of the client.
#[derive(Debug, Clone, Copy, PartialEq, Eq, Structural)]
pub enum ClientState {
    /// The client is shut down; this state is terminal.
    Shutdown,
    /// The client is disconnected.
    Disconnected,
    /// The client is connecting.
    Connecting,
    /// The client is connected.
    Connected,
    /// The client is authenticating.
    Authenticating,
    /// The client is connected and authenticated.
    Authenticated,
}

/// The stable one-byte encoding of a state.
pub open spec fn state_code(s: ClientState) -> u8 {
    match s {
        ClientState::Shutdown => 0,
        ClientState::Disconnected => 1,
        ClientState::Connecting => 2,
        ClientState::Connected => 3,
        ClientState::Authenticating => 4,
        ClientState::Authenticated => 5,
    }
}

/// The state that a byte decodes to; unknown values fall back to
/// `Disconnected`.
pub open spec fn state_of_code(b: u8) -> ClientState {
    if b == 0 {
        ClientState::Shutdown
    } else if b == 2 {
        ClientState::Connecting
    } else if b == 3 {
        ClientState::Connected
    } else if b == 4 {
        ClientState::Authenticating
    } else if b == 5 {
        ClientState::Authenticated
    } else {
        ClientState::Disconnected
    }
}

/// The permitted transitions of the lifecycle.
pub open spec fn can_transition(from: ClientState, to: ClientState) -> bool {
    match (from, to) {
        (ClientState::Shutdown, _) => false,
        (_, ClientState::Shutdown) => true,
        (ClientState::Disconnected, ClientState::Connecting) => true,
        (ClientState::Connecting, ClientState::Connected) => true,
        (ClientState::Connecting, ClientState::Disconnected) => true,
        (ClientState::Connected, ClientState::Authenticating) => true,
        (ClientState::Connected, ClientState::Disconnected) => true,
        (ClientState::Authenticating, ClientState::Authenticated) => true,
        (ClientState::Authenticating, ClientState::Disconnected) => true,
        (ClientState::Authenticated, ClientState::Disconnected) => true,
        _ => false,
    }
}

/// The outcome of the authentication gate for a state.
pub open spec fn auth_gate(s: ClientState) -> Result<(), ClientError> {
    match s {
        ClientState::Shutdown => Err(ClientError::ClientShutdown),
        ClientState::Connected => Err(ClientError::Unauthenticated),
        ClientState::Authenticated => Ok(()),
        _ => Err(ClientError::Disconnected),
    }
}

impl ClientState {
    /// The one-byte encoding of this state.
    pub fn as_u8(&self) -> (r: u8)
        ensures
            r == state_code(*self),
    {
        match self {
            ClientState::Shutdown => 0,
            ClientState::Disconnected => 1,
            ClientState::Connecting => 2,
            ClientState::Connected => 3,
            ClientState::Authenticating => 4,
            ClientState::Authenticated => 5,
        }
    }

    /// Decodes a state from its byte; an unknown byte gives `Disconnected`.
    pub fn from_u8(value: u8) -> (r: ClientState)
        ensures
            r == state_of_code(value),
    {
        match value {
            0 => ClientState::Shutdown,
            2 => ClientState::Connecting,
            3 => ClientState::Connected,
            4 => ClientState::Authenticating,
            5 => ClientState::Authenticated,
            _ => ClientState::Disconnected,
        }
    }

    /// The lower-case name of this state.
    pub fn as_str(&self) -> (r: &'static str)
        ensures
            r@ == state_name(*self),
    {
        match self {
            ClientState::Shutdown => "shutdown",
            ClientState::Disconnected => "disconnected",
            ClientState::Connecting => "connecting",
            ClientState::Connected => "connected",
            ClientState::Authenticating => "authenticating",
            ClientState::Authenticated => "authenticated",
        }
    }
}

/// The lower-case name of a state.
pub open spec fn state_name(s: ClientState) -> Seq<char> {
    match s {
        ClientState::Shutdown => "shutdown"@,
        ClientState::Disconnected => "disconnected"@,
        ClientState::Connecting => "connecting"@,
        ClientState::Connected => "connected"@,
        ClientState::Authenticating => "authenticating"@,
        ClientState::Authenticated => "authenticated"@,
    }
}

impl From<ClientState> for u8 {
    fn from(value: ClientState) -> (r: u8)
        ensures
            r == state_code(value),
    {
        value.as_u8()
    }
}

impl From<u8> for ClientState {
    fn from(value: u8) -> (r: ClientState)
        ensures
            r == state_of_code(value),
    {
        ClientState::from_u8(value)
    }
}

impl vstd::std_specs::convert::FromSpecImpl<ClientState> for u8 {
    open spec fn obeys_from_spec() -> bool {
        true
    }

    open spec fn from_spec(v: ClientState) -> u8 {
        state_code(v)
    }
}

impl vstd::std_specs::convert::FromSpecImpl<u8> for ClientState {
    open spec fn obeys_from_spec() -> bool {
        true
    }

    open spec fn from_spec(v: u8) -> ClientState {
        state_of_code(v)
    }
}

/// Decoding a state's byte gives the state back.
pub proof fn lemma_state_code_round_trip(s: ClientState)
    ensures
        state_of_code(state_code(s)) == s,
{
}

/// Fails unless the client is authenticated: `ClientShutdown` after
/// shutdown, `Unauthenticated` when connected without signing in, and
/// `Disconnected` in the other states.
pub fn fail_if_not_authenticated(state: ClientState) -> (r: Result<(), ClientError>)
    ensures
        r == auth_gate(state),
{
    match state {
        ClientState::Shutdown => Err(ClientError::ClientShutdown),
        ClientState::Disconnected | ClientState::Connecting | ClientState::Authenticating => Err(
            ClientError::Disconnected,
        ),
        ClientState::Connected => Err(ClientError::Unauthenticated),
        ClientState::Authenticated => Ok(()),
    }
}

} // verus!
