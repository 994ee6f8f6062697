use vstd::prelude::*;

verus! {

/// A lifecycle signal broadcast to subscribers.
#[derive(Debug, Clone, Copy, PartialEq, Eq, Structural)]
pub enum DiagnosticEvent {
    Connected,
    Disconnected,
    Shutdown,
    SignedIn,
    SignedOut,
}

/// How many events the broadcast channel holds for slow subscribers.
pub const EVENT_CHANNEL_CAPACITY: usize = 1000;

} // verus!
