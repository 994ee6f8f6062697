use vstd::prelude::*;

verus! {

/// Microseconds in one second.
pub const MICROS_PER_SECOND: u64 = 1000000;

/// How the client reconnects after a failed connection attempt.
#[derive(Debug, Clone, Copy, PartialEq, Eq, Structural)]
pub struct TcpClientReconnectionConfig {
    /// Whether failed attempts are retried.
    pub enabled: bool,
    /// How many retries follow a failed attempt; `None` retries forever.
    pub max_retries: Option<u32>,
    /// The pause between attempts, in microseconds.
    pub interval_micros: u64,
    /// The least time between a successful connect and the next attempt,
    /// in microseconds.
    pub reestablish_after_micros: u64,
}

/// The default reconnection policy: enabled, unlimited retries one second
/// apart, and five seconds between a connect and the next one.
pub open spec fn default_reconnection() -> TcpClientReconnectionConfig {
    TcpClientReconnectionConfig {
        enabled: true,
        max_retries: None,
        interval_micros: MICROS_PER_SECOND,
        reestablish_after_micros: (5 * MICROS_PER_SECOND) as u64,
    }
}

impl Default for TcpClientReconnectionConfig {
    fn default() -> (r: Self)
        ensures
            r == default_reconnection(),
    {
        TcpClientReconnectionConfig {
            enabled: true,
            max_retries: None,
            interval_micros: MICROS_PER_SECOND,
            reestablish_after_micros: 5 * MICROS_PER_SECOND,
        }
    }
}

} // verus!
