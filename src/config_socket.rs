use vstd::prelude::*;

verus! {

/// Socket optimization profile for different workload types.
#[derive(Debug, Clone, Copy, PartialEq, Eq, Structural)]
pub enum SocketOptimizationProfile {
    /// Lowest latency: smaller buffers, aggressive TCP options.
    LowestLatency,
    /// A balance between latency and throughput.
    Balanced,
    /// Highest throughput: larger buffers.
    HighestThroughput,
}

impl Default for SocketOptimizationProfile {
    fn default() -> (r: Self)
        ensures
            r == SocketOptimizationProfile::Balanced,
    {
        SocketOptimizationProfile::Balanced
    }
}

/// TCP socket configuration with platform-specific optimizations.
#[derive(Debug, Clone, Copy, PartialEq, Eq, Structural)]
pub struct TcpSocketConfig {
    /// Size of the socket receive buffer in bytes (SO_RCVBUF) in balanced mode.
    pub receive_buffer_size: u32,
    /// Size of the socket send buffer in bytes (SO_SNDBUF) in balanced mode.
    pub send_buffer_size: u32,
    /// TCP_NODELAY: disables Nagle's algorithm.
    pub nodelay: bool,
    /// TCP_QUICKACK: disables delayed ACKs (Linux).
    pub quick_ack: bool,
    /// TCP_FASTOPEN: data during the handshake (Linux).
    pub tcp_fastopen: bool,
    /// SO_KEEPALIVE.
    pub keepalive: bool,
    /// Keepalive idle time in seconds.
    pub keepalive_time: u32,
    /// Interval between keepalive probes in seconds.
    pub keepalive_interval: u32,
    /// Number of keepalive probes.
    pub keepalive_probes: u32,
    /// SO_REUSEADDR.
    pub reuse_address: bool,
    /// SO_REUSEPORT (Linux and macOS).
    pub reuse_port: bool,
    /// TCP_CORK / TCP_NOPUSH packet coalescing.
    pub cork_or_nopush: bool,
    /// The optimization profile, which picks the effective buffer sizes.
    pub optimization_profile: SocketOptimizationProfile,
    /// Receive buffer size in lowest-latency mode.
    pub latency_mode_receive_buffer_size: u32,
    /// Send buffer size in lowest-latency mode.
    pub latency_mode_send_buffer_size: u32,
    /// Receive buffer size in highest-throughput mode.
    pub throughput_mode_receive_buffer_size: u32,
    /// Send buffer size in highest-throughput mode.
    pub throughput_mode_send_buffer_size: u32,
}

/// Buffer size in lowest-latency mode unless configured otherwise: 8 KiB.
pub const LATENCY_MODE_BUFFER_SIZE: u32 = 8192;

/// Buffer size in highest-throughput mode unless configured otherwise: 8 MiB.
pub const THROUGHPUT_MODE_BUFFER_SIZE: u32 = 8388608;

/// Buffer size in balanced mode unless configured otherwise: 4 MiB.
pub const BALANCED_BUFFER_SIZE: u32 = 4194304;

/// The default socket configuration.
pub open spec fn default_socket_config() -> TcpSocketConfig {
    TcpSocketConfig {
        receive_buffer_size: BALANCED_BUFFER_SIZE,
        send_buffer_size: BALANCED_BUFFER_SIZE,
        nodelay: true,
        quick_ack: true,
        tcp_fastopen: true,
        keepalive: true,
        keepalive_time: 60,
        keepalive_interval: 10,
        keepalive_probes: 6,
        reuse_address: true,
        reuse_port: true,
        cork_or_nopush: false,
        optimization_profile: SocketOptimizationProfile::Balanced,
        latency_mode_receive_buffer_size: LATENCY_MODE_BUFFER_SIZE,
        latency_mode_send_buffer_size: LATENCY_MODE_BUFFER_SIZE,
        throughput_mode_receive_buffer_size: THROUGHPUT_MODE_BUFFER_SIZE,
        throughput_mode_send_buffer_size: THROUGHPUT_MODE_BUFFER_SIZE,
    }
}

/// The effective receive buffer size: the size of the profile's mode.
pub open spec fn effective_receive_size(c: TcpSocketConfig) -> u32 {
    match c.optimization_profile {
        SocketOptimizationProfile::LowestLatency => c.latency_mode_receive_buffer_size,
        SocketOptimizationProfile::Balanced => c.receive_buffer_size,
        SocketOptimizationProfile::HighestThroughput => c.throughput_mode_receive_buffer_size,
    }
}

/// The effective send buffer size: the size of the profile's mode.
pub open spec fn effective_send_size(c: TcpSocketConfig) -> u32 {
    match c.optimization_profile {
        SocketOptimizationProfile::LowestLatency => c.latency_mode_send_buffer_size,
        SocketOptimizationProfile::Balanced => c.send_buffer_size,
        SocketOptimizationProfile::HighestThroughput => c.throughput_mode_send_buffer_size,
    }
}

impl Default for TcpSocketConfig {
    fn default() -> (r: Self)
        ensures
            r == default_socket_config(),
    {
        TcpSocketConfig {
            receive_buffer_size: BALANCED_BUFFER_SIZE,
            send_buffer_size: BALANCED_BUFFER_SIZE,
            nodelay: true,
            quick_ack: true,
            tcp_fastopen: true,
            keepalive: true,
            keepalive_time: 60,
            keepalive_interval: 10,
            keepalive_probes: 6,
            reuse_address: true,
            reuse_port: true,
            cork_or_nopush: false,
            optimization_profile: SocketOptimizationProfile::Balanced,
            latency_mode_receive_buffer_size: LATENCY_MODE_BUFFER_SIZE,
            latency_mode_send_buffer_size: LATENCY_MODE_BUFFER_SIZE,
            throughput_mode_receive_buffer_size: THROUGHPUT_MODE_BUFFER_SIZE,
            throughput_mode_send_buffer_size: THROUGHPUT_MODE_BUFFER_SIZE,
        }
    }
}

impl TcpSocketConfig {
    /// A configuration with the given settings and the default mode-specific
    /// buffer sizes.
    #[allow(clippy::too_many_arguments)]
    pub fn new(
        receive_buffer_size: u32,
        send_buffer_size: u32,
        nodelay: bool,
        quick_ack: bool,
        tcp_fastopen: bool,
        keepalive: bool,
        keepalive_time: u32,
        keepalive_interval: u32,
        keepalive_probes: u32,
        reuse_address: bool,
        reuse_port: bool,
        cork_or_nopush: bool,
        optimization_profile: SocketOptimizationProfile,
    ) -> (r: Self)
        ensures
            r == (TcpSocketConfig {
                receive_buffer_size,
                send_buffer_size,
                nodelay,
                quick_ack,
                tcp_fastopen,
                keepalive,
                keepalive_time,
                keepalive_interval,
                keepalive_probes,
                reuse_address,
                reuse_port,
                cork_or_nopush,
                optimization_profile,
                latency_mode_receive_buffer_size: LATENCY_MODE_BUFFER_SIZE,
                latency_mode_send_buffer_size: LATENCY_MODE_BUFFER_SIZE,
                throughput_mode_receive_buffer_size: THROUGHPUT_MODE_BUFFER_SIZE,
                throughput_mode_send_buffer_size: THROUGHPUT_MODE_BUFFER_SIZE,
            }),
    {
        TcpSocketConfig {
            receive_buffer_size,
            send_buffer_size,
            nodelay,
            quick_ack,
            tcp_fastopen,
            keepalive,
            keepalive_time,
            keepalive_interval,
            keepalive_probes,
            reuse_address,
            reuse_port,
            cork_or_nopush,
            optimization_profile,
            latency_mode_receive_buffer_size: LATENCY_MODE_BUFFER_SIZE,
            latency_mode_send_buffer_size: LATENCY_MODE_BUFFER_SIZE,
            throughput_mode_receive_buffer_size: THROUGHPUT_MODE_BUFFER_SIZE,
            throughput_mode_send_buffer_size: THROUGHPUT_MODE_BUFFER_SIZE,
        }
    }

    /// The default configuration switched to the lowest-latency profile,
    /// with NODELAY, quick-ACK and fast-open on and coalescing off.
    pub fn for_lowest_latency() -> (r: Self)
        ensures
            r == (TcpSocketConfig {
                optimization_profile: SocketOptimizationProfile::LowestLatency,
                nodelay: true,
                quick_ack: true,
                tcp_fastopen: true,
                cork_or_nopush: false,
                ..default_socket_config()
            }),
    {
        let mut config = Self::default();
        config.optimization_profile = SocketOptimizationProfile::LowestLatency;
        config.nodelay = true;
        config.quick_ack = true;
        config.tcp_fastopen = true;
        config.cork_or_nopush = false;
        config
    }

    /// The default configuration switched to the highest-throughput profile,
    /// with Nagle's algorithm and packet coalescing on.
    pub fn for_highest_throughput() -> (r: Self)
        ensures
            r == (TcpSocketConfig {
                optimization_profile: SocketOptimizationProfile::HighestThroughput,
                nodelay: false,
                cork_or_nopush: true,
                ..default_socket_config()
            }),
    {
        let mut config = Self::default();
        config.optimization_profile = SocketOptimizationProfile::HighestThroughput;
        config.nodelay = false;
        config.cork_or_nopush = true;
        config
    }

    /// The receive buffer size that the optimization profile selects.
    pub fn get_receive_buffer_size(&self) -> (r: u32)
        ensures
            r == effective_receive_size(*self),
    {
        match self.optimization_profile {
            SocketOptimizationProfile::LowestLatency => self.latency_mode_receive_buffer_size,
            SocketOptimizationProfile::Balanced => self.receive_buffer_size,
            SocketOptimizationProfile::HighestThroughput => {
                self.throughput_mode_receive_buffer_size
            },
        }
    }

    /// The send buffer size that the optimization profile selects.
    pub fn get_send_buffer_size(&self) -> (r: u32)
        ensures
            r == effective_send_size(*self),
    {
        match self.optimization_profile {
            SocketOptimizationProfile::LowestLatency => self.latency_mode_send_buffer_size,
            SocketOptimizationProfile::Balanced => self.send_buffer_size,
            SocketOptimizationProfile::HighestThroughput => self.throughput_mode_send_buffer_size,
        }
    }

    /// The current optimization profile.
    pub fn optimization_profile(&self) -> (r: &SocketOptimizationProfile)
        ensures
            *r == self.optimization_profile,
    {
        &self.optimization_profile
    }

    /// This configuration with its optimization profile replaced.
    pub fn with_optimization_profile(self, profile: SocketOptimizationProfile) -> (r: Self)
        ensures
            r == (TcpSocketConfig { optimization_profile: profile, ..self }),
    {
        let mut config = self;
        config.optimization_profile = profile;
        config
    }
}

} // verus!
