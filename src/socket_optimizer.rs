use vstd::prelude::*;
use crate::config_socket::{
    default_socket_config, effective_receive_size, effective_send_size, SocketOptimizationProfile,
    TcpSocketConfig,
};

verus! {

/// One socket option with the value to set.
#[derive(Debug, Clone, Copy, PartialEq, Eq, Structural)]
pub enum SocketOption {
    /// TCP_NODELAY.
    NoDelay(bool),
    /// SO_KEEPALIVE.
    KeepAlive(bool),
    /// SO_REUSEADDR.
    ReuseAddress(bool),
    /// SO_RCVBUF, in bytes.
    ReceiveBufferSize(u32),
    /// SO_SNDBUF, in bytes.
    SendBufferSize(u32),
    /// SO_REUSEPORT switched on.
    ReusePort,
    /// TCP_QUICKACK switched on (Linux).
    QuickAck,
    /// TCP_THIN_LINEAR_TIMEOUTS switched on (Linux).
    ThinLinearTimeouts,
    /// TCP_NOTSENT_LOWAT, in bytes (Linux).
    NotSentLowWatermark(u32),
    /// TCP_FASTOPEN switched on (Linux).
    FastOpen,
    /// TCP_CORK switched on (Linux).
    Cork,
    /// TCP_DEFER_ACCEPT, in seconds (Linux).
    DeferAccept(u32),
    /// TCP_KEEPIDLE, in seconds (Linux).
    KeepIdle(u32),
    /// TCP_KEEPINTVL, in seconds (Linux).
    KeepInterval(u32),
    /// TCP_KEEPCNT (Linux).
    KeepCount(u32),
    /// TCP_NOPUSH switched on (macOS).
    NoPush,
    /// TCP_KEEPALIVE idle time, in seconds (macOS).
    KeepAliveTime(u32),
}

/// A socket option to apply, and whether failing to apply it is fatal.
#[derive(Debug, Clone, Copy, PartialEq, Eq, Structural)]
pub struct SocketOptionRequest {
    pub option: SocketOption,
    /// A failure to set a required option fails the whole tuning with a
    /// TCP error; a failure on another one is only logged.
    pub required: bool,
}

/// The platform that socket options are planned for.
#[derive(Debug, Clone, Copy, PartialEq, Eq, Structural)]
pub enum Platform {
    Linux,
    MacOs,
    /// Another Unix: portable options and SO_REUSEPORT are not available.
    OtherUnix,
    /// Not a Unix: only TCP_NODELAY can be set on the stream.
    Other,
}

/// Low watermark of unsent data in lowest-latency mode: 4 KiB.
pub const NOTSENT_LOW_WATERMARK: u32 = 4096;

/// Seconds after which a deferred accept completes without data.
pub const DEFER_ACCEPT_SECONDS: u32 = 5;

/// A request for one option.
pub open spec fn request(option: SocketOption, required: bool) -> SocketOptionRequest {
    SocketOptionRequest { option, required }
}

/// The requests of `opts` if `cond` holds, none otherwise.
pub open spec fn when(cond: bool, opts: Seq<SocketOptionRequest>) -> Seq<SocketOptionRequest> {
    if cond {
        opts
    } else {
        Seq::empty()
    }
}

/// The portable options: NODELAY, keepalive, address reuse and the
/// effective buffer sizes, all required; port reuse, not required, where the
/// platform has it. A platform that is not a Unix gets NODELAY alone.
pub open spec fn common_options(c: TcpSocketConfig, p: Platform) -> Seq<SocketOptionRequest> {
    seq![request(SocketOption::NoDelay(c.nodelay), true)] + when(
        p != Platform::Other,
        seq![
            request(SocketOption::KeepAlive(c.keepalive), true),
            request(SocketOption::ReuseAddress(c.reuse_address), true),
            request(SocketOption::ReceiveBufferSize(effective_receive_size(c)), true),
            request(SocketOption::SendBufferSize(effective_send_size(c)), true),
        ],
    ) + when(
        c.reuse_port && (p == Platform::Linux || p == Platform::MacOs),
        seq![request(SocketOption::ReusePort, false)],
    )
}

/// The Linux extensions, none of them required: quick-ACK, thin-stream
/// timeouts and the unsent low watermark for the lowest-latency profile,
/// fast-open, cork when NODELAY is off and coalescing on, deferred accept,
/// and the keepalive timings when keepalive is on.
pub open spec fn linux_options(c: TcpSocketConfig) -> Seq<SocketOptionRequest> {
    when(c.quick_ack, seq![request(SocketOption::QuickAck, false)]) + when(
        c.optimization_profile == SocketOptimizationProfile::LowestLatency,
        seq![
            request(SocketOption::ThinLinearTimeouts, false),
            request(SocketOption::NotSentLowWatermark(NOTSENT_LOW_WATERMARK), false),
        ],
    ) + when(c.tcp_fastopen, seq![request(SocketOption::FastOpen, false)]) + when(
        c.cork_or_nopush && !c.nodelay,
        seq![request(SocketOption::Cork, false)],
    ) + seq![request(SocketOption::DeferAccept(DEFER_ACCEPT_SECONDS), false)] + when(
        c.keepalive,
        seq![
            request(SocketOption::KeepIdle(c.keepalive_time), false),
            request(SocketOption::KeepInterval(c.keepalive_interval), false),
            request(SocketOption::KeepCount(c.keepalive_probes), false),
        ],
    )
}

/// The macOS extensions, none of them required: no-push when NODELAY is off
/// and coalescing on, and the keepalive idle time when keepalive is on.
pub open spec fn macos_options(c: TcpSocketConfig) -> Seq<SocketOptionRequest> {
    when(c.cork_or_nopush && !c.nodelay, seq![request(SocketOption::NoPush, false)]) + when(
        c.keepalive,
        seq![request(SocketOption::KeepAliveTime(c.keepalive_time), false)],
    )
}

/// The platform-specific options.
pub open spec fn platform_options(c: TcpSocketConfig, p: Platform) -> Seq<SocketOptionRequest> {
    match p {
        Platform::Linux => linux_options(c),
        Platform::MacOs => macos_options(c),
        _ => Seq::empty(),
    }
}

fn push_request(v: &mut Vec<SocketOptionRequest>, option: SocketOption, required: bool)
    ensures
        final(v)@ == old(v)@.push(request(option, required)),
{
    v.push(SocketOptionRequest { option, required });
}

/// Plans the portable socket options, in the order they are applied.
pub fn common_socket_options(config: &TcpSocketConfig, platform: Platform) -> (r: Vec<
    SocketOptionRequest,
>)
    ensures
        r@ == common_options(*config, platform),
{
    let mut v: Vec<SocketOptionRequest> = Vec::new();
    push_request(&mut v, SocketOption::NoDelay(config.nodelay), true);
    if !matches!(platform, Platform::Other) {
        push_request(&mut v, SocketOption::KeepAlive(config.keepalive), true);
        push_request(&mut v, SocketOption::ReuseAddress(config.reuse_address), true);
        push_request(&mut v, SocketOption::ReceiveBufferSize(config.get_receive_buffer_size()), true);
        push_request(&mut v, SocketOption::SendBufferSize(config.get_send_buffer_size()), true);
    }
    if config.reuse_port && (matches!(platform, Platform::Linux) || matches!(platform, Platform::MacOs)) {
        push_request(&mut v, SocketOption::ReusePort, false);
    }
    assert(v@ =~= common_options(*config, platform));
    v
}

/// Plans the Linux-specific socket options, in the order they are applied.
pub fn linux_socket_options(config: &TcpSocketConfig) -> (r: Vec<SocketOptionRequest>)
    ensures
        r@ == linux_options(*config),
{
    let mut v: Vec<SocketOptionRequest> = Vec::new();
    if config.quick_ack {
        push_request(&mut v, SocketOption::QuickAck, false);
    }
    if matches!(config.optimization_profile, SocketOptimizationProfile::LowestLatency) {
        push_request(&mut v, SocketOption::ThinLinearTimeouts, false);
        push_request(&mut v, SocketOption::NotSentLowWatermark(NOTSENT_LOW_WATERMARK), false);
    }
    if config.tcp_fastopen {
        push_request(&mut v, SocketOption::FastOpen, false);
    }
    if config.cork_or_nopush && !config.nodelay {
        push_request(&mut v, SocketOption::Cork, false);
    }
    push_request(&mut v, SocketOption::DeferAccept(DEFER_ACCEPT_SECONDS), false);
    if config.keepalive {
        push_request(&mut v, SocketOption::KeepIdle(config.keepalive_time), false);
        push_request(&mut v, SocketOption::KeepInterval(config.keepalive_interval), false);
        push_request(&mut v, SocketOption::KeepCount(config.keepalive_probes), false);
    }
    assert(v@ =~= linux_options(*config));
    v
}

/// Plans the macOS-specific socket options, in the order they are applied.
pub fn macos_socket_options(config: &TcpSocketConfig) -> (r: Vec<SocketOptionRequest>)
    ensures
        r@ == macos_options(*config),
{
    let mut v: Vec<SocketOptionRequest> = Vec::new();
    if config.cork_or_nopush && !config.nodelay {
        push_request(&mut v, SocketOption::NoPush, false);
    }
    if config.keepalive {
        push_request(&mut v, SocketOption::KeepAliveTime(config.keepalive_time), false);
    }
    assert(v@ =~= macos_options(*config));
    v
}

/// The socket optimizer that works on every platform: portable options
/// first, then the platform's own.
pub struct DefaultSocketOptimizer;

impl DefaultSocketOptimizer {
    /// Plans every option to apply to a stream on `platform`, in order.
    pub fn socket_options(config: &TcpSocketConfig, platform: Platform) -> (r: Vec<
        SocketOptionRequest,
    >)
        ensures
            r@ == common_options(*config, platform) + platform_options(*config, platform),
    {
        let mut v = common_socket_options(config, platform);
        let mut extra = match platform {
            Platform::Linux => linux_socket_options(config),
            Platform::MacOs => macos_socket_options(config),
            _ => Vec::new(),
        };
        v.append(&mut extra);
        v
    }
}

/// The ultra-low-latency socket configuration.
pub open spec fn low_latency_config() -> TcpSocketConfig {
    TcpSocketConfig {
        optimization_profile: SocketOptimizationProfile::LowestLatency,
        nodelay: true,
        cork_or_nopush: false,
        quick_ack: true,
        tcp_fastopen: true,
        latency_mode_receive_buffer_size: 4096,
        latency_mode_send_buffer_size: 4096,
        keepalive: true,
        keepalive_time: 15,
        keepalive_interval: 5,
        keepalive_probes: 3,
        ..default_socket_config()
    }
}

/// The maximum-throughput socket configuration.
pub open spec fn high_throughput_config() -> TcpSocketConfig {
    TcpSocketConfig {
        optimization_profile: SocketOptimizationProfile::HighestThroughput,
        nodelay: false,
        cork_or_nopush: true,
        throughput_mode_receive_buffer_size: 16777216,
        throughput_mode_send_buffer_size: 16777216,
        keepalive: true,
        keepalive_time: 120,
        keepalive_interval: 30,
        keepalive_probes: 8,
        ..default_socket_config()
    }
}

/// The balanced socket configuration.
pub open spec fn balanced_config() -> TcpSocketConfig {
    TcpSocketConfig {
        nodelay: true,
        cork_or_nopush: false,
        quick_ack: true,
        tcp_fastopen: true,
        receive_buffer_size: 8388608,
        send_buffer_size: 8388608,
        keepalive: true,
        keepalive_time: 60,
        keepalive_interval: 10,
        keepalive_probes: 6,
        ..default_socket_config()
    }
}

/// A socket configuration for ultra-low latency: the lowest-latency
/// profile, no coalescing, 4 KiB buffers and quick keepalive detection.
pub fn create_low_latency_config() -> (r: TcpSocketConfig)
    ensures
        r == low_latency_config(),
{
    let mut config = TcpSocketConfig::default();
    config.optimization_profile = SocketOptimizationProfile::LowestLatency;
    config.nodelay = true;
    config.cork_or_nopush = false;
    config.quick_ack = true;
    config.tcp_fastopen = true;
    config.latency_mode_receive_buffer_size = 4096;
    config.latency_mode_send_buffer_size = 4096;
    config.keepalive = true;
    config.keepalive_time = 15;
    config.keepalive_interval = 5;
    config.keepalive_probes = 3;
    config
}

/// A socket configuration for maximum throughput: the highest-throughput
/// profile, coalescing on, 16 MiB buffers and relaxed keepalive.
pub fn create_high_throughput_config() -> (r: TcpSocketConfig)
    ensures
        r == high_throughput_config(),
{
    let mut config = TcpSocketConfig::default();
    config.optimization_profile = SocketOptimizationProfile::HighestThroughput;
    config.nodelay = false;
    config.cork_or_nopush = true;
    config.throughput_mode_receive_buffer_size = 16777216;
    config.throughput_mode_send_buffer_size = 16777216;
    config.keepalive = true;
    config.keepalive_time = 120;
    config.keepalive_interval = 30;
    config.keepalive_probes = 8;
    config
}

/// A socket configuration between the two: the balanced profile, with
/// NODELAY, quick-ACK and fast-open on, 8 MiB nominal buffers and standard
/// keepalive.
pub fn create_balanced_config() -> (r: TcpSocketConfig)
    ensures
        r == balanced_config(),
{
    let mut config = TcpSocketConfig::default();
    config.nodelay = true;
    config.cork_or_nopush = false;
    config.quick_ack = true;
    config.tcp_fastopen = true;
    config.receive_buffer_size = 8388608;
    config.send_buffer_size = 8388608;
    config.keepalive = true;
    config.keepalive_time = 60;
    config.keepalive_interval = 10;
    config.keepalive_probes = 6;
    config
}

} // verus!
