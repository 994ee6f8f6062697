use iggy_tcp::config_client::{AutoLogin, Credentials, TcpClientConfig};
use iggy_tcp::config_socket::{SocketOptimizationProfile, TcpSocketConfig};
use iggy_tcp::factory::TcpClientFactory;
use iggy_tcp::socket_optimizer::{
    common_socket_options, create_balanced_config, create_high_throughput_config,
    create_low_latency_config, linux_socket_options, macos_socket_options, DefaultSocketOptimizer,
    Platform, SocketOption, SocketOptionRequest,
};

fn req(option: SocketOption, required: bool) -> SocketOptionRequest {
    SocketOptionRequest { option, required }
}

#[test]
fn default_socket_config_values() {
    let c = TcpSocketConfig::default();
    assert_eq!(c.receive_buffer_size, 4 * 1024 * 1024);
    assert_eq!(c.send_buffer_size, 4 * 1024 * 1024);
    assert!(c.nodelay && c.quick_ack && c.tcp_fastopen && c.keepalive);
    assert_eq!((c.keepalive_time, c.keepalive_interval, c.keepalive_probes), (60, 10, 6));
    assert!(c.reuse_address && c.reuse_port && !c.cork_or_nopush);
    assert_eq!(c.optimization_profile, SocketOptimizationProfile::Balanced);
    assert_eq!(SocketOptimizationProfile::default(), SocketOptimizationProfile::Balanced);
}

#[test]
fn effective_buffer_sizes_follow_profile() {
    let c = TcpSocketConfig::default();
    assert_eq!(c.get_receive_buffer_size(), 4 * 1024 * 1024);
    assert_eq!(c.get_send_buffer_size(), 4 * 1024 * 1024);
    let t = c.with_optimization_profile(SocketOptimizationProfile::HighestThroughput);
    assert_eq!(t.get_receive_buffer_size(), 8 * 1024 * 1024);
    assert_eq!(t.get_send_buffer_size(), 8 * 1024 * 1024);
    let c = c.with_optimization_profile(SocketOptimizationProfile::Balanced);
    assert_eq!(*c.optimization_profile(), SocketOptimizationProfile::Balanced);
    assert_eq!(c.get_receive_buffer_size(), 4 * 1024 * 1024);
    assert_eq!(c.get_send_buffer_size(), 4 * 1024 * 1024);
    let c = c.with_optimization_profile(SocketOptimizationProfile::LowestLatency);
    assert_eq!(c.get_receive_buffer_size(), 8 * 1024);
    assert_eq!(c.get_send_buffer_size(), 8 * 1024);
}

#[test]
fn new_keeps_given_settings() {
    let c = TcpSocketConfig::new(1000, 2000, false, false, false, false, 1, 2, 3, false, false, true,
        SocketOptimizationProfile::Balanced);
    assert_eq!(c.get_receive_buffer_size(), 1000);
    assert_eq!(c.get_send_buffer_size(), 2000);
    assert!(c.cork_or_nopush && !c.nodelay);
    assert_eq!(c.latency_mode_receive_buffer_size, 8192);
    assert_eq!(c.throughput_mode_send_buffer_size, 8 * 1024 * 1024);
}

#[test]
fn profile_constructors() {
    let l = TcpSocketConfig::for_lowest_latency();
    assert_eq!(l.optimization_profile, SocketOptimizationProfile::LowestLatency);
    assert!(l.nodelay && l.quick_ack && l.tcp_fastopen && !l.cork_or_nopush);
    let t = TcpSocketConfig::for_highest_throughput();
    assert_eq!(t.optimization_profile, SocketOptimizationProfile::HighestThroughput);
    assert!(!t.nodelay && t.cork_or_nopush);
    assert_eq!(t.keepalive_time, 60);
}

#[test]
fn preset_configs() {
    let l = create_low_latency_config();
    assert_eq!(l.get_receive_buffer_size(), 4096);
    assert_eq!(l.get_send_buffer_size(), 4096);
    assert_eq!((l.keepalive_time, l.keepalive_interval, l.keepalive_probes), (15, 5, 3));
    let h = create_high_throughput_config();
    assert_eq!(h.get_receive_buffer_size(), 16 * 1024 * 1024);
    assert!(!h.nodelay && h.cork_or_nopush);
    assert_eq!((h.keepalive_time, h.keepalive_interval, h.keepalive_probes), (120, 30, 8));
    let b = create_balanced_config();
    assert_eq!(b.receive_buffer_size, 8 * 1024 * 1024);
    assert_eq!(b.optimization_profile, SocketOptimizationProfile::Balanced);
    assert_eq!(b.get_receive_buffer_size(), 8 * 1024 * 1024);
}

#[test]
fn portable_options_plan() {
    let c = TcpSocketConfig::default();
    assert_eq!(
        common_socket_options(&c, Platform::Linux),
        vec![
            req(SocketOption::NoDelay(true), true),
            req(SocketOption::KeepAlive(true), true),
            req(SocketOption::ReuseAddress(true), true),
            req(SocketOption::ReceiveBufferSize(4 * 1024 * 1024), true),
            req(SocketOption::SendBufferSize(4 * 1024 * 1024), true),
            req(SocketOption::ReusePort, false),
        ]
    );
    assert_eq!(common_socket_options(&c, Platform::OtherUnix).len(), 5);
    assert_eq!(common_socket_options(&c, Platform::Other), vec![req(SocketOption::NoDelay(true), true)]);
}

#[test]
fn linux_options_plan() {
    let c = TcpSocketConfig::default();
    assert_eq!(
        linux_socket_options(&c),
        vec![
            req(SocketOption::QuickAck, false),
            req(SocketOption::FastOpen, false),
            req(SocketOption::DeferAccept(5), false),
            req(SocketOption::KeepIdle(60), false),
            req(SocketOption::KeepInterval(10), false),
            req(SocketOption::KeepCount(6), false),
        ]
    );
    let l = create_low_latency_config();
    let plan = linux_socket_options(&l);
    assert_eq!(plan[1], req(SocketOption::ThinLinearTimeouts, false));
    assert_eq!(plan[2], req(SocketOption::NotSentLowWatermark(4096), false));
    let h = create_high_throughput_config();
    assert!(linux_socket_options(&h).contains(&req(SocketOption::Cork, false)));
}

#[test]
fn macos_options_plan() {
    let h = create_high_throughput_config();
    assert_eq!(
        macos_socket_options(&h),
        vec![req(SocketOption::NoPush, false), req(SocketOption::KeepAliveTime(120), false)]
    );
    let mut c = TcpSocketConfig::default();
    c.keepalive = false;
    assert_eq!(macos_socket_options(&c), vec![]);
}

#[test]
fn full_plan_is_portable_then_platform() {
    let c = TcpSocketConfig::default();
    let all = DefaultSocketOptimizer::socket_options(&c, Platform::Linux);
    assert_eq!(all.len(), 12);
    assert_eq!(all[0], req(SocketOption::NoDelay(true), true));
    assert_eq!(all[6], req(SocketOption::QuickAck, false));
    assert_eq!(DefaultSocketOptimizer::socket_options(&c, Platform::Other).len(), 1);
}

#[test]
fn factory_socket_config_choice() {
    let mut f = TcpClientFactory { server_addr: "127.0.0.1:8090".to_string(), ..TcpClientFactory::default() };
    assert_eq!(f.socket_config(), None);
    f.optimize_for_latency = true;
    assert_eq!(f.socket_config(), Some(create_low_latency_config()));
    f.optimize_for_throughput = true;
    assert_eq!(f.socket_config(), Some(create_high_throughput_config()));
}

#[test]
fn client_config_defaults() {
    let c = TcpClientConfig::default();
    assert_eq!(c.server_address, "127.0.0.1:8090");
    assert!(!c.tls_enabled);
    assert_eq!(c.tls_domain, "localhost");
    assert_eq!(c.tls_ca_file, None);
    assert!(!c.auto_login.is_enabled());
    assert_eq!(c.get_heartbeat_interval(), 5_000_000);
    assert!(c.reconnection.enabled);
    assert!(!c.nodelay);
    assert_eq!(c.socket_config, TcpSocketConfig::default());
    let login = AutoLogin::Enabled(Credentials::PersonalAccessToken("token".to_string()));
    assert!(login.is_enabled());
}
