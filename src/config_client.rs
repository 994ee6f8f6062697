use vstd::prelude::*;
use crate::config_reconnection::{default_reconnection, TcpClientReconnectionConfig, MICROS_PER_SECOND};
use crate::config_socket::{default_socket_config, TcpSocketConfig};

verus! {

/// The credentials used to sign in.
#[derive(Debug, Clone)]
pub enum Credentials {
    UsernamePassword(String, String),
    PersonalAccessToken(String),
}

/// Whether the client signs in after each connect, and how.
#[derive(Debug, Clone)]
pub enum AutoLogin {
    Disabled,
    Enabled(Credentials),
}

/// The immutable configuration of a TCP client.
#[derive(Debug, Clone)]
pub struct TcpClientConfig {
    /// The server endpoint, `host:port`.
    pub server_address: String,
    pub tls_enabled: bool,
    /// The server name checked during the TLS handshake.
    pub tls_domain: String,
    /// A CA bundle to trust instead of the built-in roots.
    pub tls_ca_file: Option<String>,
    pub auto_login: AutoLogin,
    /// The heartbeat interval, in microseconds.
    pub heartbeat_interval_micros: u64,
    pub reconnection: TcpClientReconnectionConfig,
    /// TCP_NODELAY on the connected stream.
    pub nodelay: bool,
    pub socket_config: TcpSocketConfig,
}

impl AutoLogin {
    /// Whether a sign-in follows each connect.
    pub fn is_enabled(&self) -> (r: bool)
        ensures
            r == (*self is Enabled),
    {
        match self {
            AutoLogin::Disabled => false,
            AutoLogin::Enabled(_) => true,
        }
    }
}

impl TcpClientConfig {
    /// The heartbeat interval, in microseconds.
    pub fn get_heartbeat_interval(&self) -> (r: u64)
        ensures
            r == self.heartbeat_interval_micros,
    {
        self.heartbeat_interval_micros
    }
}

/// The address of a local server on the default port.
pub open spec fn default_server_address() -> Seq<char> {
    "127.0.0.1:8090"@
}

impl Default for TcpClientConfig {
    /// A plain-TCP client for a local server on the default port, without
    /// automatic sign-in, with a heartbeat every five seconds and the
    /// default reconnection and socket settings.
    fn default() -> (r: Self)
        ensures
            r.server_address@ == default_server_address(),
            !r.tls_enabled,
            r.tls_domain@ == "localhost"@,
            r.tls_ca_file is None,
            r.auto_login is Disabled,
            r.heartbeat_interval_micros == 5 * MICROS_PER_SECOND,
            r.reconnection == default_reconnection(),
            !r.nodelay,
            r.socket_config == default_socket_config(),
    {
        proof {
            reveal_strlit("127.0.0.1:8090");
            reveal_strlit("localhost");
        }
        TcpClientConfig {
            server_address: "127.0.0.1:8090".to_owned(),
            tls_enabled: false,
            tls_domain: "localhost".to_owned(),
            tls_ca_file: None,
            auto_login: AutoLogin::Disabled,
            heartbeat_interval_micros: 5 * MICROS_PER_SECOND,
            reconnection: TcpClientReconnectionConfig::default(),
            nodelay: false,
            socket_config: TcpSocketConfig::default(),
        }
    }
}

} // verus!
