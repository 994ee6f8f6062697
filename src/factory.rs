use vstd::prelude::*;
use crate::config_socket::TcpSocketConfig;
use crate::socket_optimizer::{
    create_high_throughput_config, create_low_latency_config, high_throughput_config,
    low_latency_config,
};

verus! {

/// Settings for creating connected clients against a test server.
#[derive(Debug, Clone, Default)]
pub struct TcpClientFactory {
    pub server_addr: String,
    pub nodelay: bool,
    pub optimize_for_throughput: bool,
    pub optimize_for_latency: bool,
}

impl TcpClientFactory {
    /// The socket configuration that replaces the default one: the
    /// high-throughput one when asked for, else the low-latency one when
    /// asked for, else none.
    pub fn socket_config(&self) -> (r: Option<TcpSocketConfig>)
        ensures
            self.optimize_for_throughput ==> r == Some(high_throughput_config()),
            !self.optimize_for_throughput && self.optimize_for_latency ==> r == Some(
                low_latency_config(),
            ),
            !self.optimize_for_throughput && !self.optimize_for_latency ==> r is None,
    {
        if self.optimize_for_throughput {
            Some(create_high_throughput_config())
        } else if self.optimize_for_latency {
            Some(create_low_latency_config())
        } else {
            None
        }
    }
}

} // verus!
