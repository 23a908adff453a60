//! What a caller hands in to have a tunnel made: a tunnel's configuration,
//! or the command that asks for one.

use crate::sshforwarding::{
    SshForwarding, SshForwardingConfig, SshForwardingConfigView, SshForwardingView,
};
use vstd::prelude::*;

verus! {

/// The configuration of a tunnel, one variant for each kind of tunnel.
#[derive(Debug, PartialEq, Eq)]
pub enum NetworkTunnelConfig {
    SshForwarding(SshForwardingConfig),
}

/// The mathematical content of a [`NetworkTunnelConfig`].
pub enum NetworkTunnelConfigView {
    SshForwarding(SshForwardingConfigView),
}

impl View for NetworkTunnelConfig {
    type V = NetworkTunnelConfigView;

    open spec fn view(&self) -> NetworkTunnelConfigView {
        match self {
            NetworkTunnelConfig::SshForwarding(config) => NetworkTunnelConfigView::SshForwarding(
                config@,
            ),
        }
    }
}

impl NetworkTunnelConfigView {
    /// The tunnel that the configuration asks for, before it is started.
    pub open spec fn tunnel(self) -> SshForwardingView {
        match self {
            NetworkTunnelConfigView::SshForwarding(config) => SshForwardingView::unstarted(config),
        }
    }
}

/// The command that asks for a tunnel, one variant for each kind of tunnel.
#[derive(Debug, Clone, PartialEq, Eq)]
pub enum Command {
    SSH {
        /// Endpoint of the remote SSH server that supports tunneling, in
        /// the form of `ssh://user@hostname[:port]`.
        ssh_endpoint: String,
        /// Path to the private key file that opens the remote SSH server.
        /// The file must have the permissions that SSH recommends: 600.
        private_key: String,
        /// The hostname of the remote destination (e.g. the database
        /// server).
        forward_host: String,
        /// The port of the remote destination (e.g. the database server).
        forward_port: u16,
        /// The local port which will be connected to the remote host and
        /// port over the tunnel.
        local_port: u16,
    },
}

/// The mathematical content of a command is the configuration that it
/// spells out, field for field.
impl View for Command {
    type V = NetworkTunnelConfigView;

    open spec fn view(&self) -> NetworkTunnelConfigView {
        match self {
            Command::SSH { ssh_endpoint, private_key, forward_host, forward_port, local_port } => {
                NetworkTunnelConfigView::SshForwarding(
                    SshForwardingConfigView {
                        ssh_endpoint: ssh_endpoint@,
                        private_key: private_key@,
                        forward_host: forward_host@,
                        forward_port: *forward_port,
                        local_port: *local_port,
                    },
                )
            },
        }
    }
}

impl Command {
    /// The configuration that the command spells out, field for field.
    pub fn into_config(self) -> (config: NetworkTunnelConfig)
        ensures
            config@ == self@,
    {
        match self {
            Command::SSH { ssh_endpoint, private_key, forward_host, forward_port, local_port } => {
                NetworkTunnelConfig::SshForwarding(
                    SshForwardingConfig {
                        ssh_endpoint,
                        private_key,
                        forward_host,
                        forward_port,
                        local_port,
                    },
                )
            },
        }
    }
}

impl NetworkTunnelConfig {
    /// A tunnel for this configuration, not started and without a process.
    pub fn into_tunnel(self) -> (tunnel: SshForwarding)
        ensures
            tunnel@ == self@.tunnel(),
    {
        match self {
            NetworkTunnelConfig::SshForwarding(config) => SshForwarding::new(config),
        }
    }
}

} // verus!
