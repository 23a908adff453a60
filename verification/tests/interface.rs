use network_tunnel::interface::{Command, NetworkTunnelConfig};
use network_tunnel::sshforwarding::{Lifecycle, SshForwardingConfig, TunnelState};

fn command() -> Command {
    Command::SSH {
        ssh_endpoint: "ssh://u@h".to_string(),
        private_key: "/k".to_string(),
        forward_host: "db.internal".to_string(),
        forward_port: 5432,
        local_port: 15432,
    }
}

fn config() -> SshForwardingConfig {
    SshForwardingConfig {
        ssh_endpoint: "ssh://u@h".to_string(),
        private_key: "/k".to_string(),
        forward_host: "db.internal".to_string(),
        forward_port: 5432,
        local_port: 15432,
    }
}

#[test]
fn command_spells_out_the_configuration() {
    assert_eq!(command().into_config(), NetworkTunnelConfig::SshForwarding(config()));
}

#[test]
fn configuration_makes_a_tunnel_that_has_not_started() {
    let tunnel = NetworkTunnelConfig::SshForwarding(config()).into_tunnel();
    assert_eq!(tunnel.config(), &config());
    assert_eq!(tunnel.lifecycle(), Lifecycle { state: TunnelState::Unstarted, spawned: false });
    assert_eq!(tunnel.state(), TunnelState::Unstarted);
    assert!(!tunnel.has_process());
}

#[test]
fn command_makes_the_tunnel_it_asks_for() {
    let tunnel = command().into_config().into_tunnel();
    assert_eq!(tunnel.config().local_port, 15432);
    assert_eq!(tunnel.config().forward_port, 5432);
    assert_eq!(tunnel.config().ssh_args()[12], "15432:db.internal:5432");
    assert_eq!(tunnel.config().ssh_args()[13], "ssh://u@h");
}
