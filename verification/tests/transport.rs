use aerowan::config::{Config, InterfaceConfig, NamedInterface};
use aerowan::transport::{
    any_addr, host_port, transport_name, InterfaceRole, IrohTransport, ReticulumTransport,
};

fn iface(name: &str, config: InterfaceConfig) -> NamedInterface {
    NamedInterface { name: name.to_string(), config }
}

#[test]
fn only_enabled_interfaces_launch() {
    let mut c = Config::default();
    c.interfaces = vec![
        iface(
            "srv",
            InterfaceConfig::TCPServerInterface {
                interface_enabled: true,
                bind_host: "0.0.0.0:".to_string(),
                bind_port: 4242,
            },
        ),
        iface(
            "off",
            InterfaceConfig::TCPClientInterface {
                interface_enabled: false,
                target_host: "x".to_string(),
                target_port: 1,
            },
        ),
        iface(
            "cli",
            InterfaceConfig::TCPClientInterface {
                interface_enabled: true,
                target_host: "dublin.connect.reticulum.network".to_string(),
                target_port: 4965,
            },
        ),
    ];
    let l = ReticulumTransport::interface_launches(&c);
    assert_eq!(l.len(), 2);
    assert_eq!(l[0].name, "srv");
    assert!(l[0].role == InterfaceRole::Server);
    assert_eq!(l[0].addr, "0.0.0.0:4242");
    assert_eq!(l[1].name, "cli");
    assert!(l[1].role == InterfaceRole::Client);
    assert_eq!(l[1].addr, "dublin.connect.reticulum.network:4965");
    assert!(ReticulumTransport::interface_launches(&Config::default_config()).is_empty());
}

#[test]
fn addresses() {
    assert_eq!(host_port("[::]", 4242), "[::]:4242");
    assert_eq!(host_port("host::", 0), "host:0");
    assert_eq!(host_port("", 65535), ":65535");
    assert_eq!(any_addr(37430), "0.0.0.0:37430");
    assert_eq!(transport_name(), "aerowan-daemon");
}

#[test]
fn iroh_bind_address() {
    let mut c = Config::default();
    assert!(IrohTransport::enabled(&c));
    assert_eq!(IrohTransport::bind_addr(&c), None);
    c.iroh.bind_port = 11204;
    assert_eq!(IrohTransport::bind_addr(&c), Some("0.0.0.0:11204".to_string()));
    c.iroh.enabled = false;
    assert!(!IrohTransport::enabled(&c));
}
