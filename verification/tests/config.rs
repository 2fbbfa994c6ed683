use aerowan::config::{
    default_api_port, default_control_port, default_loglevel, default_shared_port, default_true,
    ApiConfig, Config, InterfaceConfig, IrohConfig, LoggingConfig, ReticulumConfig,
};

#[test]
fn documented_defaults() {
    let c = Config::default();
    assert_eq!(c.api.port, 37430);
    assert!(c.iroh.enabled);
    assert_eq!(c.iroh.bind_port, 0);
    assert_eq!(c.iroh.relay_url, "");
    assert_eq!(c.logging.loglevel, 4);
    assert!(!c.reticulum.enable_transport);
    assert!(c.reticulum.share_instance);
    assert_eq!(c.reticulum.shared_instance_port, 37428);
    assert_eq!(c.reticulum.instance_control_port, 37429);
    assert!(!c.reticulum.panic_on_interface_error);
    assert!(c.interfaces.is_empty());
    assert!(default_true());
    assert_eq!(default_shared_port(), 37428);
    assert_eq!(default_control_port(), 37429);
    assert_eq!(default_loglevel(), 4);
    assert_eq!(default_api_port(), 37430);
    assert_eq!(ApiConfig::default().port, 37430);
    assert_eq!(LoggingConfig::default().loglevel, 4);
    assert!(IrohConfig::default().enabled);
    assert_eq!(ReticulumConfig::default().shared_instance_port, 37428);
}

#[test]
fn first_run_config_has_disabled_tcp_server() {
    let c = Config::default_config();
    assert_eq!(c.interfaces.len(), 1);
    let c2 = Config::default_config();
    assert_eq!(c2.interfaces[0].name, c.interfaces[0].name);
    assert_eq!(c.interfaces[0].name, "Default TCP Server");
    match &c.interfaces[0].config {
        InterfaceConfig::TCPServerInterface { interface_enabled, bind_host, bind_port } => {
            assert!(!interface_enabled);
            assert_eq!(bind_host, "[::]");
            assert_eq!(*bind_port, 4242);
        }
        _ => panic!("expected a TCP server"),
    }
    assert_eq!(c.api.port, 37430);
}

#[test]
fn log_filter_levels() {
    let mut c = Config::default();
    let expected = [
        "error", "error", "warn", "info", "info", "debug", "debug", "trace", "trace",
    ];
    for (level, want) in expected.iter().enumerate() {
        c.logging.loglevel = level as u8;
        assert_eq!(c.log_filter(), *want);
    }
    c.logging.loglevel = 255;
    assert_eq!(c.log_filter(), "trace");
}

fn bytes(s: &str) -> Vec<u8> {
    s.as_bytes().to_vec()
}

#[test]
fn search_paths_order() {
    let p = Config::search_paths_from(Some(b"/home/alice"));
    assert_eq!(p, vec![bytes("/etc/aerowan"), bytes("/home/alice/.config/aerowan"), bytes("/home/alice/.aerowan")]);
    let p = Config::search_paths_from(Some(b"/"));
    assert_eq!(p, vec![bytes("/etc/aerowan"), bytes("/.config/aerowan"), bytes("/.aerowan")]);
    let p = Config::search_paths_from(Some(&[b'/', 0xff]));
    assert_eq!(p[1], vec![b'/', 0xff, b'/', b'.', b'c', b'o', b'n', b'f', b'i', b'g', b'/', b'a', b'e', b'r', b'o', b'w', b'a', b'n']);
    let p = Config::search_paths_from(None);
    assert_eq!(p, vec![bytes("/etc/aerowan")]);
    let p = Config::search_paths();
    assert!(p.len() == 1 || p.len() == 3);
    assert_eq!(p[0], bytes("/etc/aerowan"));
}

#[test]
fn config_file_and_default_dir() {
    assert_eq!(Config::config_file(b"/etc/aerowan"), bytes("/etc/aerowan/config.toml"));
    assert_eq!(Config::config_file(b"/tmp/x/"), bytes("/tmp/x/config.toml"));
    assert_eq!(Config::default_path_in(b"/home/bob"), bytes("/home/bob/.config/aerowan"));
    if let Some(p) = Config::default_path() {
        assert!(p.ends_with(b"/.config/aerowan"));
    }
}

#[test]
fn first_existing_config_wins() {
    let c = vec![bytes("/a"), bytes("/b"), bytes("/c")];
    assert_eq!(Config::find_existing(&c, &vec![false, true, true]), Some(bytes("/b")));
    assert_eq!(Config::find_existing(&c, &vec![true, false, false]), Some(bytes("/a")));
    assert_eq!(Config::find_existing(&c, &vec![false, false, false]), None);
}

#[test]
fn interfaces_keyed_by_name() {
    let mut c = Config::default();
    let server = |port: u16| InterfaceConfig::TCPServerInterface {
        interface_enabled: true,
        bind_host: "h".to_string(),
        bind_port: port,
    };
    c.insert_interface("a".to_string(), server(1));
    c.insert_interface("b".to_string(), server(2));
    c.insert_interface("a".to_string(), server(3));
    assert_eq!(c.interfaces.len(), 2);
    assert_eq!(c.interfaces[0].name, "a");
    assert!(matches!(c.interfaces[0].config, InterfaceConfig::TCPServerInterface { bind_port: 3, .. }));
    assert_eq!(c.interfaces[1].name, "b");
}
