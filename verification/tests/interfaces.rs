use aerowan::interfaces::{classify_interface, detect_interfaces, interfaces_from_names, Interface};

#[test]
fn test_interface_detection() {
    let ifaces = detect_interfaces();
    assert!(ifaces.is_ok(), "Interface detection failed");
    let ifaces = ifaces.ok().unwrap();
    for i in &ifaces {
        assert!(!i.name.starts_with("lo"));
        assert!(i.power);
    }
    println!("Interfaces: {}", ifaces.len());
}

#[test]
fn test_interface_classification() {
    assert!(matches!(classify_interface("wlan0"), Interface::Wifi));
    assert!(matches!(classify_interface("wlp3s0"), Interface::Wifi));
    assert!(matches!(classify_interface("eth0"), Interface::Ethernet));
    assert!(matches!(classify_interface("enp4s0"), Interface::Ethernet));
    assert!(matches!(classify_interface("ttyUSB0"), Interface::Serial));
}

#[test]
fn classification_ignores_case() {
    assert_eq!(classify_interface("WLAN0"), Interface::Wifi);
    assert_eq!(classify_interface("ETH1"), Interface::Ethernet);
    assert_eq!(classify_interface("Serial0"), Interface::Serial);
}

#[test]
fn classification_other_kinds() {
    assert_eq!(classify_interface("en0"), Interface::Wifi);
    assert_eq!(classify_interface("en1"), Interface::Ethernet);
    assert_eq!(classify_interface("cu.usbserial"), Interface::Serial);
    assert_eq!(classify_interface("hci-bt0"), Interface::Bluetooth);
    assert_eq!(classify_interface("mybluetooth"), Interface::Bluetooth);
    assert_eq!(classify_interface("docker0"), Interface::Ethernet);
    assert_eq!(classify_interface(""), Interface::Ethernet);
}

#[test]
fn adapters_skip_loopback_and_keep_order() {
    let names = vec![
        "lo".to_string(),
        "wlan0".to_string(),
        "lo0".to_string(),
        "eth0".to_string(),
        "ttyS1".to_string(),
    ];
    let v = interfaces_from_names(names);
    assert_eq!(v.len(), 3);
    assert_eq!(v[0].name, "wlan0");
    assert_eq!(v[0].interface, Interface::Wifi);
    assert_eq!(v[1].name, "eth0");
    assert_eq!(v[1].interface, Interface::Ethernet);
    assert_eq!(v[2].name, "ttyS1");
    assert_eq!(v[2].interface, Interface::Serial);
    assert!(v.iter().all(|i| i.power));
}

#[test]
fn adapters_from_no_names() {
    assert!(interfaces_from_names(Vec::new()).is_empty());
}
