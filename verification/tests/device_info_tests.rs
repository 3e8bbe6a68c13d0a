use rdk_bridge::device_info::{
    assemble_snapshot, build_identity, build_network_interfaces, classify_display,
    classify_interface, emit_interface, parse_uptime_seconds, prepare_interfaces, scalar_string,
    uptime_since, DeviceInterface, DisplayType, DisplaysReply, IpSettingsReply, JsonScalar,
    NetworkInterfaceType, RawInterface, ScreenResolutionReply,
};
use rdk_bridge::error::DabError;

fn raw(name: &str, mac: &str, connected: bool) -> RawInterface {
    RawInterface {
        name: name.to_string(),
        mac_address: mac.to_string(),
        enabled: true,
        connected,
    }
}

fn plain_reply(success: bool) -> IpSettingsReply {
    IpSettingsReply {
        success,
        ip_address: None,
        primary_dns: None,
        secondary_dns: None,
    }
}

#[test]
fn interface_names_classify_to_kinds() {
    assert_eq!(classify_interface("ETHERNET"), NetworkInterfaceType::Ethernet);
    assert_eq!(classify_interface("WIFI"), NetworkInterfaceType::Wifi);
    assert_eq!(classify_interface("tun0"), NetworkInterfaceType::Other);
    assert_eq!(classify_interface("ethernet"), NetworkInterfaceType::Other);
}

#[test]
fn interfaces_sort_connected_first_then_by_kind() {
    let ifaces = vec![
        raw("WIFI", "01", false),
        raw("tun0", "02", true),
        raw("ETHERNET", "03", false),
        raw("WIFI", "04", true),
        raw("ETHERNET", "05", true),
    ];
    let prepared = prepare_interfaces(ifaces);
    let keys: Vec<(bool, NetworkInterfaceType)> =
        prepared.iter().map(|i| (i.connected, i.if_type)).collect();
    assert_eq!(
        keys,
        vec![
            (true, NetworkInterfaceType::Ethernet),
            (true, NetworkInterfaceType::Wifi),
            (true, NetworkInterfaceType::Other),
            (false, NetworkInterfaceType::Ethernet),
            (false, NetworkInterfaceType::Wifi),
        ]
    );
}

#[test]
fn sorting_is_stable_within_a_key_class() {
    let ifaces = vec![
        raw("WIFI", "first", true),
        raw("ETHERNET", "mac", false),
        raw("WIFI", "second", true),
        raw("WIFI", "third", true),
    ];
    let prepared = prepare_interfaces(ifaces);
    assert_eq!(prepared[0].mac_address, "first");
    assert_eq!(prepared[1].mac_address, "second");
    assert_eq!(prepared[2].mac_address, "third");
    assert_eq!(prepared[3].mac_address, "mac");
}

#[test]
fn hdmi_first_display_classifies_as_external() {
    let displays = vec!["HDMI0".to_string()];
    assert_eq!(classify_display(&displays), DisplayType::External);
}

#[test]
fn no_display_classifies_as_native() {
    let displays: Vec<String> = Vec::new();
    assert_eq!(classify_display(&displays), DisplayType::Native);
}

#[test]
fn non_hdmi_display_classifies_as_native() {
    let displays = vec!["Composite1".to_string()];
    assert_eq!(classify_display(&displays), DisplayType::Native);
}

#[test]
fn hdmi_must_lead_the_list_to_count() {
    let displays = vec!["Composite1".to_string(), "HDMI0".to_string()];
    assert_eq!(classify_display(&displays), DisplayType::Native);
}

#[test]
fn failed_ip_lookup_degrades_gracefully() {
    let iface = DeviceInterface {
        name: "WIFI".to_string(),
        if_type: NetworkInterfaceType::Wifi,
        connected: true,
        mac_address: "AA:BB:CC".to_string(),
    };
    let out = emit_interface(iface, Some(plain_reply(false)));
    assert_eq!(out.if_type, NetworkInterfaceType::Wifi);
    assert!(out.connected);
    assert_eq!(out.mac_address, "AA:BB:CC");
    assert_eq!(out.ip_address, "");
    assert!(out.dns.is_empty());
}

#[test]
fn successful_ip_lookup_populates_address_and_dns() {
    let iface = DeviceInterface {
        name: "ETHERNET".to_string(),
        if_type: NetworkInterfaceType::Ethernet,
        connected: true,
        mac_address: "AA".to_string(),
    };
    let reply = IpSettingsReply {
        success: true,
        ip_address: Some(JsonScalar::Text("192.168.0.2".to_string())),
        primary_dns: Some(JsonScalar::Text("8.8.8.8".to_string())),
        secondary_dns: Some(JsonScalar::Text("9.9.9.9".to_string())),
    };
    let out = emit_interface(iface, Some(reply));
    assert_eq!(out.ip_address, "192.168.0.2");
    assert_eq!(out.dns, vec!["8.8.8.8".to_string(), "9.9.9.9".to_string()]);
}

#[test]
fn numeric_values_normalize_like_strings() {
    assert_eq!(
        scalar_string(JsonScalar::Number("2130706433".to_string())),
        scalar_string(JsonScalar::Text("2130706433".to_string()))
    );
    let iface = DeviceInterface {
        name: "ETHERNET".to_string(),
        if_type: NetworkInterfaceType::Ethernet,
        connected: true,
        mac_address: "AA".to_string(),
    };
    let reply = IpSettingsReply {
        success: true,
        ip_address: Some(JsonScalar::Number("2130706433".to_string())),
        primary_dns: None,
        secondary_dns: None,
    };
    let out = emit_interface(iface, Some(reply));
    assert_eq!(out.ip_address, "2130706433");
}

#[test]
fn empty_dns_strings_are_dropped() {
    let iface = DeviceInterface {
        name: "ETHERNET".to_string(),
        if_type: NetworkInterfaceType::Ethernet,
        connected: true,
        mac_address: "AA".to_string(),
    };
    let reply = IpSettingsReply {
        success: true,
        ip_address: None,
        primary_dns: Some(JsonScalar::Text("".to_string())),
        secondary_dns: Some(JsonScalar::Text("1.1.1.1".to_string())),
    };
    let out = emit_interface(iface, Some(reply));
    assert_eq!(out.ip_address, "");
    assert_eq!(out.dns, vec!["1.1.1.1".to_string()]);
}

#[test]
fn non_scalar_values_are_ignored() {
    assert_eq!(scalar_string(JsonScalar::Other), None);
    let iface = DeviceInterface {
        name: "ETHERNET".to_string(),
        if_type: NetworkInterfaceType::Ethernet,
        connected: true,
        mac_address: "AA".to_string(),
    };
    let reply = IpSettingsReply {
        success: true,
        ip_address: Some(JsonScalar::Other),
        primary_dns: Some(JsonScalar::Other),
        secondary_dns: None,
    };
    let out = emit_interface(iface, Some(reply));
    assert_eq!(out.ip_address, "");
    assert!(out.dns.is_empty());
}

#[test]
fn replies_enrich_only_connected_interfaces() {
    let ifaces = vec![
        DeviceInterface {
            name: "ETHERNET".to_string(),
            if_type: NetworkInterfaceType::Ethernet,
            connected: true,
            mac_address: "01".to_string(),
        },
        DeviceInterface {
            name: "WIFI".to_string(),
            if_type: NetworkInterfaceType::Wifi,
            connected: false,
            mac_address: "02".to_string(),
        },
    ];
    let replies = vec![IpSettingsReply {
        success: true,
        ip_address: Some(JsonScalar::Text("10.0.0.5".to_string())),
        primary_dns: None,
        secondary_dns: None,
    }];
    let out = build_network_interfaces(ifaces, replies);
    assert_eq!(out.len(), 2);
    assert_eq!(out[0].ip_address, "10.0.0.5");
    assert!(out[0].connected);
    assert_eq!(out[1].ip_address, "");
    assert!(!out[1].connected);
    assert_eq!(out[1].mac_address, "02");
}

#[test]
fn uptime_strings_parse_as_plain_decimals() {
    assert_eq!(parse_uptime_seconds("12345"), 12345);
    assert_eq!(parse_uptime_seconds("0"), 0);
    assert_eq!(parse_uptime_seconds(""), 0);
    assert_eq!(parse_uptime_seconds("12a"), 0);
    assert_eq!(parse_uptime_seconds("-5"), 0);
    assert_eq!(parse_uptime_seconds("18446744073709551615"), u64::MAX);
    assert_eq!(parse_uptime_seconds("18446744073709551616"), 0);
}

#[test]
fn uptime_origin_is_now_minus_uptime() {
    assert_eq!(uptime_since(1_000_000, 10).unwrap(), 990_000);
    assert_eq!(uptime_since(5_000, 5).unwrap(), 0);
}

#[test]
fn inconsistent_clock_readings_are_an_error() {
    let r = uptime_since(4_999, 5);
    match r {
        Err(DabError::Err400(m)) => assert_eq!(m, "uptime exceeds current time"),
        _ => panic!("expected a request-class error"),
    }
}

#[test]
fn identity_duplicates_the_firmware_string() {
    let id = build_identity(
        "Acme".to_string(),
        "STB-1".to_string(),
        "SN42".to_string(),
        "chip9".to_string(),
        "fw-1.2.3".to_string(),
    );
    assert_eq!(id.manufacturer, "Acme");
    assert_eq!(id.firmware_version, "fw-1.2.3");
    assert_eq!(id.firmware_build, "fw-1.2.3");
}

#[test]
fn snapshot_assembles_all_fields() {
    let identity = build_identity(
        "Acme".to_string(),
        "STB-1".to_string(),
        "SN42".to_string(),
        "chip9".to_string(),
        "fw-1.2.3".to_string(),
    );
    let displays = DisplaysReply {
        displays: vec!["HDMI0".to_string()],
        success: true,
    };
    let resolution = ScreenResolutionReply {
        width: 1920,
        height: 1080,
        success: true,
    };
    let snap = assemble_snapshot(
        identity,
        displays,
        resolution,
        Vec::new(),
        "device-7".to_string(),
        2_000_000,
        1_000,
    )
    .unwrap();
    assert_eq!(snap.manufacturer, "Acme");
    assert_eq!(snap.model, "STB-1");
    assert_eq!(snap.serial_number, "SN42");
    assert_eq!(snap.chipset, "chip9");
    assert_eq!(snap.firmware_version, "fw-1.2.3");
    assert_eq!(snap.firmware_build, "fw-1.2.3");
    assert_eq!(snap.uptime_since, 1_000_000);
    assert_eq!(snap.screen_width_pixels, 1920);
    assert_eq!(snap.screen_height_pixels, 1080);
    assert_eq!(snap.device_id, "device-7");
    assert_eq!(snap.display_type, DisplayType::External);
    assert!(snap.network_interfaces.is_empty());
}

#[test]
fn failed_mandatory_replies_abort_the_snapshot() {
    let identity = build_identity(
        "Acme".to_string(),
        "STB-1".to_string(),
        "SN42".to_string(),
        "chip9".to_string(),
        "fw".to_string(),
    );
    let displays = DisplaysReply {
        displays: Vec::new(),
        success: false,
    };
    let resolution = ScreenResolutionReply {
        width: 1280,
        height: 720,
        success: true,
    };
    let r = assemble_snapshot(
        identity,
        displays,
        resolution,
        Vec::new(),
        "id".to_string(),
        1_000,
        0,
    );
    assert!(matches!(r, Err(DabError::Err500(_))));

    let identity = build_identity(
        "Acme".to_string(),
        "STB-1".to_string(),
        "SN42".to_string(),
        "chip9".to_string(),
        "fw".to_string(),
    );
    let displays = DisplaysReply {
        displays: Vec::new(),
        success: true,
    };
    let resolution = ScreenResolutionReply {
        width: 1280,
        height: 720,
        success: false,
    };
    let r = assemble_snapshot(
        identity,
        displays,
        resolution,
        Vec::new(),
        "id".to_string(),
        1_000,
        0,
    );
    assert!(matches!(r, Err(DabError::Err500(_))));
}
