use vortix::state::profile::{Protocol, VpnProfile};
use vortix::vpn::{
    check_config_size, count_by_protocol, derive_location_from_name,
    detect_protocol_from_content, draft_profile, file_not_found, is_profile_file, join,
    file_kind, load_profile, openvpn_scan_line, openvpn_verdict, parse_openvpn_config,
    parse_wireguard_config, profile_name, unsupported_file_type, wireguard_scan_line,
    wireguard_verdict, FileKind, OpenVpnScan, ProfileDraft, WireGuardScan,
};

#[test]
fn test_derive_location_us() {
    assert_eq!(derive_location_from_name("us-east-1"), "United States");
    assert_eq!(derive_location_from_name("us-west"), "United States");
    // This should NOT match "us" in "business" - improved logic
    assert_eq!(derive_location_from_name("business-vpn"), "Unknown");
}

#[test]
fn test_derive_location_eu() {
    assert_eq!(derive_location_from_name("nl-01"), "Netherlands");
    assert_eq!(derive_location_from_name("de-berlin"), "Germany");
    assert_eq!(derive_location_from_name("uk-server"), "United Kingdom");
    assert_eq!(derive_location_from_name("fr-01"), "France");
    // This should NOT match "de" in "desktop" - improved logic
    assert_eq!(derive_location_from_name("desktop-server"), "Unknown");
}

#[test]
fn test_derive_location_asia() {
    assert_eq!(derive_location_from_name("jp-01"), "Japan");
    assert_eq!(derive_location_from_name("sg-01"), "Singapore");
    assert_eq!(derive_location_from_name("tokyo-server"), "Tokyo, JP");
}

#[test]
fn test_derive_location_unknown() {
    assert_eq!(derive_location_from_name("my-vpn"), "Unknown");
    assert_eq!(derive_location_from_name("server-01"), "Unknown");
    // Edge cases that should NOT be misidentified as country codes
    assert_eq!(derive_location_from_name("usa-server"), "Unknown"); // does not contain exact "us-" token
    assert_eq!(derive_location_from_name("cache-server"), "Unknown"); // does not contain exact "ca-" token
}

#[test]
fn test_derive_location_cities() {
    assert_eq!(derive_location_from_name("london-server"), "London, GB");
    assert_eq!(derive_location_from_name("paris-vpn"), "Paris, FR");
    assert_eq!(derive_location_from_name("amsterdam-01"), "Amsterdam, NL");
    assert_eq!(derive_location_from_name("frankfurt-dc"), "Frankfurt, DE");
    assert_eq!(derive_location_from_name("tokyo-primary"), "Tokyo, JP");
}

#[test]
fn derive_location_edge_cases() {
    assert_eq!(derive_location_from_name(""), "Unknown");
    assert_eq!(derive_location_from_name("u"), "Unknown");
    assert_eq!(derive_location_from_name("US"), "United States");
    assert_eq!(derive_location_from_name("Se_home"), "Sweden");
    assert_eq!(derive_location_from_name("it9"), "Italy");
    assert_eq!(derive_location_from_name("es-"), "Spain");
    assert_eq!(derive_location_from_name("ch."), "Unknown");
    assert_eq!(derive_location_from_name("üs-1"), "Unknown");
    assert_eq!(derive_location_from_name("éus"), "Unknown");
    assert_eq!(derive_location_from_name("my-NEW-YORK-box"), "New York, US");
    assert_eq!(derive_location_from_name("losangeles"), "Los Angeles, US");
    assert_eq!(derive_location_from_name("au-sydney"), "Sydney, AU");
    // a city anywhere beats a country code at the start
    assert_eq!(derive_location_from_name("nl-frankfurt"), "Frankfurt, DE");
    // earlier cities win
    assert_eq!(derive_location_from_name("paris-london"), "London, GB");
    assert_eq!(derive_location_from_name("gb-1"), "United Kingdom");
    assert_eq!(derive_location_from_name("ca_1"), "Canada");
    assert_eq!(derive_location_from_name("toronto"), "Toronto, CA");
    assert_eq!(derive_location_from_name("zurich"), "Zurich, CH");
    assert_eq!(derive_location_from_name("singapore"), "Singapore, SG");
}

#[test]
fn test_detect_protocol_wireguard() {
    let wg_config = "[Interface]\nPrivateKey = abc\nAddress = 10.0.0.2/32\n\n[Peer]\nPublicKey = xyz\nEndpoint = 1.2.3.4:51820\n";
    assert!(matches!(detect_protocol_from_content(wg_config), Protocol::WireGuard));
}

#[test]
fn test_detect_protocol_openvpn() {
    let ovpn_config = "client\ndev tun\nproto udp\nremote vpn.example.com 1194\n";
    assert!(matches!(detect_protocol_from_content(ovpn_config), Protocol::OpenVPN));
}

#[test]
fn test_detect_protocol_openvpn_with_remote_only_and_dev() {
    // Has remote + dev but no [Interface]/[Peer] → OpenVPN
    let config = "dev tun\nremote server.example.com 443\nproto tcp\n";
    assert!(matches!(detect_protocol_from_content(config), Protocol::OpenVPN));
}

#[test]
fn test_detect_protocol_defaults_to_wireguard_for_unknown() {
    // Random text that doesn't match either protocol
    let config = "some random text\nwith no VPN directives\n";
    assert!(matches!(detect_protocol_from_content(config), Protocol::WireGuard));
}

#[test]
fn detect_protocol_edge_cases() {
    assert_eq!(detect_protocol_from_content(""), Protocol::WireGuard);
    assert_eq!(detect_protocol_from_content("  REMOTE\thost 1\r\n"), Protocol::OpenVPN);
    assert_eq!(detect_protocol_from_content("remote"), Protocol::WireGuard);
    assert_eq!(detect_protocol_from_content("\tClient  "), Protocol::OpenVPN);
    assert_eq!(detect_protocol_from_content("clients"), Protocol::WireGuard);
    assert_eq!(detect_protocol_from_content("x\nproto udp"), Protocol::OpenVPN);
    // both sections beat OpenVPN directives
    assert_eq!(detect_protocol_from_content("[peer] [INTERFACE]\nclient\n"), Protocol::WireGuard);
    assert_eq!(detect_protocol_from_content("[Interface]\nclient\n"), Protocol::OpenVPN);
    assert_eq!(Protocol::default(), Protocol::WireGuard);
    assert_eq!(Protocol::OpenVPN.label(), "OpenVPN");
    assert_eq!(Protocol::WireGuard.label(), "WireGuard");
}

#[test]
fn test_parse_wireguard_config_basic() {
    let config = r"
[Interface]
PrivateKey = abc123
Address = 10.0.0.2/32

[Peer]
PublicKey = xyz789
Endpoint = vpn.example.com:51820
AllowedIPs = 0.0.0.0/0
";
    let result = parse_wireguard_config(config, "/tmp/us-east.conf");
    assert!(result.is_ok());
    let (name, _location) = result.unwrap();
    assert_eq!(name, "us-east");
}

#[test]
fn test_parse_wireguard_config_no_endpoint() {
    let config = r"
[Interface]
PrivateKey = abc123
Address = 10.0.0.2/32

[Peer]
PublicKey = xyz789
AllowedIPs = 0.0.0.0/0
";
    let result = parse_wireguard_config(config, "/tmp/test.conf");
    assert!(result.is_err());
    assert!(result.unwrap_err().contains("Endpoint"));
}

#[test]
fn test_parse_openvpn_config_basic() {
    let config = r"
client
dev tun
proto udp
remote vpn.example.com 1194
resolv-retry infinite
";
    let result = parse_openvpn_config(config, "/tmp/nl-amsterdam.ovpn");
    assert!(result.is_ok());
    let (name, _location) = result.unwrap();
    assert_eq!(name, "nl-amsterdam");
}

#[test]
fn test_parse_openvpn_config_no_remote() {
    let config = r"
client
dev tun
proto udp
";
    let result = parse_openvpn_config(config, "/tmp/test.ovpn");
    assert!(result.is_err());
    assert!(result.unwrap_err().contains("No 'remote' directive"));
}

#[test]
fn test_parse_wireguard_config_with_whitespace_and_comments() {
    let config = r"
# This is a WireGuard config with extra whitespace and comments

[Interface]
  PrivateKey = abc123
  Address = 10.0.0.2/32
  DNS = 1.1.1.1

# Peer section
[Peer]
  PublicKey = xyz789
  Endpoint = vpn.example.com:51820
  AllowedIPs = 0.0.0.0/0, ::/0
  PersistentKeepalive = 25
";
    let result = parse_wireguard_config(config, "/tmp/us-east-whitespace.conf");
    assert!(result.is_ok());
    let (name, _) = result.unwrap();
    assert_eq!(name, "us-east-whitespace");
}

#[test]
fn test_parse_wireguard_config_unusual_endpoint_formats() {
    // IP:port format (complete config)
    let config = "[Interface]\nPrivateKey = abc123\nAddress = 10.0.0.2/32\n\n[Peer]\nPublicKey = xyz789\nEndpoint = 1.2.3.4:51820\n";
    let result = parse_wireguard_config(config, "/tmp/ip-endpoint.conf");
    assert!(result.is_ok());

    // Hostname endpoint (complete config)
    let config2 = "[Interface]\nPrivateKey = abc123\nAddress = 10.0.0.2/32\n\n[Peer]\nPublicKey = xyz789\nEndpoint = vpn6.example.com:51820\n";
    let result2 = parse_wireguard_config(config2, "/tmp/ipv6-endpoint.conf");
    assert!(result2.is_ok());
}

#[test]
fn test_parse_openvpn_config_with_extras() {
    let config = r"
# OpenVPN client config
; Another comment style
client
dev tun
proto udp
remote vpn.example.com 1194
remote-random
resolv-retry infinite
nobind
persist-key
persist-tun
cipher AES-256-GCM
auth SHA256
verb 3

<ca>
-----BEGIN CERTIFICATE-----
MIIDqzCCApOgAwIB...
-----END CERTIFICATE-----
</ca>
";
    let result = parse_openvpn_config(config, "/tmp/nl-amsterdam-full.ovpn");
    assert!(result.is_ok());
    let (name, location) = result.unwrap();
    assert_eq!(name, "nl-amsterdam-full");
    assert_eq!(location, "Amsterdam, NL");
}

#[test]
fn test_parse_openvpn_config_empty_lines() {
    let config = "\n\n\nclient\n\n\nremote server.example.com 443\n\n\n";
    let result = parse_openvpn_config(config, "/tmp/sparse.ovpn");
    assert!(result.is_ok());
}

#[test]
fn test_parse_wireguard_config_missing_required_fields() {
    // Missing [Peer] section entirely
    let config = "[Interface]\nPrivateKey = abc123\nAddress = 10.0.0.2/32\n";
    let result = parse_wireguard_config(config, "/tmp/missing-peer.conf");
    assert!(result.is_err());
    assert!(result.unwrap_err().contains("[Peer]"));

    // Missing PrivateKey
    let config2 = "[Interface]\nAddress = 10.0.0.2/32\n\n[Peer]\nPublicKey = xyz\nEndpoint = 1.2.3.4:51820\n";
    let result2 = parse_wireguard_config(config2, "/tmp/missing-privkey.conf");
    assert!(result2.is_err());
    assert!(result2.unwrap_err().contains("PrivateKey"));

    // Missing Address
    let config3 =
        "[Interface]\nPrivateKey = abc\n\n[Peer]\nPublicKey = xyz\nEndpoint = 1.2.3.4:51820\n";
    let result3 = parse_wireguard_config(config3, "/tmp/missing-addr.conf");
    assert!(result3.is_err());
    assert!(result3.unwrap_err().contains("Address"));

    // Missing PublicKey in [Peer]
    let config4 = "[Interface]\nPrivateKey = abc\nAddress = 10.0.0.2/32\n\n[Peer]\nEndpoint = 1.2.3.4:51820\n";
    let result4 = parse_wireguard_config(config4, "/tmp/missing-pubkey.conf");
    assert!(result4.is_err());
    assert!(result4.unwrap_err().contains("PublicKey"));
}

#[test]
fn test_utf8_profile_names() {
    // Unicode profile name handling (complete valid config)
    let config = "[Interface]\nPrivateKey = abc123\nAddress = 10.0.0.2/32\n\n[Peer]\nPublicKey = xyz789\nEndpoint = vpn.example.com:51820\n";
    let result = parse_wireguard_config(config, "/tmp/münchen-vpn.conf");
    assert!(result.is_ok());
    let (name, _) = result.unwrap();
    assert_eq!(name, "münchen-vpn");
}

#[test]
fn test_openvpn_rejects_file_with_only_remote() {
    // Has "remote" but no other OpenVPN directives -- not a real OpenVPN config
    let config = "remote 1.2.3.4 1194\nsome random data here\n";
    let result = parse_openvpn_config(config, "/tmp/suspicious.ovpn");
    assert!(result.is_err());
    assert!(result.unwrap_err().contains("no OpenVPN directives"));
}

#[test]
fn test_openvpn_accepts_config_with_inline_certs() {
    let config = "remote vpn.example.com 1194\n<ca>\n-----BEGIN CERTIFICATE-----\nMIID...\n-----END CERTIFICATE-----\n</ca>\n";
    let result = parse_openvpn_config(config, "/tmp/inline-cert.ovpn");
    assert!(result.is_ok());
}

#[test]
fn test_wireguard_rejects_missing_interface() {
    let config = "[Peer]\nPublicKey = xyz\nEndpoint = 1.2.3.4:51820\n";
    let result = parse_wireguard_config(config, "/tmp/no-interface.conf");
    assert!(result.is_err());
    assert!(result.unwrap_err().contains("[Interface]"));
}

const WG: &str = "[Interface]\nPrivateKey = abc\nAddress = 10.0.0.2/32\n\n[Peer]\nPublicKey = xyz\nEndpoint = 1.2.3.4:51820\n";
const OVPN: &str = "client\nremote vpn.example.com 1194\n";

#[test]
fn wireguard_errors_are_exact() {
    assert_eq!(
        parse_wireguard_config("[Peer]\n", "/tmp/a.conf"),
        Err("Missing [Interface] section in WireGuard config".to_string())
    );
    assert_eq!(
        parse_wireguard_config("[Interface]\n", "/tmp/a.conf"),
        Err("Missing [Peer] section in WireGuard config".to_string())
    );
    assert_eq!(
        parse_wireguard_config("[Interface]\n[Peer]\n", "/tmp/a.conf"),
        Err("Invalid WireGuard config — missing required fields: PrivateKey, Address, PublicKey (in [Peer]), Endpoint (in [Peer])".to_string())
    );
    assert_eq!(
        parse_wireguard_config("[Interface]\nAddress=1\n[Peer]\nPublicKey=x\n", "/tmp/a.conf"),
        Err("Invalid WireGuard config — missing required fields: PrivateKey, Endpoint (in [Peer])".to_string())
    );
    // keys count only in their own section
    assert_eq!(
        parse_wireguard_config(
            "[Interface]\nPublicKey=x\nEndpoint=h:1\n[Peer]\nPrivateKey=a\nAddress=1\n",
            "/tmp/a.conf"
        ),
        Err("Invalid WireGuard config — missing required fields: PrivateKey, Address, PublicKey (in [Peer]), Endpoint (in [Peer])".to_string())
    );
    // an endpoint without a host does not count, a later one does
    assert_eq!(
        parse_wireguard_config(
            "[Interface]\nPrivateKey=a\nAddress=1\n[Peer]\nPublicKey=x\nEndpoint = :51820\n",
            "/tmp/a.conf"
        ),
        Err("Invalid WireGuard config — missing required fields: Endpoint (in [Peer])".to_string())
    );
    assert_eq!(
        parse_wireguard_config(
            "[INTERFACE]\nPRIVATEKEY=a\n address =1\n[peer]\nPublicKey=x\nEndpoint = :51820\nENDPOINT= host\n",
            "/tmp/de-1.conf"
        ),
        Ok(("de-1".to_string(), "Germany".to_string()))
    );
    assert_eq!(
        parse_wireguard_config(WG, "/tmp/tokyo.conf"),
        Ok(("tokyo".to_string(), "Tokyo, JP".to_string()))
    );
}

#[test]
fn openvpn_errors_are_exact() {
    assert_eq!(
        parse_openvpn_config("client\n", "/tmp/a.ovpn"),
        Err("No 'remote' directive found in OpenVPN config".to_string())
    );
    assert_eq!(
        parse_openvpn_config("remote\n remote \nclient\n", "/tmp/a.ovpn"),
        Err("No 'remote' directive found in OpenVPN config".to_string())
    );
    assert_eq!(
        parse_openvpn_config("remote host\n", "/tmp/a.ovpn"),
        Err("File has a 'remote' line but no OpenVPN directives (client, dev, proto, etc.)".to_string())
    );
    // a tab after remote is not taken for a server
    assert_eq!(
        parse_openvpn_config("remote\thost\nclient\n", "/tmp/a.ovpn"),
        Err("No 'remote' directive found in OpenVPN config".to_string())
    );
    assert_eq!(
        parse_openvpn_config("  REMOTE host 1\n\tNoBind\n", "/tmp/sg-1.ovpn"),
        Ok(("sg-1".to_string(), "Singapore".to_string()))
    );
    assert_eq!(
        parse_openvpn_config(OVPN, "relative/uk_x.ovpn"),
        Ok(("uk_x".to_string(), "United Kingdom".to_string()))
    );
}

#[test]
fn scan_steps() {
    let cs = |s: &str| s.chars().collect::<Vec<char>>();
    let start = WireGuardScan {
        in_peer: false,
        has_private_key: false,
        has_address: false,
        has_public_key: false,
        has_endpoint: false,
    };
    let st = wireguard_scan_line(start, &cs("[Peer]"), &cs("[peer]"));
    assert_eq!(st, WireGuardScan { in_peer: true, ..start });
    let st2 = wireguard_scan_line(st, &cs("Endpoint = Host:1"), &cs("endpoint = host:1"));
    assert_eq!(st2, WireGuardScan { in_peer: true, has_endpoint: true, ..start });
    assert_eq!(wireguard_scan_line(st, &cs("Endpoint"), &cs("endpoint")), st);
    assert_eq!(wireguard_scan_line(st, &cs("PrivateKey = a"), &cs("privatekey = a")), st);
    assert_eq!(
        wireguard_scan_line(st2, &cs("[Interface]"), &cs("[interface]")),
        WireGuardScan { in_peer: false, has_endpoint: true, ..start }
    );
    let o = OpenVpnScan { has_server: false, has_structure: false };
    assert_eq!(
        openvpn_scan_line(o, &cs("remote h 1"), &cs("remote h 1")),
        OpenVpnScan { has_server: true, has_structure: false }
    );
    assert_eq!(
        openvpn_scan_line(o, &cs("<TLS-Crypt>"), &cs("<tls-crypt>")),
        OpenVpnScan { has_server: false, has_structure: true }
    );
    assert_eq!(
        openvpn_scan_line(o, &cs("remote-cert-tls server"), &cs("remote-cert-tls server")),
        OpenVpnScan { has_server: false, has_structure: true }
    );
    assert_eq!(openvpn_scan_line(o, &cs("remotely"), &cs("remotely")), o);
}

#[test]
fn profile_names_come_from_the_file_stem() {
    assert_eq!(profile_name("/tmp/us-east.conf"), "us-east");
    assert_eq!(profile_name("a.b.ovpn"), "a.b");
    assert_eq!(profile_name(".hidden"), ".hidden");
    assert_eq!(profile_name("/"), "unknown");
    assert_eq!(profile_name(""), "unknown");
    assert_eq!(profile_name("dir/.."), "unknown");
}

#[test]
fn config_size_is_checked() {
    assert_eq!(check_config_size(0), Err("File is empty".to_string()));
    assert_eq!(check_config_size(1), Ok(()));
    assert_eq!(check_config_size(1_048_576), Ok(()));
    assert_eq!(
        check_config_size(1_048_577),
        Err("File too large (1048577 bytes). VPN configs should be under 1 MB".to_string())
    );
    assert_eq!(file_not_found("/nonexistent/path/file.conf"), "File not found: /nonexistent/path/file.conf");
}

#[test]
fn drafts_follow_the_extension() {
    assert_eq!(
        draft_profile("/tmp/test.txt", "test content"),
        Err("Unsupported file type: .txt (expected .conf or .ovpn)".to_string())
    );
    assert_eq!(
        draft_profile("/tmp/test", WG),
        Err("Unsupported file type: . (expected .conf or .ovpn)".to_string())
    );
    let d = draft_profile("/tmp/nl-1.CONF", WG).unwrap();
    assert_eq!(
        d,
        ProfileDraft {
            name: "nl-1".to_string(),
            protocol: Protocol::WireGuard,
            location: "Netherlands".to_string(),
            extension: "conf".to_string(),
        }
    );
    assert_eq!(d.file_name(), "nl-1.conf");
    // a .conf file with OpenVPN content is read as OpenVPN
    let d = draft_profile("/tmp/x.conf", OVPN).unwrap();
    assert_eq!(d.protocol, Protocol::OpenVPN);
    // an .ovpn file is never read as WireGuard
    assert_eq!(
        draft_profile("/tmp/x.ovpn", WG),
        Err("No 'remote' directive found in OpenVPN config".to_string())
    );
    let stored = d.stored_at("/home/u/.config/vortix/profiles/x(1).conf");
    assert_eq!(stored.name, "x(1)");
    assert_eq!(stored.protocol, Protocol::OpenVPN);
    assert_eq!(stored.location, "Unknown");
    assert_eq!(stored.config_path, "/home/u/.config/vortix/profiles/x(1).conf");
    assert_eq!(stored.last_used, None);
}

#[test]
fn stored_profiles_are_loaded() {
    assert!(is_profile_file("a/b.conf"));
    assert!(is_profile_file("b.ovpn"));
    assert!(!is_profile_file("b.CONF"));
    assert!(!is_profile_file("b.txt"));
    assert!(!is_profile_file("conf"));
    let p = load_profile("/p/jp-1.conf", WG).unwrap();
    assert_eq!((p.name.as_str(), p.protocol, p.location.as_str()), ("jp-1", Protocol::WireGuard, "Japan"));
    assert_eq!(p.config_path, "/p/jp-1.conf");
    assert_eq!(p.last_used, None);
    let p = load_profile("/p/paris.ovpn", OVPN).unwrap();
    assert_eq!((p.name.as_str(), p.protocol, p.location.as_str()), ("paris", Protocol::OpenVPN, "Paris, FR"));
    assert_eq!(
        load_profile("/p/x.conf", "nothing").unwrap_err(),
        "Missing [Interface] section in WireGuard config"
    );
    let profile = |protocol| VpnProfile {
        name: String::new(),
        protocol,
        location: String::new(),
        config_path: String::new(),
        last_used: None,
    };
    assert_eq!(count_by_protocol(&vec![]), (0, 0));
    assert_eq!(
        count_by_protocol(&vec![
            profile(Protocol::OpenVPN),
            profile(Protocol::WireGuard),
            profile(Protocol::OpenVPN)
        ]),
        (1, 2)
    );
}

#[test]
fn join_puts_the_separator_between() {
    assert_eq!(join(&vec![], ", "), "");
    assert_eq!(join(&vec!["a"], ", "), "a");
    assert_eq!(join(&vec!["a", "b", "c"], ", "), "a, b, c");
}

#[test]
fn verdicts_follow_the_scan() {
    let all = WireGuardScan {
        in_peer: true,
        has_private_key: true,
        has_address: true,
        has_public_key: true,
        has_endpoint: true,
    };
    assert_eq!(wireguard_verdict(true, true, all), Ok(()));
    assert_eq!(
        wireguard_verdict(false, false, all),
        Err("Missing [Interface] section in WireGuard config".to_string())
    );
    assert_eq!(
        wireguard_verdict(true, false, all),
        Err("Missing [Peer] section in WireGuard config".to_string())
    );
    assert_eq!(
        wireguard_verdict(true, true, WireGuardScan { has_address: false, ..all }),
        Err("Invalid WireGuard config — missing required fields: Address".to_string())
    );
    assert_eq!(
        wireguard_verdict(true, true, WireGuardScan { has_public_key: false, has_endpoint: false, ..all }),
        Err("Invalid WireGuard config — missing required fields: PublicKey (in [Peer]), Endpoint (in [Peer])".to_string())
    );
    assert_eq!(openvpn_verdict(OpenVpnScan { has_server: true, has_structure: true }), Ok(()));
    assert_eq!(
        openvpn_verdict(OpenVpnScan { has_server: false, has_structure: true }),
        Err("No 'remote' directive found in OpenVPN config".to_string())
    );
    assert_eq!(
        openvpn_verdict(OpenVpnScan { has_server: true, has_structure: false }),
        Err("File has a 'remote' line but no OpenVPN directives (client, dev, proto, etc.)".to_string())
    );
}

#[test]
fn extensions_tell_the_kind() {
    let cs = |s: &str| s.chars().collect::<Vec<char>>();
    assert_eq!(file_kind(&cs("ovpn")), FileKind::OpenVpn);
    assert_eq!(file_kind(&cs("conf")), FileKind::Ambiguous);
    assert_eq!(file_kind(&cs("CONF")), FileKind::Unsupported);
    assert_eq!(file_kind(&cs("")), FileKind::Unsupported);
    assert_eq!(
        unsupported_file_type(&cs("txt")),
        "Unsupported file type: .txt (expected .conf or .ovpn)"
    );
}
