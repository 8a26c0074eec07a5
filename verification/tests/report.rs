use vortix::engine::PersistedRecord;
use vortix::report::{
    build_github_url, check_tool, choice_of_lower, collect_tool_queries, command_output,
    config_file_status, count_profiles, detect_install_method, format_issue_body, format_preview,
    get_os_info, killswitch_summary, linux_distro_name, parse_choice, parse_version_line,
    parse_version_word, terminal_size_label, Platform, ReportChoice, ReportInfo, ToolStatus,
    GITHUB_ISSUE_URL_LIMIT, TRUNCATION_NOTE_LEN,
};
use vortix::state::killswitch::{KillSwitchMode, KillSwitchState};

#[test]
fn test_parse_version_curl() {
    let raw = "curl 8.4.0 (aarch64-apple-darwin23.0) libcurl/8.4.0";
    assert_eq!(parse_version_line(raw), Some("8.4.0".to_string()));
}

#[test]
fn test_parse_version_openvpn() {
    let raw = "OpenVPN 2.6.8 x86_64-pc-linux-gnu [SSL (OpenSSL)]";
    assert_eq!(parse_version_line(raw), Some("2.6.8".to_string()));
}

#[test]
fn test_parse_version_wg() {
    let raw = "wireguard-tools v1.0.20210914 - https://git.zx2c4.com/wireguard-tools/";
    assert_eq!(parse_version_line(raw), Some("1.0.20210914".to_string()));
}

#[test]
fn test_parse_version_empty() {
    assert_eq!(parse_version_line(""), None);
    assert_eq!(parse_version_line("  \n  "), None);
}

#[test]
fn test_parse_version_no_version_token() {
    // Usage text or error messages should return None, not a false "version"
    let raw = "Usage: wg-quick [ up | down | save | strip ] [ CONFIG_FILE ]";
    assert_eq!(parse_version_line(raw), None);

    let raw2 = "some-tool (no version)";
    assert_eq!(parse_version_line(raw2), None);
}

#[test]
fn parse_version_reads_first_line_only() {
    assert_eq!(parse_version_line("usage\ncurl 8.4.0"), None);
    assert_eq!(parse_version_line("\ncurl 8.4.0"), None);
    assert_eq!(parse_version_line("nft v1.0.9 (Old Doc Yak #3)\r\nmore 2.0"), Some("1.0.9".to_string()));
    assert_eq!(parse_version_line("  iptables v1.8.10, (nf_tables)"), Some("1.8.10".to_string()));
    assert_eq!(parse_version_line("tool 7 1.2rc1) x"), Some("1.2rc1".to_string()));
    assert_eq!(parse_version_line("vv1.2 v.1 1"), None);
}

#[test]
fn parse_version_word_cases() {
    let w = |s: &str| parse_version_word(&s.chars().collect::<Vec<char>>());
    assert_eq!(w("v1.0"), Some("1.0".to_string()));
    assert_eq!(w("1.0,"), Some("1.0".to_string()));
    assert_eq!(w("1(.0)"), Some("1".to_string()));
    assert_eq!(w("10"), None);
    assert_eq!(w("v"), None);
    assert_eq!(w(""), None);
    assert_eq!(w("a1.0"), None);
}

#[test]
fn test_detect_install_method_cargo() {
    let exe = "/Users/user/.cargo/bin/vortix";
    if exe.contains("/.cargo/bin/") {
        assert!(true);
    }
    assert_eq!(detect_install_method(Some(exe)), "cargo install");
}

#[test]
fn detect_install_method_all_kinds() {
    assert_eq!(detect_install_method(None), "unknown");
    assert_eq!(detect_install_method(Some("/opt/homebrew/bin/vortix")), "homebrew");
    assert_eq!(detect_install_method(Some("/usr/local/Cellar/vortix/0.1/bin/vortix")), "homebrew");
    assert_eq!(detect_install_method(Some("/nix/store/abc-vortix/bin/vortix")), "nix");
    assert_eq!(detect_install_method(Some("/usr/bin/vortix")), "system package");
    assert_eq!(detect_install_method(Some("/usr/local/bin/vortix")), "system package");
    assert_eq!(detect_install_method(Some("/home/u/vortix/target/debug/vortix")), "built from source");
    assert_eq!(detect_install_method(Some("/home/u/vortix/target/release/vortix")), "built from source");
    assert_eq!(detect_install_method(Some("/home/u/vortix")), "binary");
    assert_eq!(detect_install_method(Some("")), "binary");
    // the first kind that fits wins
    assert_eq!(detect_install_method(Some("/nix/store/x/.cargo/bin/vortix")), "cargo install");
}

#[test]
fn test_build_github_url_within_limit() {
    let body = "## Test\n\nShort body";
    let url = build_github_url(body);
    assert!(url.starts_with("https://github.com/Harry-kp/vortix/issues/new"));
    assert!(url.len() <= GITHUB_ISSUE_URL_LIMIT);
}

#[test]
fn test_build_github_url_truncation() {
    // Create a body that will exceed the URL limit when encoded
    let body = "A".repeat(10_000);
    let url = build_github_url(&body);
    assert!(url.len() <= GITHUB_ISSUE_URL_LIMIT);
}

#[test]
fn build_github_url_exact() {
    assert_eq!(
        build_github_url("## Test\n\nShort body~_-.é"),
        "https://github.com/Harry-kp/vortix/issues/new?labels=bug&title=%5BBug%5D%20&body=%23%23%20Test%0A%0AShort%20body~_-.%C3%A9"
    );
    let note = "\n\n<!-- Report truncated due to URL length limit. Please add remaining details manually. -->";
    assert_eq!(note.len(), TRUNCATION_NOTE_LEN);
    let body = "A".repeat(10_000);
    let url = build_github_url(&body);
    let kept = GITHUB_ISSUE_URL_LIMIT - 200 - TRUNCATION_NOTE_LEN;
    let expected = format!(
        "https://github.com/Harry-kp/vortix/issues/new?labels=bug&title=%5BBug%5D%20&body={}{}",
        "A".repeat(kept),
        "%0A%0A%3C%21--%20Report%20truncated%20due%20to%20URL%20length%20limit.%20Please%20add%20remaining%20details%20manually.%20--%3E"
    );
    assert_eq!(url, expected.chars().take(GITHUB_ISSUE_URL_LIMIT).collect::<String>());
}

fn sample_info(is_root: bool, tools: Vec<ToolStatus>, counts: (u32, u32)) -> ReportInfo {
    ReportInfo {
        version: "0.1.4".to_string(),
        install_method: "cargo install".to_string(),
        os_info: "macOS 14.2".to_string(),
        arch: "aarch64".to_string(),
        terminal: "xterm-256color".to_string(),
        terminal_size: "120x40".to_string(),
        shell: "/bin/zsh".to_string(),
        is_root,
        tools,
        config_dir: "~/.config/vortix".to_string(),
        config_source: "default".to_string(),
        config_toml_status: "found".to_string(),
        profile_counts: counts,
        killswitch_state: "off".to_string(),
    }
}

#[test]
fn test_format_issue_body_with_description() {
    let info = sample_info(false, vec![], (2, 1));

    let body = format_issue_body(&info, "WireGuard shows connected but no traffic");
    assert!(body.contains("## Bug Description"));
    assert!(body.contains("WireGuard shows connected but no traffic"));
    assert!(body.contains("## Environment"));
    assert!(body.contains("0.1.4 (cargo install)"));
    assert!(body.contains("## Dependencies"));
    assert!(body.contains("## Config"));
    assert!(body.contains("3 (2 WireGuard, 1 OpenVPN)"));
}

#[test]
fn test_format_issue_body_empty_description() {
    let info = ReportInfo {
        version: "0.1.4".to_string(),
        install_method: "unknown".to_string(),
        os_info: "Linux".to_string(),
        arch: "x86_64".to_string(),
        terminal: "unknown".to_string(),
        terminal_size: "unknown".to_string(),
        shell: "unknown".to_string(),
        is_root: true,
        tools: vec![],
        config_dir: "/root/.config/vortix".to_string(),
        config_source: "default".to_string(),
        config_toml_status: "not found (using defaults)".to_string(),
        profile_counts: (0, 0),
        killswitch_state: "off".to_string(),
    };

    let body = format_issue_body(&info, "");
    assert!(body.contains("<!-- Describe what happened"));
    assert!(body.contains("root (via sudo)"));
}

#[test]
fn format_issue_body_exact() {
    let tools = vec![
        ToolStatus {
            name: "curl".to_string(),
            path: Some("/usr/bin/curl".to_string()),
            version: Some("8.4.0".to_string()),
        },
        ToolStatus { name: "wg-quick".to_string(), path: Some("/usr/bin/wg-quick".to_string()), version: None },
        ToolStatus { name: "openvpn".to_string(), path: None, version: Some("2.6.8".to_string()) },
        ToolStatus { name: "a-very-long-tool-name".to_string(), path: None, version: None },
    ];
    let info = sample_info(false, tools, (4_000_000_000, 4_000_000_000));
    let body = format_issue_body(&info, "It broke");
    let expected = "## Bug Description\n\nIt broke\n\n\
## Steps to Reproduce\n\n<!-- How can we reproduce this? -->\n\n1. \n2. \n3. \n\n\
## Environment\n\n```\nVortix:       0.1.4 (cargo install)\nOS:           macOS 14.2 (aarch64)\n\
Terminal:     xterm-256color (120x40)\nShell:        /bin/zsh\nRunning as:   user\n```\n\n\
## Dependencies\n\n```\ncurl         /usr/bin/curl (8.4.0)\nwg-quick     /usr/bin/wg-quick\n\
openvpn      not found\na-very-long-tool-name not found\n```\n\n\
## Config\n\n```\nDirectory:   ~/.config/vortix (default)\nconfig.toml: found\n\
Profiles:    8000000000 (4000000000 WireGuard, 4000000000 OpenVPN)\nKill switch: off\n```\n\n\
## Additional Context\n\n<!-- Screenshots, error messages, log snippets (redact any IPs/endpoints) -->\n";
    assert_eq!(body, expected);
}

#[test]
fn format_preview_exact() {
    let tools = vec![
        ToolStatus {
            name: "curl".to_string(),
            path: Some("/usr/bin/curl".to_string()),
            version: Some("8.4.0".to_string()),
        },
        ToolStatus { name: "nft".to_string(), path: None, version: None },
    ];
    let info = sample_info(true, tools, (2, 1));
    let expected = "Bug Report Preview\n==================\n\n  Vortix:       0.1.4 (cargo install)\n  OS:           macOS 14.2 (aarch64)\n  Terminal:     xterm-256color (120x40)\n  Shell:        /bin/zsh\n  Running as:   root (via sudo)\n\n  Dependencies:\n    curl         /usr/bin/curl (8.4.0)\n    nft          not found\n\n  Config:\n    Directory:   ~/.config/vortix (default)\n    config.toml: found\n    Profiles:    3 (2 WireGuard, 1 OpenVPN)\n    Kill switch: off\n\n";
    assert_eq!(format_preview(&info), expected);
}

#[test]
fn report_fields() {
    assert_eq!(config_file_status(true), "found");
    assert_eq!(config_file_status(false), "not found (using defaults)");
    assert_eq!(terminal_size_label(120, 40), "120x40");
    assert_eq!(terminal_size_label(1, 0), "1x0");
    assert_eq!(terminal_size_label(0, 40), "unknown");
    assert_eq!(killswitch_summary(None), "off");
    assert_eq!(
        killswitch_summary(Some(PersistedRecord {
            mode: KillSwitchMode::AlwaysOn,
            state: KillSwitchState::Blocking,
            revision: 3
        })),
        "AlwaysOn (Blocking)"
    );
    assert_eq!(
        killswitch_summary(Some(PersistedRecord {
            mode: KillSwitchMode::Auto,
            state: KillSwitchState::Armed,
            revision: 0
        })),
        "Auto (Armed)"
    );
    assert_eq!(KillSwitchMode::Off.name(), "Off");
    assert_eq!(KillSwitchState::Disabled.name(), "Disabled");
    assert_eq!(command_output(true, " /usr/bin/curl\n"), Some("/usr/bin/curl".to_string()));
    assert_eq!(command_output(true, " \n"), None);
    assert_eq!(command_output(false, "/usr/bin/curl"), None);
}

#[test]
fn tools_are_listed_by_platform() {
    let names = |p| collect_tool_queries(p).iter().map(|q| (q.name, q.wants_version)).collect::<Vec<_>>();
    assert_eq!(
        names(Platform::MacOs),
        vec![("curl", true), ("wg-quick", true), ("wg", true), ("openvpn", true), ("pfctl", false)]
    );
    assert_eq!(
        names(Platform::Linux),
        vec![
            ("curl", true),
            ("wg-quick", true),
            ("wg", true),
            ("openvpn", true),
            ("iptables", true),
            ("nft", true)
        ]
    );
}

#[test]
fn tool_status_is_put_together() {
    let t = check_tool("wg-quick", Some("/usr/bin/wg-quick\n"), Some(("", "wg-quick v1.0.2 usage")));
    assert_eq!(t.name, "wg-quick");
    assert_eq!(t.path, Some("/usr/bin/wg-quick".to_string()));
    assert_eq!(t.version, Some("1.0.2".to_string()));
    let t = check_tool("curl", None, Some(("curl 8.4.0", "warning 9.9.9")));
    assert_eq!(t.path, None);
    assert_eq!(t.version, Some("8.4.0".to_string()));
    let t = check_tool("pfctl", Some("/sbin/pfctl"), None);
    assert_eq!(t.version, None);
}

#[test]
fn os_is_described() {
    let release = "NAME=\"Ubuntu\"\nPRETTY_NAME=\"Ubuntu 24.04 LTS\"\nPRETTY_NAME=other\n";
    assert_eq!(linux_distro_name(release), Some("Ubuntu 24.04 LTS".to_string()));
    assert_eq!(linux_distro_name("PRETTY_NAME=\"\"Arch\n"), Some("Arch".to_string()));
    assert_eq!(linux_distro_name("PRETTY_NAME="), Some(String::new()));
    assert_eq!(linux_distro_name(" PRETTY_NAME=x\nID=arch\n"), None);
    assert_eq!(linux_distro_name(""), None);
    assert_eq!(get_os_info(Platform::Linux, Some("Ubuntu 24.04 LTS"), Some("6.8.0")), "Ubuntu 24.04 LTS (kernel 6.8.0)");
    assert_eq!(get_os_info(Platform::Linux, None, Some("6.8.0")), "Linux (kernel 6.8.0)");
    assert_eq!(get_os_info(Platform::Linux, None, None), "Linux");
    assert_eq!(get_os_info(Platform::Linux, Some("Arch"), Some("")), "Arch");
    assert_eq!(get_os_info(Platform::MacOs, Some("14.2"), Some("23.2.0")), "macOS 14.2 (Darwin 23.2.0)");
    assert_eq!(get_os_info(Platform::MacOs, None, Some("23.2.0")), "macOS (Darwin 23.2.0)");
    assert_eq!(get_os_info(Platform::MacOs, Some(""), None), "macOS (Darwin )");
}

#[test]
fn choices_are_read() {
    assert_eq!(parse_choice(" O\n", false), ReportChoice::Open);
    assert_eq!(parse_choice("o", true), ReportChoice::Invalid);
    assert_eq!(parse_choice("c", true), ReportChoice::Copy);
    assert_eq!(parse_choice("P", false), ReportChoice::Print);
    assert_eq!(parse_choice("q\r\n", false), ReportChoice::Cancel);
    assert_eq!(parse_choice("", false), ReportChoice::Invalid);
    assert_eq!(parse_choice("qq", false), ReportChoice::Invalid);
    assert_eq!(choice_of_lower(&['Q'], false), ReportChoice::Invalid);
    assert_eq!(choice_of_lower(&['q'], false), ReportChoice::Cancel);
}

#[test]
fn profile_files_are_counted() {
    let files: Vec<String> = ["a.conf", "b.ovpn", "c.conf", "d.txt", "conf", "e.CONF", "dir/f.ovpn", ".conf"]
        .iter()
        .map(|s| s.to_string())
        .collect();
    assert_eq!(count_profiles(&files), (2, 2));
    assert_eq!(count_profiles(&vec![]), (0, 0));
}
