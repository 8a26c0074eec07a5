use vortix::ui::{
    dashboard_hints, highlight_config_line, highlight_with, mask_sensitive_value, mask_value_for,
    menu_size, visible_hints, Hint, MenuItem, StyledSpan, Tone,
};

fn span(text: &str, tone: Tone) -> StyledSpan {
    StyledSpan { text: text.to_string(), tone }
}

#[test]
fn sensitive_values_are_masked() {
    assert_eq!(mask_sensitive_value("PrivateKey", "abcdefghijklmnopqrstuvwxyz"), "abcd...wxyz (masked)");
    assert_eq!(mask_sensitive_value("PresharedKey", "1234567890123"), "1234...0123 (masked)");
    assert_eq!(mask_sensitive_value("password", "123456789012"), "••••••••••••");
    assert_eq!(mask_sensitive_value("my-SECRET-key", ""), "••••••••••••");
    assert_eq!(mask_sensitive_value("PublicKey", "abcdefghijklmnopqrstuvwxyz"), "abcdefghijklmnopqrstuvwxyz");
    assert_eq!(mask_sensitive_value("", "x"), "x");
    // characters count, not bytes
    assert_eq!(mask_sensitive_value("secret", "ääääääääääää"), "••••••••••••");
    assert_eq!(mask_sensitive_value("secret", "äbcdefghijklö"), "äbcd...jklö (masked)");
    let cs = |s: &str| s.chars().collect::<Vec<char>>();
    // the key is taken as given: it has to be in lower case already
    assert_eq!(mask_value_for(&cs("PrivateKey"), &cs("abcdefghijklmnopqrstuvwxyz")), "abcdefghijklmnopqrstuvwxyz");
    assert_eq!(mask_value_for(&cs("privatekey"), &cs("abcdefghijklmnopqrstuvwxyz")), "abcd...wxyz (masked)");
}

#[test]
fn config_lines_are_highlighted() {
    assert_eq!(highlight_config_line("  # note = x"), vec![span("  # note = x", Tone::Comment)]);
    assert_eq!(highlight_config_line("; note"), vec![span("; note", Tone::Comment)]);
    assert_eq!(highlight_config_line(" [Interface] "), vec![span(" [Interface] ", Tone::Section)]);
    assert_eq!(highlight_config_line("[a=b]"), vec![span("[a=b]", Tone::Section)]);
    assert_eq!(
        highlight_config_line("Address = 10.0.0.2/32 "),
        vec![span("Address ", Tone::Keyword), span("=", Tone::Separator), span("10.0.0.2/32", Tone::Text)]
    );
    assert_eq!(
        highlight_config_line(" PrivateKey=abcdefghijklmnopqrstuvwxyz="),
        vec![
            span(" PrivateKey", Tone::Keyword),
            span("=", Tone::Separator),
            span("abcd...xyz= (masked)", Tone::Text)
        ]
    );
    assert_eq!(
        highlight_config_line("="),
        vec![span("", Tone::Keyword), span("=", Tone::Separator), span("", Tone::Text)]
    );
    assert_eq!(
        highlight_config_line("  Remote vpn.example.com 1194 "),
        vec![span("Remote", Tone::Keyword), span(" ", Tone::Gap), span("vpn.example.com 1194", Tone::Text)]
    );
    assert_eq!(highlight_config_line(" NoBind "), vec![span(" NoBind ", Tone::Keyword)]);
    assert_eq!(highlight_config_line("remote-random"), vec![span("remote-random", Tone::Text)]);
    assert_eq!(highlight_config_line("dev\ttun"), vec![span("dev\ttun", Tone::Text)]);
    assert_eq!(highlight_config_line(""), vec![span("", Tone::Text)]);
    assert_eq!(highlight_config_line("   "), vec![span("   ", Tone::Text)]);
    assert_eq!(highlight_config_line("["), vec![span("[", Tone::Text)]);
    assert_eq!(highlight_config_line("]"), vec![span("]", Tone::Text)]);
    let cs = |s: &str| s.chars().collect::<Vec<char>>();
    assert_eq!(
        highlight_with(&cs("Verb 3"), &cs(""), &cs("Verb")),
        vec![span("Verb 3", Tone::Text)]
    );
    assert_eq!(
        highlight_with(&cs("Verb 3"), &cs(""), &cs("verb")),
        vec![span("Verb", Tone::Keyword), span(" ", Tone::Gap), span("3", Tone::Text)]
    );
}

#[test]
fn footer_hints() {
    let pairs = |h: Vec<Hint>| h.iter().map(|x| (x.key, x.action)).collect::<Vec<_>>();
    assert_eq!(
        pairs(dashboard_hints(true, true)),
        vec![("↑↓", "Scroll"), ("g", "Top"), ("G", "End"), ("Esc", "Close")]
    );
    assert_eq!(
        pairs(dashboard_hints(false, true)),
        vec![
            ("1-9", "Select"),
            ("d", "Disconnect"),
            ("Tab", "Switch"),
            ("K", "Kill Switch"),
            ("x", "Actions"),
            ("b", "Bulk"),
            ("q", "Quit")
        ]
    );
    assert_eq!(pairs(dashboard_hints(false, false)).len(), 6);
    assert_eq!(pairs(dashboard_hints(false, false))[0], ("d", "Disconnect"));
}

#[test]
fn hints_are_shown_while_they_fit() {
    let hints = dashboard_hints(false, true);
    // widths: 1 | 3+1+6=10 | 3+1+1+10=15 | 3+3+1+6=13 | 3+1+1+11=16 | 3+1+1+7=12 | 3+1+1+4=9 | 3+1+1+4=9
    assert_eq!(visible_hints(&hints, 0), 0);
    assert_eq!(visible_hints(&hints, 10), 0);
    assert_eq!(visible_hints(&hints, 11), 1);
    assert_eq!(visible_hints(&hints, 25), 1);
    assert_eq!(visible_hints(&hints, 26), 2);
    assert_eq!(visible_hints(&hints, 39), 3);
    assert_eq!(visible_hints(&hints, 55), 4);
    assert_eq!(visible_hints(&hints, 67), 5);
    assert_eq!(visible_hints(&hints, 76), 6);
    assert_eq!(visible_hints(&hints, 84), 6);
    assert_eq!(visible_hints(&hints, 85), 7);
    assert_eq!(visible_hints(&hints, u16::MAX), 7);
    // texts are measured in bytes: the arrows take six
    let viewer = dashboard_hints(true, false);
    assert_eq!(visible_hints(&viewer, 13), 0);
    assert_eq!(visible_hints(&viewer, 14), 1);
    assert_eq!(visible_hints(&vec![], 80), 0);
}

#[test]
fn menu_sizes() {
    let item = |k: &str, l: &str| MenuItem { key: k.to_string(), label: l.to_string() };
    assert_eq!(menu_size(&vec![]), (29, 3));
    assert_eq!(menu_size(&vec![item("c", "Connect")]), (16, 3));
    assert_eq!(menu_size(&vec![item("c", "Connect"), item("del", "Remove profile")]), (25, 4));
    assert_eq!(menu_size(&vec![item("c", &"x".repeat(51))]), (60, 3));
    assert_eq!(menu_size(&vec![item("c", &"x".repeat(50))]), (59, 3));
    assert_eq!(menu_size(&vec![item(&"k".repeat(500), "")]), (60, 3));
    let many: Vec<MenuItem> = (0..13).map(|_| item("a", "b")).collect();
    assert_eq!(menu_size(&many), (10, 15));
    let many: Vec<MenuItem> = (0..12).map(|_| item("a", "b")).collect();
    assert_eq!(menu_size(&many), (10, 14));
    let many: Vec<MenuItem> = (0..40).map(|_| item("a", "b")).collect();
    assert_eq!(menu_size(&many), (10, 15));
}
