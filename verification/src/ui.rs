//! What the screens show, worked out apart from the drawing.
//!
//! Nothing here draws. The functions decide how a line of a configuration is
//! to be coloured, which hints fit into the footer, and how large a menu has
//! to be; the caller hands the results to the terminal library.

use vstd::prelude::*;
use vstd::slice::slice_subrange;
use vstd::string::{StringExecFns, StringSliceAdditionalSpecFns};

use crate::text::{
    after_char, before_char, chars_of, contains, has, holds_char, lowercase, lowercase_of,
    position_of, same_text, string_of, trim, trimmed, utf8_len,
};

verus! {

/// What is shown in place of a short secret.
pub open spec fn bullets() -> Seq<char> {
    "••••••••••••"@
}

/// Whether a lower-case key names a secret: it holds `privatekey`,
/// `presharedkey`, `password` or `secret`.
pub open spec fn is_sensitive_key(key_lower: Seq<char>) -> bool {
    ||| contains(key_lower, "privatekey"@)
    ||| contains(key_lower, "presharedkey"@)
    ||| contains(key_lower, "password"@)
    ||| contains(key_lower, "secret"@)
}

/// A value as it is shown for a lower-case key.
///
/// The value of a sensitive key is masked: of more than twelve characters
/// the first four and the last four are kept around an ellipsis, anything
/// shorter is replaced by bullets. Other values are shown as they are.
pub open spec fn masked_value(key_lower: Seq<char>, value: Seq<char>) -> Seq<char> {
    if !is_sensitive_key(key_lower) {
        value
    } else if value.len() > 12 {
        value.subrange(0, 4) + "..."@ + value.subrange(value.len() - 4, value.len() as int)
            + " (masked)"@
    } else {
        bullets()
    }
}

fn key_has(key_lower: &[char], word: &str) -> (b: bool)
    ensures
        b == contains(key_lower@, word@),
{
    let w = chars_of(word);
    has(key_lower, w.as_slice())
}

/// Mask a value for a key that is given in lower case; see `masked_value`.
pub fn mask_value_for(key_lower: &[char], value: &[char]) -> (r: String)
    ensures
        r@ == masked_value(key_lower@, value@),
{
    let sensitive = key_has(key_lower, "privatekey") || key_has(key_lower, "presharedkey")
        || key_has(key_lower, "password") || key_has(key_lower, "secret");
    if !sensitive {
        string_of(value)
    } else if value.len() > 12 {
        let mut out = string_of(slice_subrange(value, 0, 4));
        out.append("...");
        let tail = string_of(slice_subrange(value, value.len() - 4, value.len()));
        out.append(tail.as_str());
        out.append(" (masked)");
        out
    } else {
        String::from_str("••••••••••••")
    }
}

/// Mask sensitive values such as private keys. Case of the key does not
/// matter.
pub fn mask_sensitive_value(key: &str, value: &str) -> (r: String)
    ensures
        r@ == masked_value(lowercase_of(key@), value@),
{
    let key_chars = chars_of(key);
    let key_lower = lowercase(key_chars.as_slice());
    let value_chars = chars_of(value);
    mask_value_for(key_lower.as_slice(), value_chars.as_slice())
}

/// How a piece of a configuration line is to be shown.
#[derive(Debug, Clone, Copy, PartialEq, Eq, Structural)]
pub enum Tone {
    /// A comment.
    Comment,
    /// A section header.
    Section,
    /// The key of a `key = value` line, or a directive.
    Keyword,
    /// The `=` between key and value.
    Separator,
    /// A value, or a line that is nothing in particular.
    Text,
    /// The space between a directive and its arguments.
    Gap,
}

/// A piece of a line with the tone it is shown in.
#[derive(Debug, Clone, PartialEq)]
pub struct StyledSpan {
    /// The text of the piece.
    pub text: String,
    /// The tone it is shown in.
    pub tone: Tone,
}

/// The model of a styled line: texts with their tones.
pub open spec fn spans_of(spans: Seq<StyledSpan>) -> Seq<(Seq<char>, Tone)> {
    spans.map_values(|span: StyledSpan| (span.text@, span.tone))
}

/// The directives that are shown as keywords.
pub open spec fn known_directives() -> Seq<Seq<char>> {
    seq![
        "client"@,
        "dev"@,
        "proto"@,
        "remote"@,
        "resolv-retry"@,
        "nobind"@,
        "persist-key"@,
        "persist-tun"@,
        "ca"@,
        "cert"@,
        "key"@,
        "cipher"@,
        "auth"@,
        "verb"@,
        "tls-client"@,
        "remote-cert-tls"@,
        "auth-user-pass"@,
        "comp-lzo"@,
        "route"@,
        "redirect-gateway"@,
        "dhcp-option"@,
    ]
}

/// Whether a lower-case word is a known directive.
pub open spec fn is_known_directive(word_lower: Seq<char>) -> bool {
    exists|k: int|
        0 <= k < known_directives().len() && word_lower == #[trigger] known_directives()[k]
}

/// The key of a `key = value` line: what stands before the first `=`,
/// trimmed.
pub open spec fn key_part(line: Seq<char>) -> Seq<char> {
    trimmed(before_char(line, '='))
}

/// The first word of a line: the trimmed line up to its first space.
pub open spec fn directive_part(line: Seq<char>) -> Seq<char> {
    before_char(trimmed(line), ' ')
}

/// A line of a configuration as it is shown, given the lower-case forms of
/// its key and of its first word.
///
/// Comments begin with `#` or `;`. Section headers stand in square brackets.
/// A line with `=` is shown as key, separator and value, the value masked
/// where the key names a secret. A line whose first word is a known directive
/// is shown as directive, gap and arguments. Any other line is plain text.
pub open spec fn highlighted(line: Seq<char>, key_lower: Seq<char>, directive_lower: Seq<char>)
    -> Seq<(Seq<char>, Tone)> {
    let t = trimmed(line);
    if t.len() > 0 && (t[0] == '#' || t[0] == ';') {
        seq![(line, Tone::Comment)]
    } else if t.len() > 0 && t[0] == '[' && t.last() == ']' {
        seq![(line, Tone::Section)]
    } else if holds_char(line, '=') {
        seq![
            (before_char(line, '='), Tone::Keyword),
            ("="@, Tone::Separator),
            (masked_value(key_lower, trimmed(after_char(line, '='))), Tone::Text),
        ]
    } else if t.len() > 0 && is_known_directive(directive_lower) {
        if holds_char(t, ' ') {
            seq![
                (before_char(t, ' '), Tone::Keyword),
                (" "@, Tone::Gap),
                (after_char(t, ' '), Tone::Text),
            ]
        } else {
            seq![(line, Tone::Keyword)]
        }
    } else {
        seq![(line, Tone::Text)]
    }
}

fn directive_entry(k: usize) -> (r: &'static str)
    requires
        k < 21,
    ensures
        known_directives().len() == 21,
        r@ == known_directives()[k as int],
{
    match k {
        0 => "client",
        1 => "dev",
        2 => "proto",
        3 => "remote",
        4 => "resolv-retry",
        5 => "nobind",
        6 => "persist-key",
        7 => "persist-tun",
        8 => "ca",
        9 => "cert",
        10 => "key",
        11 => "cipher",
        12 => "auth",
        13 => "verb",
        14 => "tls-client",
        15 => "remote-cert-tls",
        16 => "auth-user-pass",
        17 => "comp-lzo",
        18 => "route",
        19 => "redirect-gateway",
        _ => "dhcp-option",
    }
}

fn directive_is_known(word_lower: &[char]) -> (b: bool)
    ensures
        b == is_known_directive(word_lower@),
{
    let mut k: usize = 0;
    while k < 21
        invariant
            k <= 21,
            known_directives().len() == 21,
            forall|j: int| 0 <= j < k ==> word_lower@ != #[trigger] known_directives()[j],
        decreases 21 - k,
    {
        let entry = chars_of(directive_entry(k));
        if same_text(word_lower, entry.as_slice()) {
            return true;
        }
        k += 1;
    }
    false
}

fn one_span(text: &[char], tone: Tone) -> (r: Vec<StyledSpan>)
    ensures
        spans_of(r@) == seq![(text@, tone)],
{
    let mut spans: Vec<StyledSpan> = Vec::new();
    spans.push(StyledSpan { text: string_of(text), tone });
    assert(spans_of(spans@) =~= seq![(text@, tone)]);
    spans
}

fn three_spans(a: String, ta: Tone, b: String, tb: Tone, c: String, tc: Tone) -> (r: Vec<
    StyledSpan,
>)
    ensures
        spans_of(r@) == seq![(a@, ta), (b@, tb), (c@, tc)],
{
    let mut spans: Vec<StyledSpan> = Vec::new();
    spans.push(StyledSpan { text: a, tone: ta });
    spans.push(StyledSpan { text: b, tone: tb });
    spans.push(StyledSpan { text: c, tone: tc });
    assert(spans_of(spans@) =~= seq![(a@, ta), (b@, tb), (c@, tc)]);
    spans
}

/// Colour a line, given the lower-case forms of its key and of its first
/// word; see `highlighted`.
pub fn highlight_with(line: &[char], key_lower: &[char], directive_lower: &[char]) -> (r: Vec<
    StyledSpan,
>)
    ensures
        spans_of(r@) == highlighted(line@, key_lower@, directive_lower@),
{
    let t = trim(line);
    if t.len() > 0 && (t[0] == '#' || t[0] == ';') {
        return one_span(line, Tone::Comment);
    }
    if t.len() > 0 && t[0] == '[' && t[t.len() - 1] == ']' {
        return one_span(line, Tone::Section);
    }
    let eq = position_of(line, '=');
    if eq < line.len() {
        let key = string_of(slice_subrange(line, 0, eq));
        let value = trim(slice_subrange(line, eq + 1, line.len()));
        let masked = mask_value_for(key_lower, value);
        return three_spans(
            key,
            Tone::Keyword,
            String::from_str("="),
            Tone::Separator,
            masked,
            Tone::Text,
        );
    }
    if t.len() > 0 && directive_is_known(directive_lower) {
        let space = position_of(t, ' ');
        if space < t.len() {
            return three_spans(
                string_of(slice_subrange(t, 0, space)),
                Tone::Keyword,
                String::from_str(" "),
                Tone::Gap,
                string_of(slice_subrange(t, space + 1, t.len())),
                Tone::Text,
            );
        }
        return one_span(line, Tone::Keyword);
    }
    one_span(line, Tone::Text)
}

/// Colour a line of a configuration for the viewer. Case of keys and
/// directives does not matter.
pub fn highlight_config_line(line: &str) -> (r: Vec<StyledSpan>)
    ensures
        spans_of(r@) == highlighted(
            line@,
            lowercase_of(key_part(line@)),
            lowercase_of(directive_part(line@)),
        ),
{
    let chars = chars_of(line);
    let whole = chars.as_slice();
    let eq = position_of(whole, '=');
    let key_lower = lowercase(trim(slice_subrange(whole, 0, eq)));
    let t = trim(whole);
    let space = position_of(t, ' ');
    let directive_lower = lowercase(slice_subrange(t, 0, space));
    highlight_with(whole, key_lower.as_slice(), directive_lower.as_slice())
}

/// A key and what it does, as shown in the footer.
#[derive(Debug, Clone, Copy, PartialEq, Eq)]
pub struct Hint {
    /// The key to press.
    pub key: &'static str,
    /// What pressing it does.
    pub action: &'static str,
}

/// The model of a list of hints.
pub open spec fn hints_of(hints: Seq<Hint>) -> Seq<(Seq<char>, Seq<char>)> {
    hints.map_values(|hint: Hint| (hint.key@, hint.action@))
}

/// The hints of the dashboard.
///
/// While a configuration is shown, the hints are those of the viewer.
/// Otherwise they are the global ones, led by the selection hint if there
/// are profiles to select.
pub open spec fn dashboard_hints_for(show_config: bool, has_profiles: bool) -> Seq<
    (Seq<char>, Seq<char>),
> {
    if show_config {
        seq![("↑↓"@, "Scroll"@), ("g"@, "Top"@), ("G"@, "End"@), ("Esc"@, "Close"@)]
    } else {
        (if has_profiles {
            seq![("1-9"@, "Select"@)]
        } else {
            Seq::<(Seq<char>, Seq<char>)>::empty()
        }) + seq![
            ("d"@, "Disconnect"@),
            ("Tab"@, "Switch"@),
            ("K"@, "Kill Switch"@),
            ("x"@, "Actions"@),
            ("b"@, "Bulk"@),
            ("q"@, "Quit"@),
        ]
    }
}

/// The hints of the dashboard footer, by what is on screen.
pub fn dashboard_hints(show_config: bool, has_profiles: bool) -> (r: Vec<Hint>)
    ensures
        hints_of(r@) == dashboard_hints_for(show_config, has_profiles),
{
    let mut hints: Vec<Hint> = Vec::new();
    if show_config {
        hints.push(Hint { key: "↑↓", action: "Scroll" });
        hints.push(Hint { key: "g", action: "Top" });
        hints.push(Hint { key: "G", action: "End" });
        hints.push(Hint { key: "Esc", action: "Close" });
    } else {
        if has_profiles {
            hints.push(Hint { key: "1-9", action: "Select" });
        }
        hints.push(Hint { key: "d", action: "Disconnect" });
        hints.push(Hint { key: "Tab", action: "Switch" });
        hints.push(Hint { key: "K", action: "Kill Switch" });
        hints.push(Hint { key: "x", action: "Actions" });
        hints.push(Hint { key: "b", action: "Bulk" });
        hints.push(Hint { key: "q", action: "Quit" });
    }
    assert(hints_of(hints@) =~= dashboard_hints_for(show_config, has_profiles));
    hints
}

/// The room hint `i` takes: key, a space, action, and three more for the
/// separator before every hint but the first. Texts are measured in bytes.
pub open spec fn hint_width(hint: (Seq<char>, Seq<char>), i: int) -> nat {
    utf8_len(hint.0) + 1 + utf8_len(hint.1) + if i > 0 {
        3nat
    } else {
        0nat
    }
}

/// How many hints are shown if the hints before `i` are and take `used`
/// columns together: hints are added in order until one does not fit.
pub open spec fn hints_shown(hints: Seq<(Seq<char>, Seq<char>)>, max_width: nat, i: int, used: nat)
    -> int
    decreases hints.len() - i,
{
    if i < 0 || i >= hints.len() {
        i
    } else if used + hint_width(hints[i], i) > max_width {
        i
    } else {
        hints_shown(hints, max_width, i + 1, used + hint_width(hints[i], i))
    }
}

/// How many of the hints fit into a footer of `max_width` columns. One
/// column is taken by the margin.
pub fn visible_hints(hints: &Vec<Hint>, max_width: u16) -> (n: usize)
    ensures
        n == hints_shown(hints_of(hints@), max_width as nat, 0, 1),
        n <= hints@.len(),
{
    let limit: usize = max_width as usize;
    let mut used: usize = 1;
    let mut i: usize = 0;
    if limit < 1 {
        return 0;
    }
    while i < hints.len()
        invariant
            i <= hints.len(),
            used <= limit,
            limit == max_width,
            hints_shown(hints_of(hints@), max_width as nat, 0, 1) == hints_shown(
                hints_of(hints@),
                max_width as nat,
                i as int,
                used as nat,
            ),
        decreases hints.len() - i,
    {
        assert(hints_of(hints@)[i as int] == (hints@[i as int].key@, hints@[i as int].action@));
        let key_len = hints[i].key.as_bytes().len();
        let action_len = hints[i].action.as_bytes().len();
        if key_len > limit || action_len > limit {
            return i;
        }
        let item = key_len + 1 + action_len + if i > 0 {
            3
        } else {
            0
        };
        if used + item > limit {
            return i;
        }
        used = used + item;
        i += 1;
    }
    i
}

/// An entry of the action menu.
#[derive(Debug, Clone, PartialEq, Eq)]
pub struct MenuItem {
    /// The key that triggers the action.
    pub key: String,
    /// What the action is called.
    pub label: String,
}

/// The longest key among the first `upto` items, in bytes.
pub open spec fn longest_key(items: Seq<MenuItem>, upto: int) -> nat
    decreases upto,
{
    if upto <= 0 {
        0
    } else if utf8_len(items[upto - 1].key@) > longest_key(items, upto - 1) {
        utf8_len(items[upto - 1].key@)
    } else {
        longest_key(items, upto - 1)
    }
}

/// The longest label among the first `upto` items, in bytes.
pub open spec fn longest_label(items: Seq<MenuItem>, upto: int) -> nat
    decreases upto,
{
    if upto <= 0 {
        0
    } else if utf8_len(items[upto - 1].label@) > longest_label(items, upto - 1) {
        utf8_len(items[upto - 1].label@)
    } else {
        longest_label(items, upto - 1)
    }
}

/// The smaller of two numbers.
pub open spec fn at_most(n: nat, cap: nat) -> nat {
    if n > cap {
        cap
    } else {
        n
    }
}

/// Width and height of the action menu.
///
/// The width is the longest key plus the longest label plus eight, at most
/// sixty; an empty menu counts a key of one and a label of twenty. The
/// height is one row per item, at least one, plus two for the border, at
/// most fifteen.
pub open spec fn menu_size_for(items: Seq<MenuItem>) -> (u16, u16) {
    let n = items.len() as int;
    let key = if n == 0 {
        1
    } else {
        longest_key(items, n)
    };
    let label = if n == 0 {
        20
    } else {
        longest_label(items, n)
    };
    let rows = if n == 0 {
        1
    } else {
        n
    };
    (at_most(key + label + 8, 60) as u16, at_most((rows + 2) as nat, 15) as u16)
}

/// Work out the size of the action menu from its items.
pub fn menu_size(items: &Vec<MenuItem>) -> (r: (u16, u16))
    ensures
        r == menu_size_for(items@),
{
    let n = items.len();
    if n == 0 {
        return (29, 3);
    }
    let mut key: usize = 0;
    let mut label: usize = 0;
    let mut i: usize = 0;
    while i < n
        invariant
            i <= n,
            n == items@.len(),
            key == at_most(longest_key(items@, i as int), 60),
            label == at_most(longest_label(items@, i as int), 60),
        decreases n - i,
    {
        let k = items[i].key.as_str().as_bytes().len();
        let l = items[i].label.as_str().as_bytes().len();
        if k > key {
            key = if k > 60 {
                60
            } else {
                k
            };
        }
        if l > label {
            label = if l > 60 {
                60
            } else {
                l
            };
        }
        i += 1;
    }
    let width = if key + label + 8 > 60 {
        60
    } else {
        key + label + 8
    };
    let height = if n >= 13 {
        15
    } else {
        n + 2
    };
    (width as u16, height as u16)
}

} // verus!
