//! The bug report: reading tool versions and laying out the issue text.
//!
//! Only data that identifies nobody goes into a report. Collecting it, and
//! opening the browser or the clipboard, is done by the caller.

use vstd::prelude::*;
use vstd::slice::slice_subrange;
use vstd::string::{StrSliceExecFns, StringExecFns, StringSliceAdditionalSpecFns};
use vstd::utf8::{encode_utf8, is_ascii_chars, is_ascii_chars_concat, is_ascii_chars_encode_utf8};

use crate::engine::PersistedRecord;
use crate::text::{
    begins_with, chars_of, contains, decimal, has, is_ascii_alphanumeric, is_ascii_digit, lines,
    padded, position_of, push_decimal, push_padded, split_lines, split_words, starts_with,
    string_of, text_of, trim, trimmed, unquote, unquoted, utf8_len, views, words,
};

verus! {

/// Where the project lives.
pub const GITHUB_REPO_URL: &'static str = "https://github.com/Harry-kp/vortix";

/// Status of a tool the application depends on at run time.
#[derive(Debug, Clone)]
pub struct ToolStatus {
    /// Name of the tool.
    pub name: String,
    /// Where it was found, if it was.
    pub path: Option<String>,
    /// Its version, if it told one.
    pub version: Option<String>,
}

/// All diagnostic data of a report.
#[derive(Debug)]
pub struct ReportInfo {
    /// Version of the application.
    pub version: String,
    /// How the application was installed.
    pub install_method: String,
    /// Operating system and kernel.
    pub os_info: String,
    /// Processor architecture.
    pub arch: String,
    /// Terminal type.
    pub terminal: String,
    /// Terminal size, columns by rows.
    pub terminal_size: String,
    /// Login shell.
    pub shell: String,
    /// Whether the application runs as root.
    pub is_root: bool,
    /// The tools and what was found of them.
    pub tools: Vec<ToolStatus>,
    /// Configuration directory.
    pub config_dir: String,
    /// Where the configuration directory was taken from.
    pub config_source: String,
    /// Whether a configuration file was found.
    pub config_toml_status: String,
    /// Number of WireGuard and of OpenVPN profiles.
    pub profile_counts: (u32, u32),
    /// Mode and state of the kill switch.
    pub killswitch_state: String,
}

/// How far a version runs from `from` on: over dots, ASCII letters and
/// digits.
pub open spec fn version_end(t: Seq<char>, from: int) -> int
    decreases t.len() - from,
{
    if 0 <= from < t.len() && (t[from] == '.' || is_ascii_alphanumeric(t[from])) {
        version_end(t, from + 1)
    } else {
        from
    }
}

/// A word without the `v` it begins with, if it does.
pub open spec fn without_v(word: Seq<char>) -> Seq<char> {
    if word.len() > 0 && word[0] == 'v' {
        word.subrange(1, word.len() as int)
    } else {
        word
    }
}

/// The version a word holds.
///
/// The word, a leading `v` left off, must begin with a digit and hold a dot.
/// The version is its beginning up to the first character that is neither a
/// dot nor an ASCII letter or digit.
pub open spec fn version_of_word(word: Seq<char>) -> Option<Seq<char>> {
    let t = without_v(word);
    if t.len() > 0 && is_ascii_digit(t[0]) && t.contains('.') {
        Some(t.subrange(0, version_end(t, 0)))
    } else {
        None
    }
}

/// The version of the first word at or after `from` that holds one.
pub open spec fn first_version(tokens: Seq<Seq<char>>, from: int) -> Option<Seq<char>>
    decreases tokens.len() - from,
{
    if from < 0 || from >= tokens.len() {
        None
    } else if version_of_word(tokens[from]) is Some {
        version_of_word(tokens[from])
    } else {
        first_version(tokens, from + 1)
    }
}

/// The version that the output of a tool states: that of the first word of
/// its first line that holds one.
pub open spec fn version_in(raw: Seq<char>) -> Option<Seq<char>> {
    if lines(raw).len() == 0 {
        None
    } else {
        first_version(words(trimmed(lines(raw)[0])), 0)
    }
}

proof fn lemma_version_end(t: Seq<char>, from: int)
    requires
        0 <= from <= t.len(),
    ensures
        from <= version_end(t, from) <= t.len(),
    decreases t.len() - from,
{
    if from < t.len() && (t[from] == '.' || is_ascii_alphanumeric(t[from])) {
        lemma_version_end(t, from + 1);
    }
}

/// The version a word holds, if it holds one.
pub fn parse_version_word(word: &[char]) -> (r: Option<String>)
    ensures
        r is Some <==> version_of_word(word@) is Some,
        r matches Some(v) ==> v@ == version_of_word(word@)->0,
{
    let t = if word.len() > 0 && word[0] == 'v' {
        slice_subrange(word, 1, word.len())
    } else {
        word
    };
    if t.len() == 0 || !(t[0] >= '0' && t[0] <= '9') {
        return None;
    }
    let dot = position_of(t, '.');
    if dot >= t.len() {
        assert(!t@.contains('.'));
        return None;
    }
    assert(t@.contains('.'));
    let mut end: usize = 0;
    while end < t.len() && (t[end] == '.' || (t[end] >= '0' && t[end] <= '9') || (t[end] >= 'a'
        && t[end] <= 'z') || (t[end] >= 'A' && t[end] <= 'Z'))
        invariant
            end <= t.len(),
            version_end(t@, 0) == version_end(t@, end as int),
        decreases t.len() - end,
    {
        end += 1;
    }
    Some(string_of(slice_subrange(t, 0, end)))
}

/// Extract the first version from the output of a tool.
///
/// Reads the first line only. Handles `curl 8.4.0 (...)`, `OpenVPN 2.6.8`,
/// `wireguard-tools v1.0.20210914` and the like; usage texts and error
/// messages hold no version.
pub fn parse_version_line(raw: &str) -> (r: Option<String>)
    ensures
        r is Some <==> version_in(raw@) is Some,
        r matches Some(v) ==> v@ == version_in(raw@)->0,
{
    let chars = chars_of(raw);
    let rows = split_lines(chars.as_slice());
    if rows.len() == 0 {
        assert(views(rows@).len() == 0);
        return None;
    }
    assert(views(rows@)[0] == rows@[0]@);
    let first_line = trim(rows[0]);
    let tokens = split_words(first_line);
    let mut i: usize = 0;
    while i < tokens.len()
        invariant
            i <= tokens.len(),
            views(tokens@) == words(trimmed(lines(raw@)[0])),
            lines(raw@).len() > 0,
            version_in(raw@) == first_version(views(tokens@), i as int),
        decreases tokens.len() - i,
    {
        assert(views(tokens@)[i as int] == tokens@[i as int]@);
        match parse_version_word(tokens[i]) {
            Some(v) => {
                return Some(v);
            },
            None => {},
        }
        i += 1;
    }
    assert(tokens@.len() == views(tokens@).len());
    None
}

/// How the application was installed, judged by where its executable lies.
pub open spec fn install_method_of(exe: Option<Seq<char>>) -> Seq<char> {
    match exe {
        None => "unknown"@,
        Some(path) => if contains(path, "/.cargo/bin/"@) {
            "cargo install"@
        } else if contains(path, "/opt/homebrew/"@) || contains(path, "/usr/local/Cellar/"@) {
            "homebrew"@
        } else if contains(path, "/nix/store/"@) {
            "nix"@
        } else if contains(path, "/usr/bin/"@) || contains(path, "/usr/local/bin/"@) {
            "system package"@
        } else if contains(path, "/target/debug/"@) || contains(path, "/target/release/"@) {
            "built from source"@
        } else {
            "binary"@
        },
    }
}

fn path_has(path: &[char], part: &str) -> (b: bool)
    ensures
        b == contains(path@, part@),
{
    let p = chars_of(part);
    has(path, p.as_slice())
}

/// Tell how the application was installed from the path of its executable;
/// `None` stands for a path that could not be found out.
pub fn detect_install_method(exe: Option<&str>) -> (r: String)
    ensures
        r@ == install_method_of(
            match exe {
                Some(p) => Some(p@),
                None => None,
            },
        ),
{
    let exe = match exe {
        Some(p) => chars_of(p),
        None => {
            return String::from_str("unknown");
        },
    };
    let path = exe.as_slice();
    if path_has(path, "/.cargo/bin/") {
        String::from_str("cargo install")
    } else if path_has(path, "/opt/homebrew/") || path_has(path, "/usr/local/Cellar/") {
        String::from_str("homebrew")
    } else if path_has(path, "/nix/store/") {
        String::from_str("nix")
    } else if path_has(path, "/usr/bin/") || path_has(path, "/usr/local/bin/") {
        String::from_str("system package")
    } else if path_has(path, "/target/debug/") || path_has(path, "/target/release/") {
        String::from_str("built from source")
    } else {
        String::from_str("binary")
    }
}

/// What a report says of a tool: its path, with the version in brackets if
/// one is known, or that it was not found.
pub open spec fn tool_status(path: Option<Seq<char>>, version: Option<Seq<char>>) -> Seq<char> {
    match (path, version) {
        (Some(p), Some(v)) => p + " ("@ + v + ")"@,
        (Some(p), None) => p,
        _ => "not found"@,
    }
}

/// The line of a report for one tool: the name in a column of twelve
/// characters, a space, and the status.
pub open spec fn tool_line(tool: ToolStatus) -> Seq<char> {
    padded(tool.name@, 12) + " "@ + tool_status(text_of(tool.path), text_of(tool.version))
        + "\n"@
}

/// The lines of a report for the first `upto` tools.
pub open spec fn tool_lines(tools: Seq<ToolStatus>, upto: int) -> Seq<char>
    decreases upto,
{
    if upto <= 0 {
        Seq::<char>::empty()
    } else {
        tool_lines(tools, upto - 1) + tool_line(tools[upto - 1])
    }
}

/// The section of an issue that describes the bug.
pub open spec fn description_section(description: Seq<char>) -> Seq<char> {
    if description.len() == 0 {
        "## Bug Description\n\n"@ + "<!-- Describe what happened and what you expected -->\n\n"@
    } else {
        "## Bug Description\n\n"@ + description + "\n\n"@
    }
}

/// The section of an issue that asks for the steps.
pub open spec fn steps_section() -> Seq<char> {
    "## Steps to Reproduce\n\n<!-- How can we reproduce this? -->\n\n1. \n2. \n3. \n\n"@
}

/// The section of an issue that describes the environment.
pub open spec fn environment_section(info: ReportInfo) -> Seq<char> {
    "## Environment\n\n```\nVortix:       "@ + info.version@ + " ("@ + info.install_method@
        + ")\nOS:           "@ + info.os_info@ + " ("@ + info.arch@ + ")\nTerminal:     "@
        + info.terminal@ + " ("@ + info.terminal_size@ + ")\nShell:        "@ + info.shell@ + (
    if info.is_root {
        "\nRunning as:   root (via sudo)\n```\n\n"@
    } else {
        "\nRunning as:   user\n```\n\n"@
    })
}

/// The section of an issue that lists the tools.
pub open spec fn dependencies_section(info: ReportInfo) -> Seq<char> {
    "## Dependencies\n\n```\n"@ + tool_lines(info.tools@, info.tools@.len() as int) + "```\n\n"@
}

/// The section of an issue that describes the configuration.
pub open spec fn config_section(info: ReportInfo) -> Seq<char> {
    "## Config\n\n```\nDirectory:   "@ + info.config_dir@ + " ("@ + info.config_source@
        + ")\nconfig.toml: "@ + info.config_toml_status@ + "\nProfiles:    "@ + decimal(
        (info.profile_counts.0 + info.profile_counts.1) as nat,
    ) + " ("@ + decimal(info.profile_counts.0 as nat) + " WireGuard, "@ + decimal(
        info.profile_counts.1 as nat,
    ) + " OpenVPN)\nKill switch: "@ + info.killswitch_state@ + "\n```\n\n"@
}

/// The last section of an issue.
pub open spec fn context_section() -> Seq<char> {
    "## Additional Context\n\n<!-- Screenshots, error messages, log snippets (redact any IPs/endpoints) -->\n"@
}

/// The text of an issue.
pub open spec fn issue_body(info: ReportInfo, description: Seq<char>) -> Seq<char> {
    description_section(description) + steps_section() + environment_section(info)
        + dependencies_section(info) + config_section(info) + context_section()
}

fn push_description(out: &mut String, description: &str)
    ensures
        final(out)@ == old(out)@ + description_section(description@),
{
    out.append("## Bug Description\n\n");
    if description.unicode_len() == 0 {
        out.append("<!-- Describe what happened and what you expected -->\n\n");
    } else {
        out.append(description);
        out.append("\n\n");
    }
    assert(out@ =~= old(out)@ + description_section(description@));
}

fn push_environment(out: &mut String, info: &ReportInfo)
    ensures
        final(out)@ == old(out)@ + environment_section(*info),
{
    out.append("## Environment\n\n```\nVortix:       ");
    out.append(info.version.as_str());
    out.append(" (");
    out.append(info.install_method.as_str());
    out.append(")\nOS:           ");
    out.append(info.os_info.as_str());
    out.append(" (");
    out.append(info.arch.as_str());
    out.append(")\nTerminal:     ");
    out.append(info.terminal.as_str());
    out.append(" (");
    out.append(info.terminal_size.as_str());
    out.append(")\nShell:        ");
    out.append(info.shell.as_str());
    if info.is_root {
        out.append("\nRunning as:   root (via sudo)\n```\n\n");
    } else {
        out.append("\nRunning as:   user\n```\n\n");
    }
    assert(out@ =~= old(out)@ + environment_section(*info));
}

fn push_tool_line(out: &mut String, tool: &ToolStatus)
    ensures
        final(out)@ == old(out)@ + tool_line(*tool),
{
    push_padded(out, tool.name.as_str(), 12);
    out.append(" ");
    match (&tool.path, &tool.version) {
        (Some(p), Some(v)) => {
            out.append(p.as_str());
            out.append(" (");
            out.append(v.as_str());
            out.append(")");
        },
        (Some(p), None) => {
            out.append(p.as_str());
        },
        _ => {
            out.append("not found");
        },
    }
    out.append("\n");
    assert(out@ =~= old(out)@ + tool_line(*tool));
}

fn push_dependencies(out: &mut String, info: &ReportInfo)
    ensures
        final(out)@ == old(out)@ + dependencies_section(*info),
{
    out.append("## Dependencies\n\n```\n");
    let ghost base = out@;
    let mut i: usize = 0;
    assert(out@ =~= base + tool_lines(info.tools@, 0));
    while i < info.tools.len()
        invariant
            i <= info.tools.len(),
            out@ == base + tool_lines(info.tools@, i as int),
        decreases info.tools.len() - i,
    {
        push_tool_line(out, &info.tools[i]);
        i += 1;
        assert(out@ =~= base + tool_lines(info.tools@, i as int));
    }
    out.append("```\n\n");
    assert(out@ =~= old(out)@ + dependencies_section(*info));
}

fn push_config(out: &mut String, info: &ReportInfo)
    ensures
        final(out)@ == old(out)@ + config_section(*info),
{
    let wireguard: u64 = info.profile_counts.0 as u64;
    let openvpn: u64 = info.profile_counts.1 as u64;
    out.append("## Config\n\n```\nDirectory:   ");
    out.append(info.config_dir.as_str());
    out.append(" (");
    out.append(info.config_source.as_str());
    out.append(")\nconfig.toml: ");
    out.append(info.config_toml_status.as_str());
    out.append("\nProfiles:    ");
    push_decimal(out, wireguard + openvpn);
    out.append(" (");
    push_decimal(out, wireguard);
    out.append(" WireGuard, ");
    push_decimal(out, openvpn);
    out.append(" OpenVPN)\nKill switch: ");
    out.append(info.killswitch_state.as_str());
    out.append("\n```\n\n");
    assert(out@ =~= old(out)@ + config_section(*info));
}

/// Lay out the text of an issue from the collected data and the user's
/// description. An empty description leaves a placeholder.
pub fn format_issue_body(info: &ReportInfo, description: &str) -> (body: String)
    ensures
        body@ == issue_body(*info, description@),
{
    let mut body = String::new();
    push_description(&mut body, description);
    body.append(
        "## Steps to Reproduce\n\n<!-- How can we reproduce this? -->\n\n1. \n2. \n3. \n\n",
    );
    push_environment(&mut body, info);
    push_dependencies(&mut body, info);
    push_config(&mut body, info);
    body.append(
        "## Additional Context\n\n<!-- Screenshots, error messages, log snippets (redact any IPs/endpoints) -->\n",
    );
    assert(body@ =~= issue_body(*info, description@));
    body
}

/// The longest URL that is handed to the browser, in bytes.
pub const GITHUB_ISSUE_URL_LIMIT: usize = 8000;

/// What is appended to a body that had to be cut.
pub open spec fn truncation_note() -> Seq<char> {
    "\n\n<!-- Report truncated due to URL length limit. Please add remaining details manually. -->"@
}

/// Whether a byte stands for itself in a percent-encoded text: ASCII letters
/// and digits, and `-`, `.`, `_`, `~`.
pub open spec fn is_unreserved(b: u8) -> bool {
    ||| 0x30 <= b <= 0x39
    ||| 0x41 <= b <= 0x5a
    ||| 0x61 <= b <= 0x7a
    ||| b == 0x2d
    ||| b == 0x2e
    ||| b == 0x5f
    ||| b == 0x7e
}

/// The upper-case hexadecimal digit for a number below sixteen.
pub open spec fn hex_upper(n: int) -> char {
    if n < 10 {
        (0x30 + n) as char
    } else {
        (0x41 + n - 10) as char
    }
}

/// One byte, percent-encoded.
pub open spec fn percent_encoded_byte(b: u8) -> Seq<char> {
    if is_unreserved(b) {
        seq![b as char]
    } else {
        seq!['%', hex_upper(b as int / 16), hex_upper(b as int % 16)]
    }
}

/// Bytes, percent-encoded one by one.
pub open spec fn percent_encoded(bytes: Seq<u8>) -> Seq<char>
    decreases bytes.len(),
{
    if bytes.len() == 0 {
        Seq::<char>::empty()
    } else {
        percent_encoded(bytes.drop_last()) + percent_encoded_byte(bytes.last())
    }
}

/// A text, percent-encoded: every byte of its UTF-8 form that is not
/// unreserved becomes `%` and two upper-case hexadecimal digits.
pub open spec fn url_encoded(s: Seq<char>) -> Seq<char> {
    percent_encoded(encode_utf8(s))
}

/// `urlencoding::encode`: percent-encodes every byte of the text except
/// ASCII letters and digits and `-`, `_`, `.`, `~`, with upper-case
/// hexadecimal digits.
#[verifier::external_body]
fn url_encode(s: &str) -> (r: String)
    ensures
        r@ == url_encoded(s@),
{
    urlencoding::encode(s).into_owned()
}

/// The URL that opens a new issue with the given body.
pub open spec fn issue_url(body: Seq<char>) -> Seq<char> {
    GITHUB_REPO_URL@ + "/issues/new?labels=bug&title="@ + url_encoded("[Bug] "@) + "&body="@
        + url_encoded(body)
}

/// Length of the truncation note in bytes.
pub const TRUNCATION_NOTE_LEN: usize = 91;

/// Room that is kept free for the fixed part of the URL, in bytes.
pub const URL_HEADROOM: usize = 200;

/// How many characters of a body are kept when it has to be cut: the limit
/// less the headroom and the note.
pub open spec fn kept_body_len() -> nat {
    (GITHUB_ISSUE_URL_LIMIT - URL_HEADROOM - TRUNCATION_NOTE_LEN) as nat
}

/// The first `n` characters of a text, or all of it if it has fewer.
pub open spec fn first_chars(s: Seq<char>, n: nat) -> Seq<char> {
    if s.len() <= n {
        s
    } else {
        s.take(n as int)
    }
}

/// The URL for a report.
///
/// If the URL for the whole body is longer than the limit, the body is cut
/// to `kept_body_len` characters, the note is appended, and of the URL for
/// that only the first `GITHUB_ISSUE_URL_LIMIT` characters are kept.
pub open spec fn github_url(body: Seq<char>) -> Seq<char> {
    if utf8_len(issue_url(body)) > GITHUB_ISSUE_URL_LIMIT {
        first_chars(
            issue_url(first_chars(body, kept_body_len()) + truncation_note()),
            GITHUB_ISSUE_URL_LIMIT as nat,
        )
    } else {
        issue_url(body)
    }
}

/// Every character of a percent-encoded text is ASCII.
pub proof fn lemma_percent_encoded_is_ascii(bytes: Seq<u8>)
    ensures
        is_ascii_chars(percent_encoded(bytes)),
    decreases bytes.len(),
{
    if bytes.len() > 0 {
        lemma_percent_encoded_is_ascii(bytes.drop_last());
        let b = bytes.last();
        let piece = percent_encoded_byte(b);
        assert(is_ascii_chars(piece)) by {
            assert forall|i: int| 0 <= i < piece.len() implies '\0' <= #[trigger] piece[i]
                <= '\u{7f}' by {
                if is_unreserved(b) {
                    assert(piece[0] == b as char);
                } else {
                    assert(0 <= b as int / 16 < 16);
                    assert(0 <= b as int % 16 < 16);
                }
            }
        }
        is_ascii_chars_concat(
            percent_encoded(bytes),
            percent_encoded(bytes.drop_last()),
            piece,
        );
    }
}

/// The URL of an issue is ASCII throughout, so it is as long in bytes as in
/// characters.
pub proof fn lemma_issue_url_is_ascii(body: Seq<char>)
    ensures
        is_ascii_chars(issue_url(body)),
        utf8_len(issue_url(body)) == issue_url(body).len(),
{
    reveal_strlit("https://github.com/Harry-kp/vortix");
    reveal_strlit("/issues/new?labels=bug&title=");
    reveal_strlit("&body=");
    lemma_percent_encoded_is_ascii(encode_utf8("[Bug] "@));
    lemma_percent_encoded_is_ascii(encode_utf8(body));
    let a = GITHUB_REPO_URL@;
    let b = "/issues/new?labels=bug&title="@;
    let c = url_encoded("[Bug] "@);
    let d = "&body="@;
    let e = url_encoded(body);
    assert(is_ascii_chars(a));
    assert(is_ascii_chars(b));
    assert(is_ascii_chars(d));
    is_ascii_chars_concat(a + b, a, b);
    is_ascii_chars_concat(a + b + c, a + b, c);
    is_ascii_chars_concat(a + b + c + d, a + b + c, d);
    is_ascii_chars_concat(a + b + c + d + e, a + b + c + d, e);
    is_ascii_chars_encode_utf8(issue_url(body));
}

/// The URL for a report is never longer than the limit, in bytes.
pub proof fn lemma_github_url_fits(body: Seq<char>)
    ensures
        utf8_len(github_url(body)) <= GITHUB_ISSUE_URL_LIMIT,
{
    if utf8_len(issue_url(body)) > GITHUB_ISSUE_URL_LIMIT {
        let cut = first_chars(body, kept_body_len()) + truncation_note();
        let long = issue_url(cut);
        lemma_issue_url_is_ascii(cut);
        let kept = first_chars(long, GITHUB_ISSUE_URL_LIMIT as nat);
        assert(is_ascii_chars(kept));
        is_ascii_chars_encode_utf8(kept);
    }
}

fn issue_url_for(body: &str) -> (url: String)
    ensures
        url@ == issue_url(body@),
{
    let mut url = String::from_str(GITHUB_REPO_URL);
    url.append("/issues/new?labels=bug&title=");
    let title = url_encode("[Bug] ");
    url.append(title.as_str());
    url.append("&body=");
    let encoded = url_encode(body);
    url.append(encoded.as_str());
    url
}

fn take_chars(s: &str, n: usize) -> (r: String)
    ensures
        r@ == first_chars(s@, n as nat),
{
    let chars = chars_of(s);
    if chars.len() <= n {
        string_of(chars.as_slice())
    } else {
        string_of(slice_subrange(chars.as_slice(), 0, n))
    }
}

/// Build the URL that opens a pre-filled issue in the browser, cutting the
/// body where the URL would grow beyond what the site accepts.
pub fn build_github_url(body: &str) -> (url: String)
    ensures
        url@ == github_url(body@),
        utf8_len(url@) <= GITHUB_ISSUE_URL_LIMIT,
{
    proof {
        lemma_github_url_fits(body@);
    }
    let url = issue_url_for(body);
    if url.as_str().as_bytes().len() > GITHUB_ISSUE_URL_LIMIT {
        let suffix =
            "\n\n<!-- Report truncated due to URL length limit. Please add remaining details manually. -->";
        let max_body_len = GITHUB_ISSUE_URL_LIMIT - URL_HEADROOM - TRUNCATION_NOTE_LEN;
        let mut truncated = take_chars(body, max_body_len);
        truncated.append(suffix);
        let long = issue_url_for(truncated.as_str());
        take_chars(long.as_str(), GITHUB_ISSUE_URL_LIMIT)
    } else {
        url
    }
}

/// The systems the application runs on.
#[derive(Debug, Clone, Copy, PartialEq, Eq, Structural)]
pub enum Platform {
    /// macOS.
    MacOs,
    /// Linux.
    Linux,
}

/// What a report says of the configuration file.
pub fn config_file_status(found: bool) -> (r: String)
    ensures
        r@ == if found {
            "found"@
        } else {
            "not found (using defaults)"@
        },
{
    if found {
        String::from_str("found")
    } else {
        String::from_str("not found (using defaults)")
    }
}

/// The size of the terminal as a report shows it.
pub open spec fn terminal_size_text(cols: u16, rows: u16) -> Seq<char> {
    if cols > 0 {
        decimal(cols as nat) + "x"@ + decimal(rows as nat)
    } else {
        "unknown"@
    }
}

/// Show the size of the terminal, columns by rows; a terminal without
/// columns has no known size.
pub fn terminal_size_label(cols: u16, rows: u16) -> (r: String)
    ensures
        r@ == terminal_size_text(cols, rows),
{
    if cols > 0 {
        let mut r = String::new();
        push_decimal(&mut r, cols as u64);
        r.append("x");
        push_decimal(&mut r, rows as u64);
        assert(r@ =~= terminal_size_text(cols, rows));
        r
    } else {
        String::from_str("unknown")
    }
}

/// What a report says of the kill switch.
pub open spec fn killswitch_text(record: Option<PersistedRecord>) -> Seq<char> {
    match record {
        Some(r) => r.mode.spec_name() + " ("@ + r.state.spec_name() + ")"@,
        None => "off"@,
    }
}

/// Show the persisted kill switch: mode and state, or `off` where nothing
/// was persisted.
pub fn killswitch_summary(record: Option<PersistedRecord>) -> (r: String)
    ensures
        r@ == killswitch_text(record),
{
    match record {
        Some(rec) => {
            let mut r = rec.mode.name();
            r.append(" (");
            let state = rec.state.name();
            r.append(state.as_str());
            r.append(")");
            r
        },
        None => String::from_str("off"),
    }
}

/// What a command printed, if it succeeded and printed anything: its
/// output, trimmed.
pub fn command_output(success: bool, stdout: &str) -> (r: Option<String>)
    ensures
        r is Some <==> success && trimmed(stdout@).len() > 0,
        r matches Some(out) ==> out@ == trimmed(stdout@),
{
    if !success {
        return None;
    }
    let chars = chars_of(stdout);
    let t = trim(chars.as_slice());
    if t.len() == 0 {
        None
    } else {
        Some(string_of(t))
    }
}

/// The tools a report lists, each with whether it is asked for its version.
pub open spec fn tools_for(platform: Platform) -> Seq<(Seq<char>, bool)> {
    seq![("curl"@, true), ("wg-quick"@, true), ("wg"@, true), ("openvpn"@, true)] + match platform {
        Platform::MacOs => seq![("pfctl"@, false)],
        Platform::Linux => seq![("iptables"@, true), ("nft"@, true)],
    }
}

/// A tool to look for.
#[derive(Debug, Clone, Copy, PartialEq, Eq)]
pub struct ToolQuery {
    /// Name of the tool.
    pub name: &'static str,
    /// Whether the tool is asked for its version.
    pub wants_version: bool,
}

/// The model of a list of tools to look for.
pub open spec fn queries_of(queries: Seq<ToolQuery>) -> Seq<(Seq<char>, bool)> {
    queries.map_values(|q: ToolQuery| (q.name@, q.wants_version))
}

/// The tools that a report lists on a platform.
pub fn collect_tool_queries(platform: Platform) -> (r: Vec<ToolQuery>)
    ensures
        queries_of(r@) == tools_for(platform),
{
    let mut tools: Vec<ToolQuery> = Vec::new();
    tools.push(ToolQuery { name: "curl", wants_version: true });
    tools.push(ToolQuery { name: "wg-quick", wants_version: true });
    tools.push(ToolQuery { name: "wg", wants_version: true });
    tools.push(ToolQuery { name: "openvpn", wants_version: true });
    match platform {
        Platform::MacOs => {
            tools.push(ToolQuery { name: "pfctl", wants_version: false });
        },
        Platform::Linux => {
            tools.push(ToolQuery { name: "iptables", wants_version: true });
            tools.push(ToolQuery { name: "nft", wants_version: true });
        },
    }
    assert(queries_of(tools@) =~= tools_for(platform));
    tools
}

/// What a tool printed when asked for its version: standard output, or
/// standard error where standard output is empty.
pub open spec fn version_output(stdout: Seq<char>, stderr: Seq<char>) -> Seq<char> {
    if stdout.len() == 0 {
        stderr
    } else {
        stdout
    }
}

/// Put together the status of a tool from where `which` found it and from
/// what it printed when asked for its version; `None` where the command
/// could not be run.
pub fn check_tool(name: &str, which: Option<&str>, printed: Option<(&str, &str)>) -> (r: ToolStatus)
    ensures
        r.name@ == name@,
        text_of(r.path) == match which {
            Some(p) => Some(trimmed(p@)),
            None => None,
        },
        text_of(r.version) == match printed {
            Some(out) => version_in(version_output(out.0@, out.1@)),
            None => None,
        },
{
    let path = match which {
        Some(p) => {
            let chars = chars_of(p);
            Some(string_of(trim(chars.as_slice())))
        },
        None => None,
    };
    let version = match printed {
        Some((stdout, stderr)) => {
            if stdout.unicode_len() == 0 {
                parse_version_line(stderr)
            } else {
                parse_version_line(stdout)
            }
        },
        None => None,
    };
    ToolStatus { name: String::from_str(name), path, version }
}

/// The name of the distribution at or after line `from` of an `os-release`
/// file: the value of the first `PRETTY_NAME=` line, unquoted.
pub open spec fn pretty_name_in(rows: Seq<Seq<char>>, from: int) -> Option<Seq<char>>
    decreases rows.len() - from,
{
    if from < 0 || from >= rows.len() {
        None
    } else if starts_with(rows[from], "PRETTY_NAME="@) {
        Some(unquoted(rows[from].subrange(12, rows[from].len() as int)))
    } else {
        pretty_name_in(rows, from + 1)
    }
}

/// Read the name of the distribution from the content of `os-release`.
pub fn linux_distro_name(os_release: &str) -> (r: Option<String>)
    ensures
        text_of(r) == pretty_name_in(lines(os_release@), 0),
{
    let chars = chars_of(os_release);
    let rows = split_lines(chars.as_slice());
    let key = chars_of("PRETTY_NAME=");
    proof {
        reveal_strlit("PRETTY_NAME=");
    }
    let mut i: usize = 0;
    while i < rows.len()
        invariant
            i <= rows.len(),
            key@ == "PRETTY_NAME="@,
            key@.len() == 12,
            views(rows@) == lines(os_release@),
            pretty_name_in(lines(os_release@), 0) == pretty_name_in(lines(os_release@), i as int),
        decreases rows.len() - i,
    {
        assert(views(rows@)[i as int] == rows@[i as int]@);
        let row = rows[i];
        if begins_with(row, key.as_slice()) {
            let value = unquote(slice_subrange(row, 12, row.len()));
            return Some(string_of(value));
        }
        i += 1;
    }
    assert(rows@.len() == views(rows@).len());
    None
}

/// How the operating system is shown.
///
/// On macOS: `macOS`, the version if known, and the Darwin kernel in
/// brackets. On Linux: the distribution, `Linux` if unknown, and the kernel
/// in brackets if known.
pub open spec fn os_text(platform: Platform, release: Option<Seq<char>>, kernel: Option<Seq<char>>)
    -> Seq<char> {
    let k = match kernel {
        Some(k) => k,
        None => Seq::<char>::empty(),
    };
    match platform {
        Platform::MacOs => match release {
            Some(v) => if v.len() > 0 {
                "macOS "@ + v + " (Darwin "@ + k + ")"@
            } else {
                "macOS (Darwin "@ + k + ")"@
            },
            None => "macOS (Darwin "@ + k + ")"@,
        },
        Platform::Linux => {
            let distro = match release {
                Some(d) => d,
                None => "Linux"@,
            };
            if k.len() == 0 {
                distro
            } else {
                distro + " (kernel "@ + k + ")"@
            }
        },
    }
}

/// Describe the operating system from its release, the product version on
/// macOS and the distribution name on Linux, and its kernel version.
pub fn get_os_info(platform: Platform, release: Option<&str>, kernel: Option<&str>) -> (r: String)
    ensures
        r@ == os_text(
            platform,
            match release {
                Some(v) => Some(v@),
                None => None,
            },
            match kernel {
                Some(k) => Some(k@),
                None => None,
            },
        ),
{
    let k = match kernel {
        Some(k) => k,
        None => "",
    };
    proof {
        reveal_strlit("");
    }
    match platform {
        Platform::MacOs => {
            let mut r = String::from_str("macOS ");
            let version = match release {
                Some(v) => v,
                None => "",
            };
            if version.unicode_len() == 0 {
                r = String::from_str("macOS (Darwin ");
            } else {
                r.append(version);
                r.append(" (Darwin ");
            }
            r.append(k);
            r.append(")");
            r
        },
        Platform::Linux => {
            let mut r = match release {
                Some(d) => String::from_str(d),
                None => String::from_str("Linux"),
            };
            if k.unicode_len() > 0 {
                r.append(" (kernel ");
                r.append(k);
                r.append(")");
            }
            r
        },
    }
}

/// What the user chose to do with a report.
#[derive(Debug, Clone, Copy, PartialEq, Eq, Structural)]
pub enum ReportChoice {
    /// Open a pre-filled issue in the browser.
    Open,
    /// Copy the report to the clipboard.
    Copy,
    /// Print the report.
    Print,
    /// Do nothing.
    Cancel,
    /// Not a choice.
    Invalid,
}

/// The choice that a lower-case answer stands for. Over SSH there is no
/// browser to open.
pub open spec fn choice_for(answer_lower: Seq<char>, is_ssh: bool) -> ReportChoice {
    if answer_lower == "o"@ && !is_ssh {
        ReportChoice::Open
    } else if answer_lower == "c"@ {
        ReportChoice::Copy
    } else if answer_lower == "p"@ {
        ReportChoice::Print
    } else if answer_lower == "q"@ {
        ReportChoice::Cancel
    } else {
        ReportChoice::Invalid
    }
}

fn answer_is(answer: &[char], c: char) -> (b: bool)
    ensures
        b == (answer@ == seq![c]),
{
    let b = answer.len() == 1 && answer[0] == c;
    proof {
        if b {
            assert(answer@ =~= seq![c]);
        }
    }
    b
}

/// The choice that a lower-case answer stands for; see `choice_for`.
pub fn choice_of_lower(answer_lower: &[char], is_ssh: bool) -> (r: ReportChoice)
    ensures
        r == choice_for(answer_lower@, is_ssh),
{
    proof {
        reveal_strlit("o");
        reveal_strlit("c");
        reveal_strlit("p");
        reveal_strlit("q");
        assert("o"@ =~= seq!['o']);
        assert("c"@ =~= seq!['c']);
        assert("p"@ =~= seq!['p']);
        assert("q"@ =~= seq!['q']);
    }
    if answer_is(answer_lower, 'o') && !is_ssh {
        ReportChoice::Open
    } else if answer_is(answer_lower, 'c') {
        ReportChoice::Copy
    } else if answer_is(answer_lower, 'p') {
        ReportChoice::Print
    } else if answer_is(answer_lower, 'q') {
        ReportChoice::Cancel
    } else {
        ReportChoice::Invalid
    }
}

/// Read the user's answer to the question what to do with the report. White
/// space around the answer and its case do not matter.
pub fn parse_choice(answer: &str, is_ssh: bool) -> (r: ReportChoice)
    ensures
        r == choice_for(crate::text::lowercase_of(trimmed(answer@)), is_ssh),
{
    let chars = chars_of(answer);
    let lower = crate::text::lowercase(trim(chars.as_slice()));
    choice_of_lower(lower.as_slice(), is_ssh)
}

/// The lines of a preview for the first `upto` tools.
pub open spec fn preview_tool_lines(tools: Seq<ToolStatus>, upto: int) -> Seq<char>
    decreases upto,
{
    if upto <= 0 {
        Seq::<char>::empty()
    } else {
        preview_tool_lines(tools, upto - 1) + "    "@ + tool_line(tools[upto - 1])
    }
}

/// The preview of a report as it is shown before the user decides.
pub open spec fn preview_text(info: ReportInfo) -> Seq<char> {
    "Bug Report Preview\n==================\n\n  Vortix:       "@ + info.version@ + " ("@
        + info.install_method@ + ")\n  OS:           "@ + info.os_info@ + " ("@ + info.arch@
        + ")\n  Terminal:     "@ + info.terminal@ + " ("@ + info.terminal_size@
        + ")\n  Shell:        "@ + info.shell@ + (if info.is_root {
        "\n  Running as:   root (via sudo)\n\n  Dependencies:\n"@
    } else {
        "\n  Running as:   user\n\n  Dependencies:\n"@
    }) + preview_tool_lines(info.tools@, info.tools@.len() as int)
        + "\n  Config:\n    Directory:   "@ + info.config_dir@ + " ("@ + info.config_source@
        + ")\n    config.toml: "@ + info.config_toml_status@ + "\n    Profiles:    "@ + decimal(
        (info.profile_counts.0 + info.profile_counts.1) as nat,
    ) + " ("@ + decimal(info.profile_counts.0 as nat) + " WireGuard, "@ + decimal(
        info.profile_counts.1 as nat,
    ) + " OpenVPN)\n    Kill switch: "@ + info.killswitch_state@ + "\n\n"@
}

/// Lay out the preview of a report.
pub fn format_preview(info: &ReportInfo) -> (out: String)
    ensures
        out@ == preview_text(*info),
{
    let wireguard: u64 = info.profile_counts.0 as u64;
    let openvpn: u64 = info.profile_counts.1 as u64;
    let mut out = String::from_str("Bug Report Preview\n==================\n\n  Vortix:       ");
    out.append(info.version.as_str());
    out.append(" (");
    out.append(info.install_method.as_str());
    out.append(")\n  OS:           ");
    out.append(info.os_info.as_str());
    out.append(" (");
    out.append(info.arch.as_str());
    out.append(")\n  Terminal:     ");
    out.append(info.terminal.as_str());
    out.append(" (");
    out.append(info.terminal_size.as_str());
    out.append(")\n  Shell:        ");
    out.append(info.shell.as_str());
    if info.is_root {
        out.append("\n  Running as:   root (via sudo)\n\n  Dependencies:\n");
    } else {
        out.append("\n  Running as:   user\n\n  Dependencies:\n");
    }
    let ghost base = out@;
    let mut i: usize = 0;
    assert(out@ =~= base + preview_tool_lines(info.tools@, 0));
    while i < info.tools.len()
        invariant
            i <= info.tools.len(),
            out@ == base + preview_tool_lines(info.tools@, i as int),
        decreases info.tools.len() - i,
    {
        out.append("    ");
        push_tool_line(&mut out, &info.tools[i]);
        i += 1;
        assert(out@ =~= base + preview_tool_lines(info.tools@, i as int));
    }
    out.append("\n  Config:\n    Directory:   ");
    out.append(info.config_dir.as_str());
    out.append(" (");
    out.append(info.config_source.as_str());
    out.append(")\n    config.toml: ");
    out.append(info.config_toml_status.as_str());
    out.append("\n    Profiles:    ");
    push_decimal(&mut out, wireguard + openvpn);
    out.append(" (");
    push_decimal(&mut out, wireguard);
    out.append(" WireGuard, ");
    push_decimal(&mut out, openvpn);
    out.append(" OpenVPN)\n    Kill switch: ");
    out.append(info.killswitch_state.as_str());
    out.append("\n\n");
    assert(out@ =~= preview_text(*info));
    out
}

/// How many of the first `upto` paths have the extension `ext`.
pub open spec fn files_with(paths: Seq<String>, ext: Seq<char>, upto: int) -> nat
    decreases upto,
{
    if upto <= 0 {
        0
    } else {
        files_with(paths, ext, upto - 1) + if crate::vpn::extension_of(paths[upto - 1]@) == Some(
            ext,
        ) {
            1nat
        } else {
            0nat
        }
    }
}

/// A count as `u32`: the count itself, or the largest value if it is larger.
pub open spec fn capped_u32(n: nat) -> u32 {
    if n > u32::MAX {
        u32::MAX
    } else {
        n as u32
    }
}

/// Count the profiles among the files of the profiles directory by their
/// extension: `conf` for WireGuard first, `ovpn` for OpenVPN second.
pub fn count_profiles(files: &Vec<String>) -> (r: (u32, u32))
    ensures
        r.0 == capped_u32(files_with(files@, "conf"@, files@.len() as int)),
        r.1 == capped_u32(files_with(files@, "ovpn"@, files@.len() as int)),
{
    let conf = chars_of("conf");
    let ovpn = chars_of("ovpn");
    let mut wireguard: u32 = 0;
    let mut openvpn: u32 = 0;
    let mut i: usize = 0;
    while i < files.len()
        invariant
            i <= files.len(),
            conf@ == "conf"@,
            ovpn@ == "ovpn"@,
            wireguard == capped_u32(files_with(files@, "conf"@, i as int)),
            openvpn == capped_u32(files_with(files@, "ovpn"@, i as int)),
        decreases files.len() - i,
    {
        proof {
            reveal_strlit("conf");
            reveal_strlit("ovpn");
            assert("conf"@[0] != "ovpn"@[0]);
        }
        match crate::vpn::file_extension(files[i].as_str()) {
            Some(ext) => {
                let chars = chars_of(ext.as_str());
                if crate::text::same_text(chars.as_slice(), conf.as_slice()) {
                    wireguard = wireguard.saturating_add(1);
                } else if crate::text::same_text(chars.as_slice(), ovpn.as_slice()) {
                    openvpn = openvpn.saturating_add(1);
                }
            },
            None => {},
        }
        i += 1;
    }
    (wireguard, openvpn)
}

} // verus!
