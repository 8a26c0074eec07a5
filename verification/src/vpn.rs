//! Reading profile files: telling the protocol, checking that a file is a
//! usable configuration, and guessing a location from its name.

use vstd::prelude::*;
use vstd::slice::slice_subrange;
use vstd::string::StringExecFns;

use crate::state::profile::{Protocol, VpnProfile};
use crate::text::{
    after_char, before_char, begins_with, chars_of, contains, has, holds_char, is_ascii_digit,
    lines, lowercase, lowercase_of, position_of, same_text, split_lines, split_words, starts_with,
    str_views, text_of, trim, trimmed, views, words,
};

verus! {

/// City names that are looked for anywhere in a profile name, with the
/// place each stands for. Earlier entries win.
pub open spec fn cities() -> Seq<(Seq<char>, Seq<char>)> {
    seq![
        ("frankfurt"@, "Frankfurt, DE"@),
        ("amsterdam"@, "Amsterdam, NL"@),
        ("losangeles"@, "Los Angeles, US"@),
        ("los-angeles"@, "Los Angeles, US"@),
        ("newyork"@, "New York, US"@),
        ("new-york"@, "New York, US"@),
        ("tokyo"@, "Tokyo, JP"@),
        ("london"@, "London, GB"@),
        ("paris"@, "Paris, FR"@),
        ("singapore"@, "Singapore, SG"@),
        ("sydney"@, "Sydney, AU"@),
        ("toronto"@, "Toronto, CA"@),
        ("zurich"@, "Zurich, CH"@),
    ]
}

/// Two-letter country codes that are looked for at the start of a profile
/// name, with the country each stands for.
pub open spec fn countries() -> Seq<(Seq<char>, Seq<char>)> {
    seq![
        ("nl"@, "Netherlands"@),
        ("us"@, "United States"@),
        ("uk"@, "United Kingdom"@),
        ("gb"@, "United Kingdom"@),
        ("de"@, "Germany"@),
        ("fr"@, "France"@),
        ("jp"@, "Japan"@),
        ("ca"@, "Canada"@),
        ("au"@, "Australia"@),
        ("sg"@, "Singapore"@),
        ("ch"@, "Switzerland"@),
        ("se"@, "Sweden"@),
        ("es"@, "Spain"@),
        ("it"@, "Italy"@),
    ]
}

/// The place of the first city at or after entry `from` whose name occurs
/// in `lower`.
pub open spec fn city_in(lower: Seq<char>, from: int) -> Option<Seq<char>>
    decreases cities().len() - from,
{
    if from < 0 || from >= cities().len() {
        None
    } else if contains(lower, cities()[from].0) {
        Some(cities()[from].1)
    } else {
        city_in(lower, from + 1)
    }
}

/// The country of the first code at or after entry `from` that `lower`
/// begins with, a hyphen following.
pub open spec fn country_by_prefix(lower: Seq<char>, from: int) -> Option<Seq<char>>
    decreases countries().len() - from,
{
    if from < 0 || from >= countries().len() {
        None
    } else if starts_with(lower, countries()[from].0 + seq!['-']) {
        Some(countries()[from].1)
    } else {
        country_by_prefix(lower, from + 1)
    }
}

/// The country of the first code at or after entry `from` that `prefix` is.
pub open spec fn country_by_code(prefix: Seq<char>, from: int) -> Option<Seq<char>>
    decreases countries().len() - from,
{
    if from < 0 || from >= countries().len() {
        None
    } else if prefix == countries()[from].0 {
        Some(countries()[from].1)
    } else {
        country_by_code(prefix, from + 1)
    }
}

/// Whether what follows a bare country code lets it count as one: nothing,
/// an underscore, a hyphen or a digit.
pub open spec fn code_may_end(rest: Seq<char>) -> bool {
    rest.len() == 0 || rest[0] == '_' || rest[0] == '-' || is_ascii_digit(rest[0])
}

/// The location that a lower-case profile name suggests.
///
/// A city name anywhere in the name wins. Next comes a country code with a
/// hyphen at the start, then a bare country code at the start that is
/// followed by nothing, an underscore, a hyphen or a digit. Anything else is
/// `Unknown`.
pub open spec fn location_for(lower: Seq<char>) -> Seq<char> {
    if city_in(lower, 0) is Some {
        city_in(lower, 0)->0
    } else if country_by_prefix(lower, 0) is Some {
        country_by_prefix(lower, 0)->0
    } else if lower.len() >= 2 && code_may_end(lower.subrange(2, lower.len() as int))
        && country_by_code(lower.subrange(0, 2), 0) is Some {
        country_by_code(lower.subrange(0, 2), 0)->0
    } else {
        "Unknown"@
    }
}

fn city_entry(i: usize) -> (r: (&'static str, &'static str))
    requires
        i < 13,
    ensures
        cities().len() == 13,
        (r.0@, r.1@) == cities()[i as int],
{
    match i {
        0 => ("frankfurt", "Frankfurt, DE"),
        1 => ("amsterdam", "Amsterdam, NL"),
        2 => ("losangeles", "Los Angeles, US"),
        3 => ("los-angeles", "Los Angeles, US"),
        4 => ("newyork", "New York, US"),
        5 => ("new-york", "New York, US"),
        6 => ("tokyo", "Tokyo, JP"),
        7 => ("london", "London, GB"),
        8 => ("paris", "Paris, FR"),
        9 => ("singapore", "Singapore, SG"),
        10 => ("sydney", "Sydney, AU"),
        11 => ("toronto", "Toronto, CA"),
        _ => ("zurich", "Zurich, CH"),
    }
}

fn country_entry(i: usize) -> (r: (&'static str, &'static str))
    requires
        i < 14,
    ensures
        countries().len() == 14,
        (r.0@, r.1@) == countries()[i as int],
{
    match i {
        0 => ("nl", "Netherlands"),
        1 => ("us", "United States"),
        2 => ("uk", "United Kingdom"),
        3 => ("gb", "United Kingdom"),
        4 => ("de", "Germany"),
        5 => ("fr", "France"),
        6 => ("jp", "Japan"),
        7 => ("ca", "Canada"),
        8 => ("au", "Australia"),
        9 => ("sg", "Singapore"),
        10 => ("ch", "Switzerland"),
        11 => ("se", "Sweden"),
        12 => ("es", "Spain"),
        _ => ("it", "Italy"),
    }
}

fn find_city(lower: &[char]) -> (r: Option<&'static str>)
    ensures
        r is Some <==> city_in(lower@, 0) is Some,
        r matches Some(place) ==> place@ == city_in(lower@, 0)->0,
{
    let mut i: usize = 0;
    while i < 13
        invariant
            i <= 13,
            cities().len() == 13,
            city_in(lower@, 0) == city_in(lower@, i as int),
        decreases 13 - i,
    {
        let (name, place) = city_entry(i);
        let pattern = chars_of(name);
        if has(lower, pattern.as_slice()) {
            return Some(place);
        }
        i += 1;
    }
    None
}

fn find_country_by_prefix(lower: &[char]) -> (r: Option<&'static str>)
    ensures
        r is Some <==> country_by_prefix(lower@, 0) is Some,
        r matches Some(place) ==> place@ == country_by_prefix(lower@, 0)->0,
{
    let mut i: usize = 0;
    while i < 14
        invariant
            i <= 14,
            countries().len() == 14,
            country_by_prefix(lower@, 0) == country_by_prefix(lower@, i as int),
        decreases 14 - i,
    {
        let (code, place) = country_entry(i);
        let mut pattern = chars_of(code);
        pattern.push('-');
        assert(pattern@ =~= countries()[i as int].0 + seq!['-']);
        if begins_with(lower, pattern.as_slice()) {
            return Some(place);
        }
        i += 1;
    }
    None
}

fn find_country_by_code(prefix: &[char]) -> (r: Option<&'static str>)
    ensures
        r is Some <==> country_by_code(prefix@, 0) is Some,
        r matches Some(place) ==> place@ == country_by_code(prefix@, 0)->0,
{
    let mut i: usize = 0;
    while i < 14
        invariant
            i <= 14,
            countries().len() == 14,
            country_by_code(prefix@, 0) == country_by_code(prefix@, i as int),
        decreases 14 - i,
    {
        let (code, place) = country_entry(i);
        let pattern = chars_of(code);
        if same_text(prefix, pattern.as_slice()) {
            return Some(place);
        }
        i += 1;
    }
    None
}

/// The location that a lower-case profile name suggests; see `location_for`.
pub fn location_of_lower(lower: &[char]) -> (r: String)
    ensures
        r@ == location_for(lower@),
{
    if let Some(place) = find_city(lower) {
        return String::from_str(place);
    }
    if let Some(place) = find_country_by_prefix(lower) {
        return String::from_str(place);
    }
    if lower.len() >= 2 {
        let rest = slice_subrange(lower, 2, lower.len());
        let may_end = rest.len() == 0 || rest[0] == '_' || rest[0] == '-' || (rest[0] >= '0'
            && rest[0] <= '9');
        if may_end {
            if let Some(place) = find_country_by_code(slice_subrange(lower, 0, 2)) {
                return String::from_str(place);
            }
        }
    }
    String::from_str("Unknown")
}

/// Guess a location from the name of a profile.
///
/// The name is lower-cased first. The result is a hint for the display and
/// nothing to rely on.
pub fn derive_location_from_name(name: &str) -> (r: String)
    ensures
        r@ == location_for(lowercase_of(name@)),
{
    let chars = chars_of(name);
    let lower = lowercase(chars.as_slice());
    location_of_lower(lower.as_slice())
}

/// Whether a trimmed line begins with `remote` and a space or a tab.
pub open spec fn is_remote_line(t: Seq<char>) -> bool {
    starts_with(t, "remote "@) || starts_with(t, "remote\t"@)
}

/// Whether a trimmed line is one that only OpenVPN configurations hold:
/// `client`, or one that begins with `dev ` or `proto `.
pub open spec fn is_openvpn_marker_line(t: Seq<char>) -> bool {
    t == "client"@ || starts_with(t, "dev "@) || starts_with(t, "proto "@)
}

/// Whether some line of the text, trimmed, is a `remote` line.
pub open spec fn has_remote_line(lower: Seq<char>) -> bool {
    exists|i: int| 0 <= i < lines(lower).len() && is_remote_line(trimmed(#[trigger] lines(lower)[i]))
}

/// Whether some line of the text, trimmed, is an OpenVPN marker line.
pub open spec fn has_openvpn_marker_line(lower: Seq<char>) -> bool {
    exists|i: int|
        0 <= i < lines(lower).len() && is_openvpn_marker_line(trimmed(#[trigger] lines(lower)[i]))
}

/// The protocol that a lower-case configuration text is written for.
///
/// WireGuard if it holds both `[interface]` and `[peer]`. Otherwise OpenVPN
/// if it holds a `remote` line or an OpenVPN marker line. Otherwise
/// WireGuard: validation will tell.
pub open spec fn protocol_for(lower: Seq<char>) -> Protocol {
    if contains(lower, "[interface]"@) && contains(lower, "[peer]"@) {
        Protocol::WireGuard
    } else if has_remote_line(lower) || has_openvpn_marker_line(lower) {
        Protocol::OpenVPN
    } else {
        Protocol::WireGuard
    }
}

fn line_is(t: &[char], word: &str) -> (b: bool)
    ensures
        b == (t@ == word@),
{
    let w = chars_of(word);
    same_text(t, w.as_slice())
}

fn line_begins(t: &[char], word: &str) -> (b: bool)
    ensures
        b == starts_with(t@, word@),
{
    let w = chars_of(word);
    begins_with(t, w.as_slice())
}

fn text_has(s: &[char], word: &str) -> (b: bool)
    ensures
        b == contains(s@, word@),
{
    let w = chars_of(word);
    has(s, w.as_slice())
}

/// The protocol that a lower-case configuration text is written for; see
/// `protocol_for`.
pub fn protocol_of_lower(lower: &[char]) -> (r: Protocol)
    ensures
        r == protocol_for(lower@),
{
    let has_interface = text_has(lower, "[interface]");
    let has_peer = text_has(lower, "[peer]");
    let rows = split_lines(lower);
    let mut has_remote = false;
    let mut has_markers = false;
    let mut i: usize = 0;
    while i < rows.len()
        invariant
            i <= rows.len(),
            views(rows@) == lines(lower@),
            has_remote <==> exists|j: int|
                0 <= j < i && is_remote_line(trimmed(#[trigger] lines(lower@)[j])),
            has_markers <==> exists|j: int|
                0 <= j < i && is_openvpn_marker_line(trimmed(#[trigger] lines(lower@)[j])),
        decreases rows.len() - i,
    {
        assert(views(rows@)[i as int] == rows@[i as int]@);
        let t = trim(rows[i]);
        if line_begins(t, "remote ") || line_begins(t, "remote\t") {
            has_remote = true;
        }
        if line_is(t, "client") || line_begins(t, "dev ") || line_begins(t, "proto ") {
            has_markers = true;
        }
        i += 1;
    }
    assert(rows@.len() == views(rows@).len());
    if has_interface && has_peer {
        Protocol::WireGuard
    } else if has_remote || has_markers {
        Protocol::OpenVPN
    } else {
        Protocol::WireGuard
    }
}

/// Tell the protocol of a configuration from its content.
///
/// WireGuard configurations have `[Interface]` and `[Peer]` sections;
/// OpenVPN configurations have directives such as `remote`, `client`, `dev`
/// and `proto`. Case does not matter: the text is lower-cased first.
pub fn detect_protocol_from_content(content: &str) -> (r: Protocol)
    ensures
        r == protocol_for(lowercase_of(content@)),
{
    let chars = chars_of(content);
    let lower = lowercase(chars.as_slice());
    protocol_of_lower(lower.as_slice())
}

/// The stem of the file name in a path, as the standard library computes
/// it: the file name without its last extension.
pub uninterp spec fn file_stem_of(path: Seq<char>) -> Option<Seq<char>>;

/// `Path::file_stem`: the result is the stem of the path's file name, or
/// `None` where the path has no file name. Only that it depends on the path
/// alone is claimed here.
#[verifier::external_body]
fn file_stem(path: &str) -> (r: Option<String>)
    ensures
        text_of(r) == file_stem_of(path@),
{
    std::path::Path::new(path).file_stem().and_then(|s| s.to_str()).map(|s| s.to_string())
}

/// The name a profile gets from the path of its file: the stem of the file
/// name, or `unknown` where there is none.
pub open spec fn profile_name_of(path: Seq<char>) -> Seq<char> {
    match file_stem_of(path) {
        Some(stem) => stem,
        None => "unknown"@,
    }
}

/// The name a profile gets from the path of its file.
pub fn profile_name(path: &str) -> (r: String)
    ensures
        r@ == profile_name_of(path@),
{
    match file_stem(path) {
        Some(stem) => stem,
        None => String::from_str("unknown"),
    }
}

/// What a parser returns: the name and the location of the profile, or why
/// the file is no usable configuration.
pub open spec fn outcome_of(r: Result<(String, String), String>) -> Result<
    (Seq<char>, Seq<char>),
    Seq<char>,
> {
    match r {
        Ok(pair) => Ok((pair.0@, pair.1@)),
        Err(e) => Err(e@),
    }
}

/// What has been seen of a WireGuard configuration so far.
#[derive(Debug, Clone, Copy, PartialEq, Eq, Structural)]
pub struct WireGuardScan {
    /// Whether the last section header was `[Peer]`.
    pub in_peer: bool,
    /// Whether the interface section holds a `PrivateKey`.
    pub has_private_key: bool,
    /// Whether the interface section holds an `Address`.
    pub has_address: bool,
    /// Whether a peer section holds a `PublicKey`.
    pub has_public_key: bool,
    /// Whether a peer section holds an `Endpoint` with a host.
    pub has_endpoint: bool,
}

/// The scan before the first line.
pub open spec fn wireguard_start() -> WireGuardScan {
    WireGuardScan {
        in_peer: false,
        has_private_key: false,
        has_address: false,
        has_public_key: false,
        has_endpoint: false,
    }
}

/// The scan after one more line, given the trimmed line and its lower-case
/// form.
///
/// Section headers switch between interface and peer. A line `key = value`
/// counts by its key, trimmed and in lower case: `privatekey` and `address`
/// in the interface section, `publickey` and `endpoint` in a peer section.
/// An endpoint counts if its value, taken from the line as written, holds a
/// host before the first colon.
pub open spec fn wireguard_step(st: WireGuardScan, line: Seq<char>, lower_line: Seq<char>)
    -> WireGuardScan {
    if lower_line == "[peer]"@ {
        WireGuardScan { in_peer: true, ..st }
    } else if lower_line == "[interface]"@ {
        WireGuardScan { in_peer: false, ..st }
    } else if !holds_char(lower_line, '=') {
        st
    } else {
        let key = trimmed(before_char(lower_line, '='));
        if key == "privatekey"@ && !st.in_peer {
            WireGuardScan { has_private_key: true, ..st }
        } else if key == "address"@ && !st.in_peer {
            WireGuardScan { has_address: true, ..st }
        } else if key == "publickey"@ && st.in_peer {
            WireGuardScan { has_public_key: true, ..st }
        } else if key == "endpoint"@ && st.in_peer && !st.has_endpoint && holds_char(line, '=') {
            WireGuardScan {
                has_endpoint: before_char(trimmed(after_char(line, '=')), ':').len() > 0,
                ..st
            }
        } else {
            st
        }
    }
}

/// The scan after the first `upto` lines.
pub open spec fn wireguard_scan(rows: Seq<Seq<char>>, upto: int) -> WireGuardScan
    decreases upto,
{
    if upto <= 0 {
        wireguard_start()
    } else {
        wireguard_step(
            wireguard_scan(rows, upto - 1),
            trimmed(rows[upto - 1]),
            lowercase_of(trimmed(rows[upto - 1])),
        )
    }
}

/// The required fields that a scan did not find, in the order in which they
/// are reported.
pub open spec fn missing_fields(st: WireGuardScan) -> Seq<Seq<char>> {
    (if st.has_private_key {
        Seq::<Seq<char>>::empty()
    } else {
        seq!["PrivateKey"@]
    }) + (if st.has_address {
        Seq::<Seq<char>>::empty()
    } else {
        seq!["Address"@]
    }) + (if st.has_public_key {
        Seq::<Seq<char>>::empty()
    } else {
        seq!["PublicKey (in [Peer])"@]
    }) + (if st.has_endpoint {
        Seq::<Seq<char>>::empty()
    } else {
        seq!["Endpoint (in [Peer])"@]
    })
}

/// The first `upto` parts, with `sep` between them.
pub open spec fn joined(parts: Seq<Seq<char>>, sep: Seq<char>, upto: int) -> Seq<char>
    decreases upto,
{
    if upto <= 0 {
        Seq::<char>::empty()
    } else if upto == 1 {
        parts[0]
    } else {
        joined(parts, sep, upto - 1) + sep + parts[upto - 1]
    }
}

/// Why a text is no WireGuard configuration, if it is none, given whether it
/// holds the two section headers and what the scan of its lines found.
pub open spec fn wireguard_objection(has_interface: bool, has_peer: bool, scan: WireGuardScan)
    -> Option<Seq<char>> {
    let missing = missing_fields(scan);
    if !has_interface {
        Some("Missing [Interface] section in WireGuard config"@)
    } else if !has_peer {
        Some("Missing [Peer] section in WireGuard config"@)
    } else if missing.len() > 0 {
        Some(
            "Invalid WireGuard config — missing required fields: "@ + joined(
                missing,
                ", "@,
                missing.len() as int,
            ),
        )
    } else {
        None
    }
}

/// What reading a WireGuard configuration gives for a profile called `name`.
///
/// The text, in lower case, must hold `[interface]` and `[peer]`, and the
/// scan of its lines must find all four required fields. Then the result is
/// the name and the location that the name suggests.
pub open spec fn wireguard_outcome(content: Seq<char>, name: Seq<char>) -> Result<
    (Seq<char>, Seq<char>),
    Seq<char>,
> {
    let lower = lowercase_of(content);
    match wireguard_objection(
        contains(lower, "[interface]"@),
        contains(lower, "[peer]"@),
        wireguard_scan(lines(content), lines(content).len() as int),
    ) {
        Some(objection) => Err(objection),
        None => Ok((name, location_for(lowercase_of(name)))),
    }
}

/// Take one more line into a scan of a WireGuard configuration; see
/// `wireguard_step`.
pub fn wireguard_scan_line(st: WireGuardScan, line: &[char], lower_line: &[char]) -> (r:
    WireGuardScan)
    ensures
        r == wireguard_step(st, line@, lower_line@),
{
    if line_is(lower_line, "[peer]") {
        return WireGuardScan { in_peer: true, ..st };
    }
    if line_is(lower_line, "[interface]") {
        return WireGuardScan { in_peer: false, ..st };
    }
    let eq = position_of(lower_line, '=');
    if eq >= lower_line.len() {
        return st;
    }
    let key = trim(slice_subrange(lower_line, 0, eq));
    if line_is(key, "privatekey") && !st.in_peer {
        WireGuardScan { has_private_key: true, ..st }
    } else if line_is(key, "address") && !st.in_peer {
        WireGuardScan { has_address: true, ..st }
    } else if line_is(key, "publickey") && st.in_peer {
        WireGuardScan { has_public_key: true, ..st }
    } else if line_is(key, "endpoint") && st.in_peer && !st.has_endpoint {
        let at = position_of(line, '=');
        if at < line.len() {
            let value = trim(slice_subrange(line, at + 1, line.len()));
            let colon = position_of(value, ':');
            WireGuardScan { has_endpoint: colon > 0, ..st }
        } else {
            st
        }
    } else {
        st
    }
}

/// Join texts with a separator between them.
pub fn join(parts: &Vec<&'static str>, sep: &str) -> (r: String)
    ensures
        r@ == joined(str_views(parts@), sep@, parts@.len() as int),
{
    let mut out = String::new();
    let mut i: usize = 0;
    while i < parts.len()
        invariant
            i <= parts.len(),
            out@ == joined(str_views(parts@), sep@, i as int),
        decreases parts.len() - i,
    {
        assert(str_views(parts@)[i as int] == parts@[i as int]@);
        if i > 0 {
            out.append(sep);
        }
        out.append(parts[i]);
        i += 1;
        assert(out@ =~= joined(str_views(parts@), sep@, i as int));
    }
    out
}

fn missing_list(st: WireGuardScan) -> (r: Vec<&'static str>)
    ensures
        str_views(r@) == missing_fields(st),
{
    let mut missing: Vec<&'static str> = Vec::new();
    if !st.has_private_key {
        missing.push("PrivateKey");
    }
    if !st.has_address {
        missing.push("Address");
    }
    if !st.has_public_key {
        missing.push("PublicKey (in [Peer])");
    }
    if !st.has_endpoint {
        missing.push("Endpoint (in [Peer])");
    }
    assert(str_views(missing@) =~= missing_fields(st));
    missing
}

/// Judge a WireGuard configuration by whether it holds the two section
/// headers and by what the scan of its lines found; see
/// `wireguard_objection`.
pub fn wireguard_verdict(has_interface: bool, has_peer: bool, scan: WireGuardScan) -> (r: Result<
    (),
    String,
>)
    ensures
        r is Ok <==> wireguard_objection(has_interface, has_peer, scan) is None,
        r matches Err(e) ==> Some(e@) == wireguard_objection(has_interface, has_peer, scan),
{
    if !has_interface {
        return Err(String::from_str("Missing [Interface] section in WireGuard config"));
    }
    if !has_peer {
        return Err(String::from_str("Missing [Peer] section in WireGuard config"));
    }
    let missing = missing_list(scan);
    assert(str_views(missing@).len() == missing@.len());
    if missing.len() > 0 {
        let mut message = String::from_str("Invalid WireGuard config — missing required fields: ");
        let list = join(&missing, ", ");
        message.append(list.as_str());
        return Err(message);
    }
    Ok(())
}

/// Read and check a WireGuard configuration.
///
/// Required are the sections `[Interface]` and `[Peer]`, `PrivateKey` and
/// `Address` in the first, and `PublicKey` and `Endpoint` in the second.
/// Case does not matter, nor does white space around `=`. On success the
/// result is the profile's name, taken from `path`, and the location that
/// the name suggests.
pub fn parse_wireguard_config(content: &str, path: &str) -> (r: Result<(String, String), String>)
    ensures
        outcome_of(r) == wireguard_outcome(content@, profile_name_of(path@)),
{
    let name = profile_name(path);
    let chars = chars_of(content);
    let lower = lowercase(chars.as_slice());
    let has_interface = text_has(lower.as_slice(), "[interface]");
    let has_peer = text_has(lower.as_slice(), "[peer]");
    let rows = split_lines(chars.as_slice());
    let mut st = WireGuardScan {
        in_peer: false,
        has_private_key: false,
        has_address: false,
        has_public_key: false,
        has_endpoint: false,
    };
    let mut i: usize = 0;
    while i < rows.len()
        invariant
            i <= rows.len(),
            views(rows@) == lines(content@),
            st == wireguard_scan(lines(content@), i as int),
        decreases rows.len() - i,
    {
        assert(views(rows@)[i as int] == rows@[i as int]@);
        let line = trim(rows[i]);
        let lower_line = lowercase(line);
        st = wireguard_scan_line(st, line, lower_line.as_slice());
        i += 1;
    }
    assert(rows@.len() == views(rows@).len());
    match wireguard_verdict(has_interface, has_peer, st) {
        Err(e) => Err(e),
        Ok(()) => {
            let location = derive_location_from_name(name.as_str());
            Ok((name, location))
        },
    }
}

/// The beginnings of lines that only an OpenVPN configuration holds:
/// directives first, then the tags that open an inline block.
pub open spec fn openvpn_markers() -> Seq<Seq<char>> {
    seq![
        "client"@,
        "dev "@,
        "dev\t"@,
        "proto "@,
        "proto\t"@,
        "ca "@,
        "cert "@,
        "key "@,
        "tls-auth"@,
        "tls-crypt"@,
        "cipher "@,
        "auth "@,
        "resolv-retry"@,
        "nobind"@,
        "persist-key"@,
        "persist-tun"@,
        "verb "@,
        "remote-cert-tls"@,
        "comp-lzo"@,
        "<ca>"@,
        "<cert>"@,
        "<key>"@,
        "<tls-auth>"@,
        "<tls-crypt>"@,
    ]
}

/// Whether a lower-case line begins with one of the OpenVPN markers.
pub open spec fn begins_with_marker(lower_line: Seq<char>) -> bool {
    exists|k: int|
        0 <= k < openvpn_markers().len() && starts_with(lower_line, #[trigger] openvpn_markers()[k])
}

/// What has been seen of an OpenVPN configuration so far.
#[derive(Debug, Clone, Copy, PartialEq, Eq, Structural)]
pub struct OpenVpnScan {
    /// Whether a `remote` line named a server.
    pub has_server: bool,
    /// Whether a line began with an OpenVPN marker.
    pub has_structure: bool,
}

/// The scan after one more line, given the trimmed line and its lower-case
/// form.
///
/// A line that begins with `remote` and a space names a server if it has a
/// second word. A line that begins with a marker shows the structure of an
/// OpenVPN configuration.
pub open spec fn openvpn_step(st: OpenVpnScan, line: Seq<char>, lower_line: Seq<char>)
    -> OpenVpnScan {
    OpenVpnScan {
        has_server: st.has_server || (starts_with(lower_line, "remote "@) && words(line).len()
            >= 2),
        has_structure: st.has_structure || begins_with_marker(lower_line),
    }
}

/// The scan after the first `upto` lines.
pub open spec fn openvpn_scan(rows: Seq<Seq<char>>, upto: int) -> OpenVpnScan
    decreases upto,
{
    if upto <= 0 {
        OpenVpnScan { has_server: false, has_structure: false }
    } else {
        openvpn_step(
            openvpn_scan(rows, upto - 1),
            trimmed(rows[upto - 1]),
            lowercase_of(trimmed(rows[upto - 1])),
        )
    }
}

/// Why a text is no OpenVPN configuration, if it is none, given what the
/// scan of its lines found.
pub open spec fn openvpn_objection(scan: OpenVpnScan) -> Option<Seq<char>> {
    if !scan.has_server {
        Some("No 'remote' directive found in OpenVPN config"@)
    } else if !scan.has_structure {
        Some("File has a 'remote' line but no OpenVPN directives (client, dev, proto, etc.)"@)
    } else {
        None
    }
}

/// What reading an OpenVPN configuration gives for a profile called `name`.
///
/// The scan of its lines must find a server and the structure of an OpenVPN
/// configuration. Then the result is the name and the location that the name
/// suggests.
pub open spec fn openvpn_outcome(content: Seq<char>, name: Seq<char>) -> Result<
    (Seq<char>, Seq<char>),
    Seq<char>,
> {
    match openvpn_objection(openvpn_scan(lines(content), lines(content).len() as int)) {
        Some(objection) => Err(objection),
        None => Ok((name, location_for(lowercase_of(name)))),
    }
}

fn marker_entry(k: usize) -> (r: &'static str)
    requires
        k < 24,
    ensures
        openvpn_markers().len() == 24,
        r@ == openvpn_markers()[k as int],
{
    match k {
        0 => "client",
        1 => "dev ",
        2 => "dev\t",
        3 => "proto ",
        4 => "proto\t",
        5 => "ca ",
        6 => "cert ",
        7 => "key ",
        8 => "tls-auth",
        9 => "tls-crypt",
        10 => "cipher ",
        11 => "auth ",
        12 => "resolv-retry",
        13 => "nobind",
        14 => "persist-key",
        15 => "persist-tun",
        16 => "verb ",
        17 => "remote-cert-tls",
        18 => "comp-lzo",
        19 => "<ca>",
        20 => "<cert>",
        21 => "<key>",
        22 => "<tls-auth>",
        _ => "<tls-crypt>",
    }
}

fn line_has_marker(lower_line: &[char]) -> (b: bool)
    ensures
        b == begins_with_marker(lower_line@),
{
    let mut k: usize = 0;
    while k < 24
        invariant
            k <= 24,
            openvpn_markers().len() == 24,
            forall|j: int| 0 <= j < k ==> !starts_with(lower_line@, #[trigger] openvpn_markers()[j]),
        decreases 24 - k,
    {
        if line_begins(lower_line, marker_entry(k)) {
            return true;
        }
        k += 1;
    }
    false
}

/// Take one more line into a scan of an OpenVPN configuration; see
/// `openvpn_step`.
pub fn openvpn_scan_line(st: OpenVpnScan, line: &[char], lower_line: &[char]) -> (r: OpenVpnScan)
    ensures
        r == openvpn_step(st, line@, lower_line@),
{
    let mut has_server = st.has_server;
    if !has_server && line_begins(lower_line, "remote ") {
        let parts = split_words(line);
        assert(views(parts@).len() == parts@.len());
        if parts.len() >= 2 {
            has_server = true;
        }
    }
    let has_structure = st.has_structure || line_has_marker(lower_line);
    OpenVpnScan { has_server, has_structure }
}

/// Judge an OpenVPN configuration by what the scan of its lines found; see
/// `openvpn_objection`.
pub fn openvpn_verdict(scan: OpenVpnScan) -> (r: Result<(), String>)
    ensures
        r is Ok <==> openvpn_objection(scan) is None,
        r matches Err(e) ==> Some(e@) == openvpn_objection(scan),
{
    if !scan.has_server {
        return Err(String::from_str("No 'remote' directive found in OpenVPN config"));
    }
    if !scan.has_structure {
        return Err(
            String::from_str(
                "File has a 'remote' line but no OpenVPN directives (client, dev, proto, etc.)",
            ),
        );
    }
    Ok(())
}

/// Read and check an OpenVPN configuration.
///
/// Required are a `remote` directive that names a server and at least one
/// line that only an OpenVPN configuration holds, so that a text file with a
/// stray `remote` line does not pass. On success the result is the profile's
/// name, taken from `path`, and the location that the name suggests.
pub fn parse_openvpn_config(content: &str, path: &str) -> (r: Result<(String, String), String>)
    ensures
        outcome_of(r) == openvpn_outcome(content@, profile_name_of(path@)),
{
    let name = profile_name(path);
    let chars = chars_of(content);
    let rows = split_lines(chars.as_slice());
    let mut st = OpenVpnScan { has_server: false, has_structure: false };
    let mut i: usize = 0;
    while i < rows.len()
        invariant
            i <= rows.len(),
            views(rows@) == lines(content@),
            st == openvpn_scan(lines(content@), i as int),
        decreases rows.len() - i,
    {
        assert(views(rows@)[i as int] == rows@[i as int]@);
        let line = trim(rows[i]);
        let lower_line = lowercase(line);
        st = openvpn_scan_line(st, line, lower_line.as_slice());
        i += 1;
    }
    assert(rows@.len() == views(rows@).len());
    match openvpn_verdict(st) {
        Err(e) => Err(e),
        Ok(()) => {
            let location = derive_location_from_name(name.as_str());
            Ok((name, location))
        },
    }
}

/// The largest configuration file that is read, in bytes.
pub const MAX_CONFIG_SIZE_BYTES: u64 = 1_048_576;

/// The extension of the file name in a path, as the standard library computes
/// it: what follows the last dot of the file name.
pub uninterp spec fn extension_of(path: Seq<char>) -> Option<Seq<char>>;

/// `Path::extension`: the result is the extension of the path's file name,
/// or `None` where it has none. Only that it depends on the path alone is
/// claimed here.
#[verifier::external_body]
pub(crate) fn file_extension(path: &str) -> (r: Option<String>)
    ensures
        text_of(r) == extension_of(path@),
{
    std::path::Path::new(path).extension().and_then(|s| s.to_str()).map(|s| s.to_string())
}

/// The extension of a path, or the empty text where it has none.
pub open spec fn extension_or_empty(path: Seq<char>) -> Seq<char> {
    match extension_of(path) {
        Some(ext) => ext,
        None => Seq::<char>::empty(),
    }
}

/// Why a file of that size is not read, if it is not.
pub open spec fn size_objection(size: u64) -> Option<Seq<char>> {
    if size > MAX_CONFIG_SIZE_BYTES {
        Some(
            "File too large ("@ + crate::text::decimal(size as nat)
                + " bytes). VPN configs should be under 1 MB"@,
        )
    } else if size == 0 {
        Some("File is empty"@)
    } else {
        None
    }
}

/// Check the size of a file before it is read: it must not be empty and not
/// larger than `MAX_CONFIG_SIZE_BYTES`.
pub fn check_config_size(size: u64) -> (r: Result<(), String>)
    ensures
        r is Ok <==> size_objection(size) is None,
        r matches Err(e) ==> Some(e@) == size_objection(size),
{
    if size > MAX_CONFIG_SIZE_BYTES {
        let mut e = String::from_str("File too large (");
        crate::text::push_decimal(&mut e, size);
        e.append(" bytes). VPN configs should be under 1 MB");
        Err(e)
    } else if size == 0 {
        Err(String::from_str("File is empty"))
    } else {
        Ok(())
    }
}

/// What is said of a file that does not exist.
pub fn file_not_found(path: &str) -> (r: String)
    ensures
        r@ == "File not found: "@ + path@,
{
    let mut e = String::from_str("File not found: ");
    e.append(path);
    e
}

/// A profile that was read and checked, before its file is copied.
#[derive(Debug, Clone, PartialEq)]
pub struct ProfileDraft {
    /// Name of the profile.
    pub name: String,
    /// Protocol of the configuration.
    pub protocol: Protocol,
    /// Location that the name suggests.
    pub location: String,
    /// Extension of the file, in lower case.
    pub extension: String,
}

/// The model of a profile draft.
pub struct DraftView {
    /// Name of the profile.
    pub name: Seq<char>,
    /// Protocol of the configuration.
    pub protocol: Protocol,
    /// Location that the name suggests.
    pub location: Seq<char>,
    /// Extension of the file, in lower case.
    pub extension: Seq<char>,
}

impl View for ProfileDraft {
    type V = DraftView;

    open spec fn view(&self) -> DraftView {
        DraftView {
            name: self.name@,
            protocol: self.protocol,
            location: self.location@,
            extension: self.extension@,
        }
    }
}

/// What the extension of a file says about it.
#[derive(Debug, Clone, Copy, PartialEq, Eq, Structural)]
pub enum FileKind {
    /// An OpenVPN configuration.
    OpenVpn,
    /// A configuration whose protocol the content has to tell.
    Ambiguous,
    /// No profile.
    Unsupported,
}

/// What a lower-case extension says: `ovpn` is OpenVPN, `conf` is told by the
/// content, anything else is no profile.
pub open spec fn kind_by_extension(ext: Seq<char>) -> FileKind {
    if ext == "ovpn"@ {
        FileKind::OpenVpn
    } else if ext == "conf"@ {
        FileKind::Ambiguous
    } else {
        FileKind::Unsupported
    }
}

/// The protocol of a file with that lower-case extension and that content,
/// if it is a profile.
pub open spec fn protocol_by_extension(ext: Seq<char>, content: Seq<char>) -> Option<Protocol> {
    match kind_by_extension(ext) {
        FileKind::OpenVpn => Some(Protocol::OpenVPN),
        FileKind::Ambiguous => Some(protocol_for(lowercase_of(content))),
        FileKind::Unsupported => None,
    }
}

/// What a lower-case extension says about a file; see `kind_by_extension`.
pub fn file_kind(ext_lower: &[char]) -> (r: FileKind)
    ensures
        r == kind_by_extension(ext_lower@),
{
    if line_is(ext_lower, "ovpn") {
        FileKind::OpenVpn
    } else if line_is(ext_lower, "conf") {
        FileKind::Ambiguous
    } else {
        FileKind::Unsupported
    }
}

/// What is said of a file whose extension, given in lower case, is not that
/// of a profile.
pub fn unsupported_file_type(ext_lower: &[char]) -> (r: String)
    ensures
        r@ == "Unsupported file type: ."@ + ext_lower@ + " (expected .conf or .ovpn)"@,
{
    let mut e = String::from_str("Unsupported file type: .");
    let shown = crate::text::string_of(ext_lower);
    e.append(shown.as_str());
    e.append(" (expected .conf or .ovpn)");
    e
}

/// What reading a configuration of a given protocol gives.
pub open spec fn parse_outcome(protocol: Protocol, content: Seq<char>, name: Seq<char>) -> Result<
    (Seq<char>, Seq<char>),
    Seq<char>,
> {
    match protocol {
        Protocol::WireGuard => wireguard_outcome(content, name),
        Protocol::OpenVPN => openvpn_outcome(content, name),
    }
}

/// What drafting a profile from a file gives.
pub open spec fn draft_outcome(path: Seq<char>, content: Seq<char>) -> Result<DraftView, Seq<char>> {
    let ext = lowercase_of(extension_or_empty(path));
    match protocol_by_extension(ext, content) {
        None => Err("Unsupported file type: ."@ + ext + " (expected .conf or .ovpn)"@),
        Some(protocol) => match parse_outcome(protocol, content, profile_name_of(path)) {
            Ok(pair) => Ok(DraftView { name: pair.0, protocol, location: pair.1, extension: ext }),
            Err(e) => Err(e),
        },
    }
}

/// The view of the result of drafting.
pub open spec fn draft_result_of(r: Result<ProfileDraft, String>) -> Result<DraftView, Seq<char>> {
    match r {
        Ok(d) => Ok(d@),
        Err(e) => Err(e@),
    }
}

fn parse_as(protocol: Protocol, content: &str, path: &str) -> (r: Result<(String, String), String>)
    ensures
        outcome_of(r) == parse_outcome(protocol, content@, profile_name_of(path@)),
{
    match protocol {
        Protocol::WireGuard => parse_wireguard_config(content, path),
        Protocol::OpenVPN => parse_openvpn_config(content, path),
    }
}

/// Read and check the file to import: tell its protocol by its extension,
/// and for `.conf` by its content, then check it as a configuration of that
/// protocol.
pub fn draft_profile(path: &str, content: &str) -> (r: Result<ProfileDraft, String>)
    ensures
        draft_result_of(r) == draft_outcome(path@, content@),
{
    let raw = match file_extension(path) {
        Some(ext) => ext,
        None => String::new(),
    };
    let raw_chars = chars_of(raw.as_str());
    let ext = lowercase(raw_chars.as_slice());
    let protocol = match file_kind(ext.as_slice()) {
        FileKind::OpenVpn => Protocol::OpenVPN,
        FileKind::Ambiguous => detect_protocol_from_content(content),
        FileKind::Unsupported => {
            return Err(unsupported_file_type(ext.as_slice()));
        },
    };
    match parse_as(protocol, content, path) {
        Ok((name, location)) => Ok(
            ProfileDraft {
                name,
                protocol,
                location,
                extension: crate::text::string_of(ext.as_slice()),
            },
        ),
        Err(e) => Err(e),
    }
}

impl ProfileDraft {
    /// The file name under which the profile is to be stored: its name, a
    /// dot, and its extension.
    pub fn file_name(&self) -> (r: String)
        ensures
            r@ == self.name@ + "."@ + self.extension@,
    {
        let mut r = self.name.clone();
        r.append(".");
        r.append(self.extension.as_str());
        r
    }

    /// The profile as it is once its file was stored at `dest_path`. The
    /// name follows the file: where storing had to pick another file name,
    /// the profile is called by that.
    pub fn stored_at(self, dest_path: &str) -> (r: VpnProfile)
        ensures
            r.name@ == match file_stem_of(dest_path@) {
                Some(stem) => stem,
                None => self.name@,
            },
            r.protocol == self.protocol,
            r.location@ == self.location@,
            r.config_path@ == dest_path@,
            r.last_used is None,
    {
        let name = match file_stem(dest_path) {
            Some(stem) => stem,
            None => self.name,
        };
        VpnProfile {
            name,
            protocol: self.protocol,
            location: self.location,
            config_path: String::from_str(dest_path),
            last_used: None,
        }
    }
}

/// Whether a file in the profiles directory is a profile, judged by its
/// extension as written: `conf` or `ovpn`.
pub fn is_profile_file(path: &str) -> (b: bool)
    ensures
        b == (extension_or_empty(path@) == "conf"@ || extension_or_empty(path@) == "ovpn"@),
{
    let ext = match file_extension(path) {
        Some(ext) => ext,
        None => String::new(),
    };
    let chars = chars_of(ext.as_str());
    line_is(chars.as_slice(), "conf") || line_is(chars.as_slice(), "ovpn")
}

/// What loading a stored profile gives.
pub open spec fn load_outcome(path: Seq<char>, content: Seq<char>) -> Result<DraftView, Seq<char>> {
    let protocol = if extension_or_empty(path) == "ovpn"@ {
        Protocol::OpenVPN
    } else {
        protocol_for(lowercase_of(content))
    };
    match parse_outcome(protocol, content, profile_name_of(path)) {
        Ok(pair) => Ok(
            DraftView {
                name: pair.0,
                protocol,
                location: pair.1,
                extension: extension_or_empty(path),
            },
        ),
        Err(e) => Err(e),
    }
}

/// Load one stored profile from its path and its content.
///
/// A file with the extension `ovpn` is read as OpenVPN; any other is told by
/// its content. The error says why the file was skipped.
pub fn load_profile(path: &str, content: &str) -> (r: Result<VpnProfile, String>)
    ensures
        r is Ok <==> load_outcome(path@, content@) is Ok,
        r matches Ok(profile) ==> {
            let draft = load_outcome(path@, content@)->Ok_0;
            &&& profile.name@ == draft.name
            &&& profile.protocol == draft.protocol
            &&& profile.location@ == draft.location
            &&& profile.config_path@ == path@
            &&& profile.last_used is None
        },
        r matches Err(e) ==> Err::<DraftView, Seq<char>>(e@) == load_outcome(path@, content@),
{
    let ext = match file_extension(path) {
        Some(ext) => ext,
        None => String::new(),
    };
    let chars = chars_of(ext.as_str());
    let protocol = if line_is(chars.as_slice(), "ovpn") {
        Protocol::OpenVPN
    } else {
        detect_protocol_from_content(content)
    };
    match parse_as(protocol, content, path) {
        Ok((name, location)) => Ok(
            VpnProfile {
                name,
                protocol,
                location,
                config_path: String::from_str(path),
                last_used: None,
            },
        ),
        Err(e) => Err(e),
    }
}

/// How many of the first `upto` profiles use `protocol`.
pub open spec fn count_of(profiles: Seq<VpnProfile>, protocol: Protocol, upto: int) -> nat
    decreases upto,
{
    if upto <= 0 {
        0
    } else {
        count_of(profiles, protocol, upto - 1) + if profiles[upto - 1].protocol == protocol {
            1nat
        } else {
            0nat
        }
    }
}

/// Count the profiles by protocol: WireGuard first, OpenVPN second.
pub fn count_by_protocol(profiles: &Vec<VpnProfile>) -> (r: (usize, usize))
    ensures
        r.0 == count_of(profiles@, Protocol::WireGuard, profiles@.len() as int),
        r.1 == count_of(profiles@, Protocol::OpenVPN, profiles@.len() as int),
{
    let mut wireguard: usize = 0;
    let mut openvpn: usize = 0;
    let mut i: usize = 0;
    while i < profiles.len()
        invariant
            i <= profiles.len(),
            wireguard == count_of(profiles@, Protocol::WireGuard, i as int),
            openvpn == count_of(profiles@, Protocol::OpenVPN, i as int),
            wireguard + openvpn == i,
        decreases profiles.len() - i,
    {
        match profiles[i].protocol {
            Protocol::WireGuard => {
                wireguard += 1;
            },
            Protocol::OpenVPN => {
                openvpn += 1;
            },
        }
        i += 1;
    }
    (wireguard, openvpn)
}

} // verus!
