//! Reading what the telemetry probes returned.
//!
//! The probes themselves, HTTP lookups and system commands, run outside this
//! crate. What they print is read here.

use vstd::prelude::*;
use vstd::slice::slice_subrange;
use vstd::string::StringExecFns;

use crate::text::{
    str_views, text_of, after_char, before_char, begins_with, chars_of, contains, holds_char, occurs_at, find, find_in, index_of_char, is_ascii_digit, lines, parse_u64,
    parsed_u64, position_of, split_lines, split_words, starts_with, string_of, trim, trim_start,
    trimmed, trimmed_start, views, words,
};

verus! {

/// The text that introduces the value of `key` in a JSON object.
pub open spec fn json_key_pattern(key: Seq<char>) -> Seq<char> {
    seq!['"'] + key + seq!['"', ':']
}

/// The string value that follows the first `"key":` in `json`.
///
/// After the key and any white space an opening quote must follow; the value
/// runs up to the next quote. Escapes are not interpreted.
pub open spec fn json_string_value(json: Seq<char>, key: Seq<char>) -> Option<Seq<char>> {
    let pattern = json_key_pattern(key);
    match find(json, pattern) {
        None => None,
        Some(at) => {
            let rest = trimmed_start(json.subrange(at + pattern.len(), json.len() as int));
            if rest.len() == 0 || rest[0] != '"' {
                None
            } else {
                let body = rest.subrange(1, rest.len() as int);
                let end = index_of_char(body, '"', 0);
                if end >= body.len() {
                    None
                } else {
                    Some(body.subrange(0, end))
                }
            }
        },
    }
}

/// Extract a string value from a simple JSON object: the value of the first
/// `"key": "value"` pair.
pub fn extract_json_string(json: &str, key: &str) -> (r: Option<String>)
    ensures
        r is Some <==> json_string_value(json@, key@) is Some,
        r matches Some(v) ==> v@ == json_string_value(json@, key@)->0,
{
    let text = chars_of(json);
    let mut pattern: Vec<char> = Vec::new();
    pattern.push('"');
    let mut key_chars = chars_of(key);
    pattern.append(&mut key_chars);
    pattern.push('"');
    pattern.push(':');
    assert(pattern@ =~= json_key_pattern(key@));
    let at = match find_in(text.as_slice(), pattern.as_slice()) {
        Some(at) => at,
        None => {
            return None;
        },
    };
    let total = text.len();
    assert(at + pattern@.len() <= total);
    let rest = trim_start(slice_subrange(text.as_slice(), at + pattern.len(), total));
    if rest.len() == 0 || rest[0] != '"' {
        return None;
    }
    let body = slice_subrange(rest, 1, rest.len());
    let end = position_of(body, '"');
    if end >= body.len() {
        return None;
    }
    Some(string_of(slice_subrange(body, 0, end)))
}

/// How a city and a country are shown together.
pub open spec fn location_of(city: Option<Seq<char>>, country: Option<Seq<char>>) -> Option<
    Seq<char>,
> {
    match (city, country) {
        (Some(c), Some(ct)) => Some(c + ", "@ + ct),
        (Some(c), None) => Some(c),
        (None, Some(ct)) => Some(ct),
        (None, None) => None,
    }
}

/// Join a city and a country into one label, as far as they are known.
pub fn location_label(city: Option<String>, country: Option<String>) -> (r: Option<String>)
    ensures
        r is Some <==> (city is Some || country is Some),
        r matches Some(label) ==> Some(label@) == location_of(
            match city {
                Some(c) => Some(c@),
                None => None,
            },
            match country {
                Some(c) => Some(c@),
                None => None,
            },
        ),
{
    match (city, country) {
        (Some(c), Some(ct)) => {
            let mut label = c;
            label.append(", ");
            label.append(ct.as_str());
            Some(label)
        },
        (Some(c), None) => Some(c),
        (None, Some(ct)) => Some(ct),
        (None, None) => None,
    }
}

/// What the address lookup said: the address, and the provider and the
/// location where the answer names them.
#[derive(Debug, Clone, PartialEq)]
pub struct AddressInfo {
    /// The public address.
    pub ip: String,
    /// The provider, if the answer names it.
    pub isp: Option<String>,
    /// City and country, as far as the answer names them.
    pub location: Option<String>,
}

/// Read the answer of the address lookup, a JSON object with the keys `ip`,
/// `org`, `city` and `country`. Without an `ip` there is no answer.
pub fn parse_address_info(text: &str) -> (r: Option<AddressInfo>)
    ensures
        r is Some <==> json_string_value(text@, "ip"@) is Some,
        r matches Some(info) ==> {
            &&& info.ip@ == json_string_value(text@, "ip"@)->0
            &&& text_of(info.isp) == json_string_value(text@, "org"@)
            &&& text_of(info.location) == location_of(
                json_string_value(text@, "city"@),
                json_string_value(text@, "country"@),
            )
        },
{
    match extract_json_string(text, "ip") {
        Some(ip) => {
            let isp = extract_json_string(text, "org");
            let city = extract_json_string(text, "city");
            let country = extract_json_string(text, "country");
            let location = location_label(city, country);
            Some(AddressInfo { ip, isp, location })
        },
        None => None,
    }
}

/// Whether a text is made of digits and dots only.
pub open spec fn digits_and_dots(s: Seq<char>) -> bool {
    forall|i: int| 0 <= i < s.len() ==> is_ascii_digit(#[trigger] s[i]) || s[i] == '.'
}

/// Read a bare address: the trimmed text, if it is not empty and holds
/// nothing but digits and dots.
pub fn parse_plain_ip(text: &str) -> (r: Option<String>)
    ensures
        r is Some <==> trimmed(text@).len() > 0 && digits_and_dots(trimmed(text@)),
        r matches Some(ip) ==> ip@ == trimmed(text@),
{
    let chars = chars_of(text);
    let t = trim(chars.as_slice());
    if t.len() == 0 {
        return None;
    }
    let mut i: usize = 0;
    while i < t.len()
        invariant
            i <= t.len(),
            t@ == trimmed(text@),
            forall|j: int| 0 <= j < i ==> is_ascii_digit(#[trigger] t@[j]) || t@[j] == '.',
        decreases t.len() - i,
    {
        let c = t[i];
        if !((c >= '0' && c <= '9') || c == '.') {
            assert(!is_ascii_digit(t@[i as int]) && t@[i as int] != '.');
            return None;
        }
        i += 1;
    }
    Some(string_of(t))
}

/// Read a one-line answer: the trimmed text, if it is not empty.
pub fn parse_trimmed_line(text: &str) -> (r: Option<String>)
    ensures
        r is Some <==> trimmed(text@).len() > 0,
        r matches Some(v) ==> v@ == trimmed(text@),
{
    let chars = chars_of(text);
    let t = trim(chars.as_slice());
    if t.len() == 0 {
        None
    } else {
        Some(string_of(t))
    }
}

/// The received and sent byte counts of one row of the interface table.
///
/// A row counts if it has at least ten columns, its interface is no loopback
/// (its name does not begin with `lo`), and the seventh and the tenth column
/// are numbers.
pub open spec fn interface_row(line: Seq<char>) -> Option<(u64, u64)> {
    let parts = words(line);
    if parts.len() >= 10 && !starts_with(parts[0], "lo"@) && parsed_u64(parts[6]) is Some
        && parsed_u64(parts[9]) is Some {
        Some((parsed_u64(parts[6])->0, parsed_u64(parts[9])->0))
    } else {
        None
    }
}

/// Bytes received over all rows before `upto`, the header row left out.
pub open spec fn received_total(rows: Seq<Seq<char>>, upto: int) -> nat
    decreases upto,
{
    if upto <= 1 {
        0
    } else {
        received_total(rows, upto - 1) + match interface_row(rows[upto - 1]) {
            Some(row) => row.0 as nat,
            None => 0,
        }
    }
}

/// Bytes sent over all rows before `upto`, the header row left out.
pub open spec fn sent_total(rows: Seq<Seq<char>>, upto: int) -> nat
    decreases upto,
{
    if upto <= 1 {
        0
    } else {
        sent_total(rows, upto - 1) + match interface_row(rows[upto - 1]) {
            Some(row) => row.1 as nat,
            None => 0,
        }
    }
}

/// A count as `u64`: the count itself, or the largest value if it is larger.
pub open spec fn capped(n: nat) -> u64 {
    if n > u64::MAX {
        u64::MAX
    } else {
        n as u64
    }
}

/// How far a counter moved since the last reading; zero if it fell back.
pub open spec fn rate(last: u64, total: u64) -> u64 {
    if total >= last {
        (total - last) as u64
    } else {
        0
    }
}

/// Read one row of the interface table.
pub fn parse_interface_row(line: &[char]) -> (r: Option<(u64, u64)>)
    ensures
        r == interface_row(line@),
{
    let parts = split_words(line);
    if parts.len() < 10 {
        return None;
    }
    let lo = chars_of("lo");
    assert(views(parts@)[0] == parts@[0]@);
    assert(views(parts@)[6] == parts@[6]@);
    assert(views(parts@)[9] == parts@[9]@);
    if begins_with(parts[0], lo.as_slice()) {
        return None;
    }
    match (parse_u64(parts[6]), parse_u64(parts[9])) {
        (Some(received), Some(sent)) => Some((received, sent)),
        _ => None,
    }
}

/// Add up the interface table that `netstat -ib` prints: bytes received and
/// bytes sent over all interfaces but loopback. A sum too large for `u64` is
/// reported as the largest value.
pub fn interface_totals(output: &str) -> (r: (u64, u64))
    ensures
        r.0 == capped(received_total(lines(output@), lines(output@).len() as int)),
        r.1 == capped(sent_total(lines(output@), lines(output@).len() as int)),
{
    let chars = chars_of(output);
    let rows = split_lines(chars.as_slice());
    let mut received: u64 = 0;
    let mut sent: u64 = 0;
    let mut i: usize = 1;
    if rows.len() <= 1 {
        return (0, 0);
    }
    while i < rows.len()
        invariant
            1 <= i <= rows.len(),
            views(rows@) == lines(output@),
            received == capped(received_total(lines(output@), i as int)),
            sent == capped(sent_total(lines(output@), i as int)),
        decreases rows.len() - i,
    {
        assert(views(rows@)[i as int] == rows@[i as int]@);
        match parse_interface_row(rows[i]) {
            Some((row_received, row_sent)) => {
                received = received.saturating_add(row_received);
                sent = sent.saturating_add(row_sent);
            },
            None => {},
        }
        i += 1;
    }
    assert(rows@.len() == views(rows@).len());
    (received, sent)
}

/// Tracks the byte counters of the network interfaces between two readings.
#[derive(Debug)]
pub struct NetworkStats {
    /// Bytes received at the last reading.
    pub last_bytes_in: u64,
    /// Bytes sent at the last reading.
    pub last_bytes_out: u64,
}

impl Default for NetworkStats {
    fn default() -> (r: NetworkStats)
        ensures
            r.last_bytes_in == 0,
            r.last_bytes_out == 0,
    {
        NetworkStats { last_bytes_in: 0, last_bytes_out: 0 }
    }
}

impl NetworkStats {
    /// Take in a new reading of the interface table and return how many
    /// bytes came in and went out since the last one.
    ///
    /// `output` is what `netstat -ib` printed, or `None` if it could not be
    /// run: then nothing changes and both rates are zero. The first reading
    /// only sets the baseline, and so does every reading that follows a
    /// received total of zero.
    pub fn update(&mut self, output: Option<&str>) -> (r: (u64, u64))
        ensures
            output is None ==> *final(self) == *old(self) && r == (0u64, 0u64),
            output matches Some(text) ==> {
                let received = capped(received_total(lines(text@), lines(text@).len() as int));
                let sent = capped(sent_total(lines(text@), lines(text@).len() as int));
                &&& final(self).last_bytes_in == received
                &&& final(self).last_bytes_out == sent
                &&& r == if old(self).last_bytes_in > 0 {
                    (rate(old(self).last_bytes_in, received), rate(old(self).last_bytes_out, sent))
                } else {
                    (0u64, 0u64)
                }
            },
    {
        match output {
            None => (0, 0),
            Some(text) => {
                let (received, sent) = interface_totals(text);
                let rates = if self.last_bytes_in > 0 {
                    (
                        received.saturating_sub(self.last_bytes_in),
                        sent.saturating_sub(self.last_bytes_out),
                    )
                } else {
                    (0, 0)
                };
                self.last_bytes_in = received;
                self.last_bytes_out = sent;
                rates
            },
        }
    }
}

/// A text from `from` on, with every occurrence of a non-empty pattern left
/// out, occurrences taken from left to right.
pub open spec fn without_from(s: Seq<char>, p: Seq<char>, from: int) -> Seq<char>
    decreases s.len() - from,
{
    if from < 0 || from >= s.len() || p.len() == 0 {
        Seq::<char>::empty()
    } else if occurs_at(s, p, from) {
        without_from(s, p, from + p.len())
    } else {
        seq![s[from]] + without_from(s, p, from + 1)
    }
}

/// The name server that the first `nameserver` line of `resolv.conf` names:
/// the line without the word `nameserver`, trimmed, if anything is left.
pub open spec fn resolv_conf_dns(output: Seq<char>) -> Option<Seq<char>> {
    if lines(output).len() == 0 {
        None
    } else {
        let dns = trimmed(without_from(lines(output)[0], "nameserver"@, 0));
        if dns.len() > 0 {
            Some(dns)
        } else {
            None
        }
    }
}

/// Read the name server from the `nameserver` lines of `resolv.conf`.
pub fn dns_from_resolv_conf(output: &str) -> (r: Option<String>)
    ensures
        text_of(r) == resolv_conf_dns(output@),
{
    let chars = chars_of(output);
    let rows = split_lines(chars.as_slice());
    if rows.len() == 0 {
        assert(views(rows@).len() == 0);
        return None;
    }
    assert(views(rows@)[0] == rows@[0]@);
    let line = rows[0];
    let word = chars_of("nameserver");
    proof {
        reveal_strlit("nameserver");
    }
    let mut kept: Vec<char> = Vec::new();
    let mut i: usize = 0;
    while i < line.len()
        invariant
            i <= line.len(),
            word@.len() == 10,
            without_from(line@, word@, 0) == kept@ + without_from(line@, word@, i as int),
        decreases line.len() - i,
    {
        if crate::text::has_at(line, word.as_slice(), i) {
            i += 10;
        } else {
            let ghost before = kept@;
            kept.push(line[i]);
            assert(before + (seq![line@[i as int]] + without_from(line@, word@, i + 1))
                =~= kept@ + without_from(line@, word@, i + 1));
            i += 1;
        }
    }
    assert(kept@ + Seq::<char>::empty() =~= kept@);
    let dns = trim(kept.as_slice());
    if dns.len() == 0 {
        None
    } else {
        Some(string_of(dns))
    }
}

/// The name server that a line of the resolver listing names: on a line
/// that, trimmed, begins with `nameserver[0]`, what stands between the first
/// colon and the next, trimmed, if it is not empty.
pub open spec fn scutil_line_dns(line: Seq<char>) -> Option<Seq<char>> {
    let t = trimmed(line);
    let dns = trimmed(before_char(after_char(t, ':'), ':'));
    if starts_with(t, "nameserver[0]"@) && holds_char(t, ':') && dns.len() > 0 {
        Some(dns)
    } else {
        None
    }
}

/// The name server of the first line at or after `from` that names one.
pub open spec fn scutil_dns(rows: Seq<Seq<char>>, from: int) -> Option<Seq<char>>
    decreases rows.len() - from,
{
    if from < 0 || from >= rows.len() {
        None
    } else if scutil_line_dns(rows[from]) is Some {
        scutil_line_dns(rows[from])
    } else {
        scutil_dns(rows, from + 1)
    }
}

/// Read the first name server from the listing that `scutil --dns` prints.
pub fn dns_from_scutil(output: &str) -> (r: Option<String>)
    ensures
        text_of(r) == scutil_dns(lines(output@), 0),
{
    let chars = chars_of(output);
    let rows = split_lines(chars.as_slice());
    let key = chars_of("nameserver[0]");
    let mut i: usize = 0;
    while i < rows.len()
        invariant
            i <= rows.len(),
            key@ == "nameserver[0]"@,
            views(rows@) == lines(output@),
            scutil_dns(lines(output@), 0) == scutil_dns(lines(output@), i as int),
        decreases rows.len() - i,
    {
        assert(views(rows@)[i as int] == rows@[i as int]@);
        let t = trim(rows[i]);
        if begins_with(t, key.as_slice()) {
            let colon = position_of(t, ':');
            if colon < t.len() {
                let rest = slice_subrange(t, colon + 1, t.len());
                let next = position_of(rest, ':');
                let dns = trim(slice_subrange(rest, 0, next));
                if dns.len() > 0 {
                    return Some(string_of(dns));
                }
            }
        }
        i += 1;
    }
    assert(rows@.len() == views(rows@).len());
    None
}

/// The network services that are asked for their name servers, in order.
pub open spec fn known_services() -> Seq<Seq<char>> {
    seq!["Wi-Fi"@, "Ethernet"@, "USB 10/100/1000 LAN"@]
}

/// The known services that a listing of services mentions, in order.
pub open spec fn services_in(listing: Seq<char>) -> Seq<Seq<char>> {
    known_services().filter(|service: Seq<char>| contains(listing, service))
}

/// Pick the known services out of what `networksetup` lists.
pub fn services_to_ask(listing: &str) -> (r: Vec<&'static str>)
    ensures
        str_views(r@) == services_in(listing@),
{
    let chars = chars_of(listing);
    let mut found: Vec<&'static str> = Vec::new();
    let wifi = chars_of("Wi-Fi");
    let ethernet = chars_of("Ethernet");
    let usb = chars_of("USB 10/100/1000 LAN");
    let has_wifi = crate::text::has(chars.as_slice(), wifi.as_slice());
    let has_ethernet = crate::text::has(chars.as_slice(), ethernet.as_slice());
    let has_usb = crate::text::has(chars.as_slice(), usb.as_slice());
    if has_wifi {
        found.push("Wi-Fi");
    }
    if has_ethernet {
        found.push("Ethernet");
    }
    if has_usb {
        found.push("USB 10/100/1000 LAN");
    }
    proof {
        let keep = |service: Seq<char>| contains(listing@, service);
        let all = known_services();
        reveal_with_fuel(Seq::filter, 4);
        assert(all.drop_last() =~= seq!["Wi-Fi"@, "Ethernet"@]);
        assert(all.drop_last().drop_last() =~= seq!["Wi-Fi"@]);
        assert(all.drop_last().drop_last().drop_last() =~= Seq::<Seq<char>>::empty());
        assert(all.last() == "USB 10/100/1000 LAN"@);
        assert(all.drop_last().last() == "Ethernet"@);
        assert(all.drop_last().drop_last().last() == "Wi-Fi"@);
        assert(str_views(found@) =~= all.filter(keep));
    }
    found
}

/// The name server that a service reports: the first line of the answer,
/// trimmed, unless it is empty or says that there aren't any.
pub open spec fn service_dns(answer: Seq<char>) -> Option<Seq<char>> {
    let first = if lines(answer).len() == 0 {
        Seq::<char>::empty()
    } else {
        trimmed(lines(answer)[0])
    };
    if first.len() > 0 && !contains(first, "aren't"@) {
        Some(first)
    } else {
        None
    }
}

/// Read the name server from what `networksetup -getdnsservers` prints.
pub fn dns_from_networksetup(answer: &str) -> (r: Option<String>)
    ensures
        text_of(r) == service_dns(answer@),
{
    let chars = chars_of(answer);
    let rows = split_lines(chars.as_slice());
    if rows.len() == 0 {
        assert(views(rows@).len() == 0);
        return None;
    }
    assert(views(rows@)[0] == rows@[0]@);
    let first = trim(rows[0]);
    let marker = chars_of("aren't");
    if first.len() > 0 && !crate::text::has(first, marker.as_slice()) {
        Some(string_of(first))
    } else {
        None
    }
}

/// What the application is told about its public address.
#[derive(Debug, Clone, PartialEq, Eq)]
pub enum AddressUpdate {
    /// The public address.
    PublicIp(String),
    /// The provider.
    Isp(String),
    /// City and country.
    Location(String),
    /// A message for the log.
    Error(String),
}

/// The model of an address update.
pub enum AddressUpdateView {
    /// The public address.
    PublicIp(Seq<char>),
    /// The provider.
    Isp(Seq<char>),
    /// City and country.
    Location(Seq<char>),
    /// A message for the log.
    Error(Seq<char>),
}

impl View for AddressUpdate {
    type V = AddressUpdateView;

    open spec fn view(&self) -> AddressUpdateView {
        match self {
            AddressUpdate::PublicIp(s) => AddressUpdateView::PublicIp(s@),
            AddressUpdate::Isp(s) => AddressUpdateView::Isp(s@),
            AddressUpdate::Location(s) => AddressUpdateView::Location(s@),
            AddressUpdate::Error(s) => AddressUpdateView::Error(s@),
        }
    }
}

/// The models of a list of address updates.
pub open spec fn updates_of(updates: Seq<AddressUpdate>) -> Seq<AddressUpdateView> {
    updates.map_values(|u: AddressUpdate| u@)
}

/// What is reported after the full lookup answered.
pub open spec fn full_lookup_updates(
    ip: Seq<char>,
    isp: Option<Seq<char>>,
    location: Option<Seq<char>>,
) -> Seq<AddressUpdateView> {
    seq![AddressUpdateView::PublicIp(ip)] + (match isp {
        Some(org) => seq![AddressUpdateView::Isp(org)],
        None => Seq::<AddressUpdateView>::empty(),
    }) + (match location {
        Some(place) => seq![AddressUpdateView::Location(place)],
        None => Seq::<AddressUpdateView>::empty(),
    })
}

/// What is reported after only a bare address could be had.
pub open spec fn bare_lookup_updates(ip: Seq<char>) -> Seq<AddressUpdateView> {
    seq![
        AddressUpdateView::PublicIp(ip),
        AddressUpdateView::Isp("Unknown"@),
        AddressUpdateView::Location("Unknown"@),
    ]
}

/// What is reported after every lookup failed.
pub open spec fn failed_lookup_updates() -> Seq<AddressUpdateView> {
    seq![
        AddressUpdateView::Error("TELEMETRY: Failed to fetch public IP (check network/curl)"@),
        AddressUpdateView::PublicIp("Unavailable"@),
    ]
}

/// The updates after the full lookup answered: the address, then provider
/// and location as far as they are known.
pub fn updates_from_info(info: AddressInfo) -> (r: Vec<AddressUpdate>)
    ensures
        updates_of(r@) == full_lookup_updates(
            info.ip@,
            text_of(info.isp),
            text_of(info.location),
        ),
{
    let mut updates: Vec<AddressUpdate> = Vec::new();
    updates.push(AddressUpdate::PublicIp(info.ip));
    if let Some(org) = info.isp {
        updates.push(AddressUpdate::Isp(org));
    }
    if let Some(place) = info.location {
        updates.push(AddressUpdate::Location(place));
    }
    assert(updates_of(updates@) =~= full_lookup_updates(
        info.ip@,
        text_of(info.isp),
        text_of(info.location),
    ));
    updates
}

/// The updates after a fallback answered with a bare address, or after all
/// of them failed.
pub fn updates_from_fallback(ip: Option<String>) -> (r: Vec<AddressUpdate>)
    ensures
        updates_of(r@) == match ip {
            Some(addr) => bare_lookup_updates(addr@),
            None => failed_lookup_updates(),
        },
{
    let mut updates: Vec<AddressUpdate> = Vec::new();
    match ip {
        Some(addr) => {
            let ghost a = addr@;
            updates.push(AddressUpdate::PublicIp(addr));
            updates.push(AddressUpdate::Isp(String::from_str("Unknown")));
            updates.push(AddressUpdate::Location(String::from_str("Unknown")));
            assert(updates_of(updates@) =~= bare_lookup_updates(a));
        },
        None => {
            updates.push(
                AddressUpdate::Error(
                    String::from_str("TELEMETRY: Failed to fetch public IP (check network/curl)"),
                ),
            );
            updates.push(AddressUpdate::PublicIp(String::from_str("Unavailable")));
            assert(updates_of(updates@) =~= failed_lookup_updates());
        },
    }
    updates
}

} // verus!
