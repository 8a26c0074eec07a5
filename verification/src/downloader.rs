//! Deciding about a downloaded profile: whether the answer is usable and
//! under what name it is stored. The download itself is the caller's.

use vstd::prelude::*;
use vstd::slice::slice_subrange;
use vstd::string::StringExecFns;

use crate::text::{
    chars_of, contains, find, find_in, has, index_of_char, lowercase, lowercase_of, position_of,
    string_of, text_of, trim, trimmed, unquote, unquoted,
};

verus! {

/// File name of a downloaded profile where none can be found out.
pub const DEFAULT_IMPORTED_FILENAME: &'static str = "imported_profile.conf";

/// Extension of WireGuard configurations, with its dot.
pub const EXT_CONF: &'static str = ".conf";

/// Extension of OpenVPN configurations, with its dot.
pub const EXT_OVPN: &'static str = ".ovpn";

/// Timeout of a download in seconds.
pub const HTTP_TIMEOUT_SECS: u64 = 10;

/// What is said when the server answered with a web page.
pub const ERR_HTML_CONTENT: &'static str =
    "URL returned HTML content. Did you mean to use the 'raw' version of the link?";

/// What is said when the server answered with nothing.
pub const ERR_EMPTY_CONTENT: &'static str = "Downloaded content is empty";

/// Heading of the status a server refused with.
pub const ERR_SERVER_ERROR: &'static str = "Server returned error: ";

/// The last segment of the path of a URL, as the `url` crate splits it, or
/// `None` where the text is no URL or the URL has no path segments.
pub uninterp spec fn last_segment_of(url: Seq<char>) -> Option<Seq<char>>;

/// `Url::parse`, and of the URL it returns `Url::path_segments` and the last
/// item of that: `None` where parsing fails or the URL cannot be a base.
/// Only that the outcome depends on the text alone is claimed here.
#[verifier::external_body]
fn last_url_segment(url: &str) -> (r: Option<String>)
    ensures
        match r {
            Some(s) => last_segment_of(url@) == Some(s@),
            None => last_segment_of(url@) is None,
        },
{
    let parsed = url::Url::parse(url).ok()?;
    let mut segments = parsed.path_segments()?;
    segments.next_back().map(|s| s.to_string())
}

/// Whether a lower-case content type is that of a web page.
pub open spec fn is_html_type(content_type_lower: Seq<char>) -> bool {
    contains(content_type_lower, "text/html"@)
}

/// Whether a lower-case content type is that of a web page.
pub fn is_html_type_lower(content_type_lower: &[char]) -> (b: bool)
    ensures
        b == is_html_type(content_type_lower@),
{
    let pattern = chars_of("text/html");
    has(content_type_lower, pattern.as_slice())
}

/// Whether the server answered with a web page, judged by the content type
/// it stated. Case does not matter.
pub fn is_html_content(content_type: &str) -> (b: bool)
    ensures
        b == is_html_type(lowercase_of(content_type@)),
{
    let chars = chars_of(content_type);
    let lower = lowercase(chars.as_slice());
    is_html_type_lower(lower.as_slice())
}

/// The file name that a `Content-Disposition` header states: what follows
/// the first `filename=` up to the next semicolon, trimmed and unquoted, if
/// that is not empty.
pub open spec fn disposition_name(disposition: Seq<char>) -> Option<Seq<char>> {
    match find(disposition, "filename="@) {
        None => None,
        Some(at) => {
            let rest = disposition.subrange(at + 9, disposition.len() as int);
            let name = unquoted(trimmed(rest.subrange(0, index_of_char(rest, ';', 0))));
            if name.len() > 0 {
                Some(name)
            } else {
                None
            }
        },
    }
}

/// Read the file name out of a `Content-Disposition` header.
pub fn disposition_file_name(disposition: &str) -> (r: Option<String>)
    ensures
        r is Some <==> disposition_name(disposition@) is Some,
        r matches Some(name) ==> name@ == disposition_name(disposition@)->0,
{
    let chars = chars_of(disposition);
    let pattern = chars_of("filename=");
    proof {
        reveal_strlit("filename=");
    }
    let at = match find_in(chars.as_slice(), pattern.as_slice()) {
        Some(at) => at,
        None => {
            return None;
        },
    };
    let total = chars.len();
    let rest = slice_subrange(chars.as_slice(), at + 9, total);
    let end = position_of(rest, ';');
    let name = unquote(trim(slice_subrange(rest, 0, end)));
    if name.len() > 0 {
        Some(string_of(name))
    } else {
        None
    }
}

/// Whether a text ends with another.
pub open spec fn ends_with(s: Seq<char>, p: Seq<char>) -> bool {
    p.len() <= s.len() && s.subrange(s.len() - p.len(), s.len() as int) == p
}

/// The name taken from header and URL, before an extension is added: the
/// name that the header states; else the last segment of the URL, if it ends
/// in `.ovpn` or `.conf`; else the default name.
pub open spec fn stated_name(from_header: Option<Seq<char>>, last_segment: Option<Seq<char>>)
    -> Seq<char> {
    if from_header is Some && from_header->0 != DEFAULT_IMPORTED_FILENAME@ {
        from_header->0
    } else {
        match last_segment {
            Some(last) => if last.len() > 0 && (ends_with(last, EXT_OVPN@) || ends_with(
                last,
                EXT_CONF@,
            )) {
                last
            } else {
                DEFAULT_IMPORTED_FILENAME@
            },
            None => DEFAULT_IMPORTED_FILENAME@,
        }
    }
}

/// The name under which a download is stored, given the name that the header
/// states, the last segment of the URL, and the URL.
///
/// A name without a dot is given an extension: a dot and `.ovpn` if the URL
/// holds `.ovpn`, a dot and `.conf` otherwise.
pub open spec fn chosen_name(
    from_header: Option<Seq<char>>,
    last_segment: Option<Seq<char>>,
    url: Seq<char>,
) -> Seq<char> {
    let name = stated_name(from_header, last_segment);
    if name.contains('.') {
        name
    } else if contains(url, EXT_OVPN@) {
        name + "."@ + EXT_OVPN@
    } else {
        name + "."@ + EXT_CONF@
    }
}

/// The name under which a download is stored.
pub open spec fn download_name(disposition: Option<Seq<char>>, url: Seq<char>) -> Seq<char> {
    chosen_name(
        match disposition {
            Some(d) => disposition_name(d),
            None => None,
        },
        last_segment_of(url),
        url,
    )
}

fn text_ends_with(s: &[char], p: &str) -> (b: bool)
    ensures
        b == ends_with(s@, p@),
{
    let pattern = chars_of(p);
    if pattern.len() > s.len() {
        return false;
    }
    crate::text::has_at(s, pattern.as_slice(), s.len() - pattern.len())
}

/// Choose the file name for a download from the name that the header
/// states, the last segment of the URL, and the URL; see `chosen_name`.
pub fn choose_file_name(from_header: Option<String>, last_segment: Option<String>, url: &str) -> (r:
    String)
    ensures
        r@ == chosen_name(text_of(from_header), text_of(last_segment), url@),
{
    let mut filename = match from_header {
        Some(name) => name,
        None => String::from_str(DEFAULT_IMPORTED_FILENAME),
    };
    let default_name = chars_of(DEFAULT_IMPORTED_FILENAME);
    let current = chars_of(filename.as_str());
    if crate::text::same_text(current.as_slice(), default_name.as_slice()) {
        if let Some(last) = last_segment {
            let last_chars = chars_of(last.as_str());
            if last_chars.len() > 0 && (text_ends_with(last_chars.as_slice(), EXT_OVPN)
                || text_ends_with(last_chars.as_slice(), EXT_CONF)) {
                filename = last;
            }
        }
    }
    let name_chars = chars_of(filename.as_str());
    let dot = position_of(name_chars.as_slice(), '.');
    if dot < name_chars.len() {
        assert(name_chars@.contains('.'));
        return filename;
    }
    assert(!name_chars@.contains('.'));
    let url_chars = chars_of(url);
    let ovpn = chars_of(EXT_OVPN);
    filename.append(".");
    if has(url_chars.as_slice(), ovpn.as_slice()) {
        filename.append(EXT_OVPN);
    } else {
        filename.append(EXT_CONF);
    }
    filename
}

/// Choose the file name for a download from the `Content-Disposition`
/// header, if the server sent one, and the URL.
pub fn download_file_name(disposition: Option<&str>, url: &str) -> (r: String)
    ensures
        r@ == download_name(
            match disposition {
                Some(d) => Some(d@),
                None => None,
            },
            url@,
        ),
{
    let from_header = match disposition {
        Some(d) => disposition_file_name(d),
        None => None,
    };
    let last = last_url_segment(url);
    choose_file_name(from_header, last, url)
}

/// What is said when the server refused, given the status it answered with.
pub fn server_error(status: &str) -> (r: String)
    ensures
        r@ == ERR_SERVER_ERROR@ + status@,
{
    let mut e = String::from_str(ERR_SERVER_ERROR);
    e.append(status);
    e
}

/// Check what was downloaded: it must not be empty.
pub fn check_downloaded(len: usize) -> (r: Result<(), String>)
    ensures
        len > 0 <==> r is Ok,
        r matches Err(e) ==> e@ == ERR_EMPTY_CONTENT@,
{
    if len == 0 {
        Err(String::from_str(ERR_EMPTY_CONTENT))
    } else {
        Ok(())
    }
}

} // verus!
