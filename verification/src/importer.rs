//! Telling what an import is to be made from: a URL, a file or a directory.

use vstd::prelude::*;
use vstd::string::StringExecFns;

use crate::text::{begins_with, chars_of, starts_with, string_of, trim, trimmed};

verus! {

/// What an import is made from.
#[derive(Debug, Clone, PartialEq, Eq)]
pub enum ImportTarget {
    /// A URL to download from, in normal form.
    Url(String),
    /// A file on disk.
    File(String),
    /// A directory whose profiles are all imported.
    Directory(String),
}

/// What was found on disk at a path.
#[derive(Debug, Clone, Copy, PartialEq, Eq, Structural)]
pub enum PathKind {
    /// Nothing.
    Missing,
    /// A regular file.
    File,
    /// A directory.
    Directory,
    /// Something else.
    Other,
}

/// A path joined to a base, as the standard library joins them: the path
/// itself if it is absolute, otherwise the base, a separator where one is
/// needed, and the path.
pub uninterp spec fn path_joined(base: Seq<char>, path: Seq<char>) -> Seq<char>;

/// `Path::join`: the result is `path` joined to `base`. Only that it depends
/// on the two texts alone is claimed here.
#[verifier::external_body]
fn join_path(base: &str, path: &str) -> (r: String)
    ensures
        r@ == path_joined(base@, path@),
{
    std::path::Path::new(base).join(path).to_string_lossy().into_owned()
}

/// The normal form of an absolute URL, as the `url` crate writes it, or
/// `None` where the text is no absolute URL.
pub uninterp spec fn url_normal_form(input: Seq<char>) -> Option<Seq<char>>;

/// `Url::parse`, and `to_string` of the URL it returns: `None` where parsing
/// fails. Only that the outcome depends on the text alone is claimed here.
#[verifier::external_body]
fn normal_url(input: &str) -> (r: Option<String>)
    ensures
        match r {
            Some(u) => url_normal_form(input@) == Some(u@),
            None => url_normal_form(input@) is None,
        },
{
    url::Url::parse(input).ok().map(|u| u.to_string())
}

/// A path with a leading `~/` replaced by the home directory, if one is
/// known.
pub open spec fn home_expanded(path: Seq<char>, home: Option<Seq<char>>) -> Seq<char> {
    if starts_with(path, "~/"@) && home is Some {
        path_joined(home->0, path.subrange(2, path.len() as int))
    } else {
        path
    }
}

/// Expand a leading `~/` to the home directory. Without a home directory,
/// and for any other path, the path is returned as it is.
pub fn expand_home(path_str: &str, home: Option<&str>) -> (r: String)
    ensures
        r@ == home_expanded(
            path_str@,
            match home {
                Some(h) => Some(h@),
                None => None,
            },
        ),
{
    let chars = chars_of(path_str);
    let tilde = chars_of("~/");
    proof {
        reveal_strlit("~/");
    }
    if begins_with(chars.as_slice(), tilde.as_slice()) {
        if let Some(h) = home {
            let rest = string_of(vstd::slice::slice_subrange(chars.as_slice(), 2, chars.len()));
            return join_path(h, rest.as_str());
        }
    }
    String::from_str(path_str)
}

/// Whether a text begins like a web address.
pub open spec fn looks_like_url(input: Seq<char>) -> bool {
    starts_with(input, "http://"@) || starts_with(input, "https://"@)
}

/// The model of an import target.
pub enum TargetView {
    /// A URL.
    Url(Seq<char>),
    /// A file.
    File(Seq<char>),
    /// A directory.
    Directory(Seq<char>),
}

/// The model of the result of resolving a target.
pub open spec fn target_result_of(r: Result<ImportTarget, String>) -> Result<
    TargetView,
    Seq<char>,
> {
    match r {
        Ok(ImportTarget::Url(u)) => Ok(TargetView::Url(u@)),
        Ok(ImportTarget::File(p)) => Ok(TargetView::File(p@)),
        Ok(ImportTarget::Directory(p)) => Ok(TargetView::Directory(p@)),
        Err(e) => Err(e@),
    }
}

/// What an input resolves to, given what lies on disk at its expanded path.
///
/// The input is trimmed. If it begins with `http://` or `https://` it has to
/// be a URL. Otherwise it is a path, `~/` expanded, and has to be a file or a
/// directory.
pub open spec fn resolved_target(input: Seq<char>, home: Option<Seq<char>>, kind: PathKind)
    -> Result<TargetView, Seq<char>> {
    let t = trimmed(input);
    if looks_like_url(t) {
        match url_normal_form(t) {
            Some(u) => Ok(TargetView::Url(u)),
            None => Err("Invalid URL format"@),
        }
    } else {
        match kind {
            PathKind::Missing => Err("Path not found: "@ + t),
            PathKind::File => Ok(TargetView::File(home_expanded(t, home))),
            PathKind::Directory => Ok(TargetView::Directory(home_expanded(t, home))),
            PathKind::Other => Err("Invalid path type (not a file or directory)"@),
        }
    }
}

/// The path that has to be looked up on disk before an input can be
/// resolved: the trimmed input, `~/` expanded.
pub fn target_path(input: &str, home: Option<&str>) -> (r: String)
    ensures
        r@ == home_expanded(
            trimmed(input@),
            match home {
                Some(h) => Some(h@),
                None => None,
            },
        ),
{
    let chars = chars_of(input);
    let t = string_of(trim(chars.as_slice()));
    expand_home(t.as_str(), home)
}

/// Resolve what an import is to be made from. `kind` says what lies on disk
/// at `target_path(input, home)`; it is not looked at for a URL.
pub fn resolve_target(input: &str, home: Option<&str>, kind: PathKind) -> (r: Result<
    ImportTarget,
    String,
>)
    ensures
        target_result_of(r) == resolved_target(
            input@,
            match home {
                Some(h) => Some(h@),
                None => None,
            },
            kind,
        ),
{
    let chars = chars_of(input);
    let t = trim(chars.as_slice());
    let http = chars_of("http://");
    let https = chars_of("https://");
    let text = string_of(t);
    if begins_with(t, http.as_slice()) || begins_with(t, https.as_slice()) {
        return match normal_url(text.as_str()) {
            Some(u) => Ok(ImportTarget::Url(u)),
            None => Err(String::from_str("Invalid URL format")),
        };
    }
    match kind {
        PathKind::Missing => {
            let mut e = String::from_str("Path not found: ");
            e.append(text.as_str());
            Err(e)
        },
        PathKind::File => Ok(ImportTarget::File(expand_home(text.as_str(), home))),
        PathKind::Directory => Ok(ImportTarget::Directory(expand_home(text.as_str(), home))),
        PathKind::Other => Err(String::from_str("Invalid path type (not a file or directory)")),
    }
}

/// What getting the profiles directory gives: the directory, or the reason
/// why it could not be had, under a heading.
pub fn get_profiles_dir(found: Result<String, String>) -> (r: Result<String, String>)
    ensures
        found matches Ok(dir) ==> r == Ok::<String, String>(dir),
        found matches Err(reason) ==> r is Err && r->Err_0@
            == "Failed to get profiles directory: "@ + reason@,
{
    match found {
        Ok(dir) => Ok(dir),
        Err(reason) => {
            let mut e = String::from_str("Failed to get profiles directory: ");
            e.append(reason.as_str());
            Err(e)
        },
    }
}

} // verus!
