//! Rewriting of the links, paths and excerpts that pages carry.

use vstd::prelude::*;
use vstd::string::*;
use crate::text::{chars_from, chars_upto, concat2, concat3, owned, starts_with, str_eq};

verus! {

/// `root` and `thing` joined with exactly the separator the site uses.
pub open spec fn slash_guard_spec(root: Seq<char>, thing: Seq<char>) -> Seq<char> {
    if root == "."@ {
        if "/"@.is_prefix_of(thing) {
            "/"@ + thing
        } else {
            thing
        }
    } else if "/"@.is_prefix_of(thing) {
        root + thing
    } else {
        root + "/"@ + thing
    }
}

/// Joins a site root and a path below it.
pub fn slash_guard(root: &str, thing: &str) -> (r: String)
    ensures
        r@ == slash_guard_spec(root@, thing@),
{
    if str_eq(root, ".") {
        return if starts_with(thing, "/") {
            concat2("/", thing)
        } else {
            owned(thing)
        };
    }
    if starts_with(thing, "/") {
        concat2(root, thing)
    } else {
        concat3(root, "/", thing)
    }
}

/// Why a link could not be rewritten.
#[derive(Debug, Clone, Copy, PartialEq, Eq, Structural)]
pub enum LinkError {
    /// The link parsed as an absolute URL whose scheme cannot become `https`.
    SchemeChangeRefused,
}

/// What the url crate makes of `link`: `None` when `Url::parse` refuses it,
/// otherwise the result of `set_scheme("https")` followed by the URL's
/// serialisation.
pub uninterp spec fn https_reserialization(link: Seq<char>) -> Option<Result<Seq<char>, ()>>;

/// Parses `link` with `url::Url::parse`; on success calls
/// `Url::set_scheme("https")` and serialises the URL with `to_string`.
/// The contract only ties the outcome to the name `https_reserialization`;
/// what the url crate's parser accepts and how it normalises is not stated.
#[verifier::external_body]
fn reserialize_as_https(link: &str) -> (r: Option<Result<String, ()>>)
    ensures
        match r {
            None => https_reserialization(link@) is None,
            Some(Err(())) => https_reserialization(link@) == Some(Err::<Seq<char>, ()>(())),
            Some(Ok(s)) => https_reserialization(link@) == Some(Ok::<Seq<char>, ()>(s@)),
        },
{
    match url::Url::parse(link) {
        Err(_) => None,
        Ok(mut parsed) => match parsed.set_scheme("https") {
            Ok(()) => Some(Ok(parsed.to_string())),
            Err(()) => Some(Err(())),
        },
    }
}

/// Whether a link is left exactly as written (parent-relative, fragment, or
/// already secure).
pub open spec fn kept_verbatim(link: Seq<char>) -> bool {
    ||| ".."@.is_prefix_of(link)
    ||| "#"@.is_prefix_of(link)
    ||| "https://"@.is_prefix_of(link)
}

/// The rewritten form of `link`, given what the URL parser made of it.
pub open spec fn rewrite_link_spec(
    site_url: Seq<char>,
    link: Seq<char>,
    reparsed: Option<Result<Seq<char>, ()>>,
) -> Result<Seq<char>, LinkError> {
    if kept_verbatim(link) {
        Ok(link)
    } else {
        match reparsed {
            Some(Ok(secure)) => Ok(secure),
            Some(Err(())) => Err(LinkError::SchemeChangeRefused),
            None => if "./"@.is_prefix_of(link) {
                Ok(slash_guard_spec(site_url, link.skip(2)))
            } else if "."@.is_prefix_of(link) {
                Ok(slash_guard_spec(site_url, link.skip(1)))
            } else {
                Ok(link)
            },
        }
    }
}

/// The characters a rewrite result carries.
pub open spec fn result_view(r: Result<String, LinkError>) -> Result<Seq<char>, LinkError> {
    match r {
        Ok(s) => Ok(s@),
        Err(e) => Err(e),
    }
}

/// Rewrites `link` for the site rooted at `site_url`, given `reparsed`, the
/// outcome of reading `link` as an absolute URL and switching it to https.
pub fn rewrite_link_with(
    site_url: &str,
    link: String,
    reparsed: Option<Result<String, ()>>,
) -> (r: Result<String, LinkError>)
    ensures
        result_view(r) == rewrite_link_spec(
            site_url@,
            link@,
            match reparsed {
                None => None,
                Some(Ok(s)) => Some(Ok(s@)),
                Some(Err(())) => Some(Err(())),
            },
        ),
{
    let l = link.as_str();
    if starts_with(l, "..") || starts_with(l, "#") || starts_with(l, "https://") {
        return Ok(link);
    }
    match reparsed {
        Some(Ok(secure)) => return Ok(secure),
        Some(Err(())) => return Err(LinkError::SchemeChangeRefused),
        None => {},
    }
    proof {
        reveal_strlit("./");
        reveal_strlit(".");
    }
    if starts_with(l, "./") {
        let stripped = chars_from(l, 2);
        return Ok(slash_guard(site_url, stripped.as_str()));
    }
    if starts_with(l, ".") {
        let stripped = chars_from(l, 1);
        return Ok(slash_guard(site_url, stripped.as_str()));
    }
    Ok(link)
}

/// Rewrites a link found in a page: absolute URLs become https, links
/// relative to the current directory are placed under `site_url`, and
/// parent-relative links, fragments and https links are kept.
pub fn rewrite_link(site_url: &str, link: String) -> (r: Result<String, LinkError>)
    ensures
        result_view(r) == rewrite_link_spec(site_url@, link@, https_reserialization(link@)),
{
    let l = link.as_str();
    if starts_with(l, "..") || starts_with(l, "#") || starts_with(l, "https://") {
        return Ok(link);
    }
    let reparsed = reserialize_as_https(l);
    rewrite_link_with(site_url, link, reparsed)
}

/// `path` made to hang under `root`, unless it already does or is absolute.
pub open spec fn make_path_relative_spec(root: Seq<char>, path: Seq<char>) -> Seq<char> {
    if root.is_prefix_of(path) || "/"@.is_prefix_of(path) {
        path
    } else {
        root + "/"@ + path
    }
}

/// Places `path` under `root` unless it already starts with `root` or `/`.
pub fn make_path_relative(root: &str, path: &str) -> (r: String)
    ensures
        r@ == make_path_relative_spec(root@, path@),
{
    if starts_with(path, root) {
        return owned(path);
    }
    if starts_with(path, "/") {
        return owned(path);
    }
    concat3(root, "/", path)
}

/// How many characters an excerpt keeps.
pub const SHORTEN_LIMIT: usize = 150;

/// The excerpt of `content`: its first 150 characters.
pub fn shorten(content: &str) -> (r: String)
    ensures
        r@ == content@.take(if content@.len() < 150 { content@.len() as int } else { 150 }),
{
    chars_upto(content, SHORTEN_LIMIT)
}

/// The picture used when an item has none.
pub const GRAY_IMAGE: &'static str = "gray.jpg";

/// The image path to show: the given one, or the gray placeholder.
pub fn image_or_gray(image_path: Option<&String>) -> (r: &str)
    ensures
        match image_path {
            Some(p) => r@ == p@,
            None => r@ == GRAY_IMAGE@,
        },
{
    match image_path {
        Some(p) => p.as_str(),
        None => GRAY_IMAGE,
    }
}

} // verus!
