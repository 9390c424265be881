//! Page sources and page addresses: the split between a page's TOML front
//! matter and its body, the summary a news post gets when it has none, the
//! reference a news post is filed under, and where each kind of page is
//! written.

use vstd::prelude::*;

use crate::meta::NewsMeta;
use crate::reference::{reference, reference_spec};
use crate::text::{chars_from, chars_upto, concat2, concat3, find_str, occurs_at, owned};

verus! {

/// The line that separates a page's front matter from its body.
pub const FRONT_MATTER_SPLIT: &'static str = "===";

/// The author a news post is filed under when it names none.
pub const NEWS_MISSING_AUTHOR: &'static str = "東大ボカロP同好会";

/// Why a page source could not be read.
#[derive(Debug, PartialEq, Eq)]
pub enum FrontMatterError {
    /// The source holds no front matter separator.
    MissingSeparator,
}

/// Splits a page source at the first front matter separator: the front
/// matter before it and the body after it.
pub fn split_front_matter(file: &str) -> (r: Result<(String, String), FrontMatterError>)
    ensures
        match r {
            Ok((front, body)) => exists|k: int|
                #[trigger] occurs_at(file@, FRONT_MATTER_SPLIT@, k) && (forall|j: int|
                    0 <= j < k ==> !#[trigger] occurs_at(file@, FRONT_MATTER_SPLIT@, j))
                    && front@ == file@.take(k) && body@ == file@.skip(k + FRONT_MATTER_SPLIT@.len())
                    && front@ + FRONT_MATTER_SPLIT@ + body@ == file@,
            Err(e) => e == FrontMatterError::MissingSeparator && forall|j: int|
                !#[trigger] occurs_at(file@, FRONT_MATTER_SPLIT@, j),
        },
{
    let n = file.unicode_len();
    match find_str(file, FRONT_MATTER_SPLIT) {
        Some(k) => {
            let front = chars_upto(file, k);
            let sep_len = FRONT_MATTER_SPLIT.unicode_len();
            proof {
                assert(occurs_at(file@, FRONT_MATTER_SPLIT@, k as int));
            }
            let body = chars_from(file, k + sep_len);
            proof {
                let f = file@;
                let sep = FRONT_MATTER_SPLIT@;
                assert(f.subrange(k as int, k + sep.len()) == sep);
                assert(f.take(k as int) + sep + f.skip(k + sep.len()) =~= f);
            }
            Ok((front, body))
        },
        None => Err(FrontMatterError::MissingSeparator),
    }
}

/// What pulldown-cmark renders Markdown `text` to, with every extension
/// enabled.
pub uninterp spec fn commonmark_html(text: Seq<char>) -> Seq<char>;

/// Renders Markdown with `pulldown_cmark::Parser::new_ext` (all of
/// `pulldown_cmark::Options`) and `pulldown_cmark::html::push_html`. The
/// contract names the result; the Markdown grammar is not stated.
#[verifier::external_body]
fn commonmark_to_html(text: &str) -> (r: String)
    ensures
        r@ == commonmark_html(text@),
{
    let mut out = String::new();
    let parser = pulldown_cmark::Parser::new_ext(text, pulldown_cmark::Options::all());
    pulldown_cmark::html::push_html(&mut out, parser);
    out
}

/// The HTML of a page's text once its template has been filled in: the
/// text read as Markdown.
pub fn markdown_html(templated: &str) -> (r: String)
    ensures
        r@ == commonmark_html(templated@),
{
    commonmark_to_html(templated)
}

/// The summary of a news post without one: its first 50 characters and
/// `"..."`.
pub fn default_short(content: &str) -> (r: String)
    ensures
        r@ == content@.take(if content@.len() < 50 { content@.len() as int } else { 50 }) + "..."@,
{
    let head = chars_upto(content, 50);
    concat2(head.as_str(), "...")
}

/// The author a news post is filed under: its own, or the club's name.
pub fn news_author(post: &NewsMeta) -> (r: &str)
    ensures
        r@ == match post.author {
            Some(a) => a@,
            None => NEWS_MISSING_AUTHOR@,
        },
{
    match &post.author {
        Some(a) => a.as_str(),
        None => NEWS_MISSING_AUTHOR,
    }
}

/// The reference a news post is filed under: its title and author (see
/// `news_author`) as the one known author.
pub fn news_reference(post: &NewsMeta) -> (r: String)
    ensures
        r@ == reference_spec(
            post.title@,
            seq![
                match post.author {
                    Some(a) => a@,
                    None => NEWS_MISSING_AUTHOR@,
                },
            ],
            Seq::empty(),
        ),
{
    let author = owned(news_author(post));
    let mut known: Vec<String> = Vec::new();
    known.push(author);
    let unknown: Vec<String> = Vec::new();
    let r = reference(post.title.as_str(), known.as_slice(), unknown.as_slice());
    proof {
        assert(crate::reference::texts(known@) =~= seq![
            match post.author {
                Some(a) => a@,
                None => NEWS_MISSING_AUTHOR@,
            },
        ]);
        assert(crate::reference::texts(unknown@) =~= Seq::<Seq<char>>::empty());
    }
    r
}

/// Where a work's page is written.
pub fn work_page_path(reference: &str) -> (r: String)
    ensures
        r@ == "/works/releases/"@ + reference@ + ".html"@,
{
    concat3("/works/releases/", reference, ".html")
}

/// Where an album's page is written.
pub fn album_page_path(reference: &str) -> (r: String)
    ensures
        r@ == "/albums/releases/"@ + reference@ + "/index.html"@,
{
    concat3("/albums/releases/", reference, "/index.html")
}

/// Where a news post's page is written.
pub fn news_page_path(reference: &str) -> (r: String)
    ensures
        r@ == "/news/"@ + reference@ + "/index.html"@,
{
    concat3("/news/", reference, "/index.html")
}

/// Where a member's page is written.
pub fn member_page_path(ascii_name: &str) -> (r: String)
    ensures
        r@ == "/members/"@ + ascii_name@ + "/index.html"@,
{
    concat3("/members/", ascii_name, "/index.html")
}

} // verus!
