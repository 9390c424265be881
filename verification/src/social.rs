//! Social-network links: which service a URL belongs to, the icon shown for
//! it, and the icon link placed on member, work and news pages.

use vstd::prelude::*;

use crate::cards::{html_view, icon_result};
use crate::html::{escape_html, html_escape};
use crate::text::{contains_str, has_infix, owned, str_eq};

verus! {

/// The service a social link points to.
#[derive(Clone, Debug, Hash, PartialOrd, PartialEq, Eq)]
pub enum SocialLinkType {
    Twitter,
    Xitter,
    Bluesky,
    Youtube,
    NicoDouga,
    Soundcloud,
    Github,
    LinkTree,
    Spotify,
    TikTok,
    Instagram,
    Bandcamp,
    OtherUnknown(String),
}

/// The icon file of a link kind.
pub open spec fn svg_icon_spec(t: SocialLinkType) -> Seq<char> {
    match t {
        SocialLinkType::Twitter => "twitter.svg"@,
        SocialLinkType::Xitter => "twitter.svg"@,
        SocialLinkType::Bluesky => "bluesky.svg"@,
        SocialLinkType::Youtube => "youtube.svg"@,
        SocialLinkType::NicoDouga => "niconico.svg"@,
        SocialLinkType::Soundcloud => "soundcloud.svg"@,
        SocialLinkType::Github => "github.svg"@,
        SocialLinkType::LinkTree => "linktree.svg"@,
        SocialLinkType::Spotify => "spotify.svg"@,
        SocialLinkType::TikTok => "tiktok.svg"@,
        SocialLinkType::Instagram => "instagram.svg"@,
        SocialLinkType::Bandcamp => "bandcamp.svg"@,
        SocialLinkType::OtherUnknown(_) => "link.svg"@,
    }
}

/// Whether `t` is the kind the site assigns to a link on `domain`.
pub open spec fn kind_of_domain(domain: Seq<char>, t: SocialLinkType) -> bool {
    if domain == "twitter.com"@ || domain == "x.com"@ {
        t == SocialLinkType::Twitter
    } else if domain == "bsky.app"@ {
        t == SocialLinkType::Bluesky
    } else if domain == "youtube.com"@ || domain == "www.youtube.com"@ {
        t == SocialLinkType::Youtube
    } else if domain == "soundcloud.com"@ {
        t == SocialLinkType::Soundcloud
    } else if domain == "nicovideo.jp"@ || domain == "www.nicovideo.jp"@ {
        t == SocialLinkType::NicoDouga
    } else if domain == "github.com"@ {
        t == SocialLinkType::Github
    } else if domain == "linktree.com"@ || domain == "linktr.ee"@ {
        t == SocialLinkType::LinkTree
    } else if domain == "spotify.com"@ {
        t == SocialLinkType::Spotify
    } else if domain == "tiktok.com"@ {
        t == SocialLinkType::TikTok
    } else if domain == "instagram.com"@ {
        t == SocialLinkType::Instagram
    } else if has_infix(domain, "bandcamp.com"@) {
        t == SocialLinkType::Bandcamp
    } else {
        t matches SocialLinkType::OtherUnknown(d) && d@ == domain
    }
}

impl SocialLinkType {
    /// The icon file shown for this kind of link.
    pub fn to_svg_icon(&self) -> (r: &str)
        ensures
            r@ == svg_icon_spec(*self),
    {
        match self {
            SocialLinkType::Twitter => "twitter.svg",
            SocialLinkType::Xitter => "twitter.svg",
            SocialLinkType::Bluesky => "bluesky.svg",
            SocialLinkType::Youtube => "youtube.svg",
            SocialLinkType::NicoDouga => "niconico.svg",
            SocialLinkType::Soundcloud => "soundcloud.svg",
            SocialLinkType::Github => "github.svg",
            SocialLinkType::LinkTree => "linktree.svg",
            SocialLinkType::Spotify => "spotify.svg",
            SocialLinkType::TikTok => "tiktok.svg",
            SocialLinkType::Instagram => "instagram.svg",
            SocialLinkType::Bandcamp => "bandcamp.svg",
            SocialLinkType::OtherUnknown(_) => "link.svg",
        }
    }

    /// The kind of a link on `domain`.
    pub fn from_domain(domain: &str) -> (r: SocialLinkType)
        ensures
            kind_of_domain(domain@, r),
    {
        if str_eq(domain, "twitter.com") || str_eq(domain, "x.com") {
            SocialLinkType::Twitter
        } else if str_eq(domain, "bsky.app") {
            SocialLinkType::Bluesky
        } else if str_eq(domain, "youtube.com") || str_eq(domain, "www.youtube.com") {
            SocialLinkType::Youtube
        } else if str_eq(domain, "soundcloud.com") {
            SocialLinkType::Soundcloud
        } else if str_eq(domain, "nicovideo.jp") || str_eq(domain, "www.nicovideo.jp") {
            SocialLinkType::NicoDouga
        } else if str_eq(domain, "github.com") {
            SocialLinkType::Github
        } else if str_eq(domain, "linktree.com") || str_eq(domain, "linktr.ee") {
            SocialLinkType::LinkTree
        } else if str_eq(domain, "spotify.com") {
            SocialLinkType::Spotify
        } else if str_eq(domain, "tiktok.com") {
            SocialLinkType::TikTok
        } else if str_eq(domain, "instagram.com") {
            SocialLinkType::Instagram
        } else if contains_str(domain, "bandcamp.com") {
            SocialLinkType::Bandcamp
        } else {
            SocialLinkType::OtherUnknown(owned(domain))
        }
    }
}


/// What the url crate makes of `link`: when `Url::parse` refuses it, the
/// parser's error message (`ParseError`'s `to_string`); otherwise the URL's
/// serialisation and its domain (`Url::domain`), which is absent for IP
/// hosts and host-less URLs.
pub uninterp spec fn parsed_url(link: Seq<char>) -> Result<(Seq<char>, Option<Seq<char>>), Seq<char>>;

/// Parses `link` with `url::Url::parse` and reads back the serialisation
/// (`to_string`) and `Url::domain`, or the parse error's message. The
/// contract ties the outcome to the name `parsed_url`; how the url crate
/// parses, normalises and words its errors is not stated.
#[verifier::external_body]
fn parse_url(link: &str) -> (r: Result<(String, Option<String>), String>)
    ensures
        match r {
            Err(m) => parsed_url(link@) == Err::<(Seq<char>, Option<Seq<char>>), Seq<char>>(m@),
            Ok((text, None)) => parsed_url(link@) == Ok::<(Seq<char>, Option<Seq<char>>), Seq<char>>((text@, None::<Seq<char>>)),
            Ok((text, Some(d))) => parsed_url(link@) == Ok::<(Seq<char>, Option<Seq<char>>), Seq<char>>((text@, Some(d@))),
        },
{
    match url::Url::parse(link) {
        Err(why) => Err(why.to_string()),
        Ok(parsed) => {
            let domain = match parsed.domain() {
                Some(d) => Some(d.to_string()),
                None => None,
            };
            Ok((parsed.to_string(), domain))
        },
    }
}

/// Why a social link could not be turned into an icon, with the link.
#[derive(Debug, Clone, PartialEq, Eq)]
pub enum SocialLinkError {
    /// The text is not an absolute URL; it carries the URL parser's message.
    NotAUrl(String),
    /// The URL has no domain name (an IP address or no host at all); it
    /// carries the URL as the URL parser writes it.
    NoDomain(String),
}

/// What a `SocialLinkError` says, as plain text.
pub enum LinkFault {
    NotAUrl(Seq<char>),
    NoDomain(Seq<char>),
}

impl View for SocialLinkError {
    type V = LinkFault;

    open spec fn view(&self) -> LinkFault {
        match self {
            SocialLinkError::NotAUrl(t) => LinkFault::NotAUrl(t@),
            SocialLinkError::NoDomain(u) => LinkFault::NoDomain(u@),
        }
    }
}

/// The message of a link error: the URL parser's message for text that is
/// not a URL, `Bad URL: ` and the URL for one without a domain.
pub open spec fn fault_message(f: LinkFault) -> Seq<char> {
    match f {
        LinkFault::NotAUrl(m) => m,
        LinkFault::NoDomain(u) => "Bad URL: "@ + u,
    }
}

impl SocialLinkError {
    /// The error's message (see `fault_message`).
    pub fn message(&self) -> (r: String)
        ensures
            r@ == fault_message(self@),
    {
        match self {
            SocialLinkError::NotAUrl(m) => owned(m.as_str()),
            SocialLinkError::NoDomain(u) => crate::text::concat2("Bad URL: ", u.as_str()),
        }
    }
}

/// Whether `r` is the kind found for a link the URL parser read as
/// `parsed`.
pub open spec fn from_parsed_spec(
    parsed: Result<(Seq<char>, Option<Seq<char>>), Seq<char>>,
    r: Result<SocialLinkType, SocialLinkError>,
) -> bool {
    match parsed {
        Err(m) => r matches Err(e) && e@ == LinkFault::NotAUrl(m),
        Ok((text, None)) => r matches Err(e) && e@ == LinkFault::NoDomain(text),
        Ok((_, Some(d))) => r matches Ok(t) && kind_of_domain(d, t),
    }
}

impl SocialLinkType {
    /// The kind of the social link `url`, found from its domain.
    pub fn from_url(url: &str) -> (r: Result<SocialLinkType, SocialLinkError>)
        ensures
            from_parsed_spec(parsed_url(url@), r),
    {
        match parse_url(url) {
            Err(m) => Err(SocialLinkError::NotAUrl(m)),
            Ok((text, None)) => Err(SocialLinkError::NoDomain(text)),
            Ok((_, Some(d))) => Ok(SocialLinkType::from_domain(d.as_str())),
        }
    }
}

/// The icon file for a link on `domain`.
pub open spec fn domain_icon(domain: Seq<char>) -> Seq<char> {
    if domain == "twitter.com"@ || domain == "x.com"@ {
        "twitter.svg"@
    } else if domain == "bsky.app"@ {
        "bluesky.svg"@
    } else if domain == "youtube.com"@ || domain == "www.youtube.com"@ {
        "youtube.svg"@
    } else if domain == "soundcloud.com"@ {
        "soundcloud.svg"@
    } else if domain == "nicovideo.jp"@ || domain == "www.nicovideo.jp"@ {
        "niconico.svg"@
    } else if domain == "github.com"@ {
        "github.svg"@
    } else if domain == "linktree.com"@ || domain == "linktr.ee"@ {
        "linktree.svg"@
    } else if domain == "spotify.com"@ {
        "spotify.svg"@
    } else if domain == "tiktok.com"@ {
        "tiktok.svg"@
    } else if domain == "instagram.com"@ {
        "instagram.svg"@
    } else if has_infix(domain, "bandcamp.com"@) {
        "bandcamp.svg"@
    } else {
        "link.svg"@
    }
}

/// The extra style given to an icon for a link on `domain`: Bluesky's icon
/// is stretched.
pub open spec fn domain_icon_style(domain: Seq<char>) -> Seq<char> {
    if domain == "bsky.app"@ {
        "width: 100%;"@
    } else {
        ""@
    }
}

/// The icon link for the URL whose serialisation is `text`, of kind `t`.
pub open spec fn sns_icon_html(text: Seq<char>, domain: Seq<char>) -> Seq<char> {
    "<a class=\"social-icon social-icon-size\" href=\""@ + html_escape(text) + "\"><img alt=\""@
        + html_escape(text) + "\" src=\""@ + html_escape("public/social_icons/"@ + domain_icon(domain))
        + "\" style=\""@ + html_escape(domain_icon_style(domain)) + "\"></a>"@
}

fn icon_markup(text: &str, domain: &str, t: &SocialLinkType) -> (r: String)
    requires
        kind_of_domain(domain@, *t),
    ensures
        r@ == sns_icon_html(text@, domain@),
{
    proof {
        reveal_strlit("twitter.com");
        reveal_strlit("x.com");
        reveal_strlit("bsky.app");
        reveal_strlit("youtube.com");
        reveal_strlit("www.youtube.com");
        reveal_strlit("soundcloud.com");
        reveal_strlit("nicovideo.jp");
        reveal_strlit("www.nicovideo.jp");
        reveal_strlit("github.com");
        reveal_strlit("linktree.com");
        reveal_strlit("linktr.ee");
        reveal_strlit("spotify.com");
        reveal_strlit("tiktok.com");
        reveal_strlit("instagram.com");
    }
    let style: &str = match t {
        SocialLinkType::Bluesky => "width: 100%;",
        _ => "",
    };
    let icon = t.to_svg_icon();
    assert(icon@ == domain_icon(domain@));
    assert("bsky.app"@.len() == 8 && "x.com"@.len() == 5);
    assert(style@ == domain_icon_style(domain@));
    let src = crate::text::concat2("public/social_icons/", icon);
    let escaped_text = escape_html(text);
    let mut out = owned("<a class=\"social-icon social-icon-size\" href=\"");
    out.append(escaped_text.as_str());
    out.append("\"><img alt=\"");
    out.append(escaped_text.as_str());
    out.append("\" src=\"");
    out.append(escape_html(src.as_str()).as_str());
    out.append("\" style=\"");
    out.append(escape_html(style).as_str());
    out.append("\"></a>");
    out
}

/// The clickable icon for a social link: an anchor to the link holding the
/// icon of its kind.
pub fn sns_icon(link: &str) -> (r: Result<String, SocialLinkError>)
    ensures
        html_view(r) == icon_result(link@),
{
    match parse_url(link) {
        Err(m) => Err(SocialLinkError::NotAUrl(m)),
        Ok((text, None)) => Err(SocialLinkError::NoDomain(text)),
        Ok((text, Some(d))) => {
            let t = SocialLinkType::from_domain(d.as_str());
            Ok(icon_markup(text.as_str(), d.as_str(), &t))
        },
    }
}

/// The template function behind `sns_icon(...)` in page text: the icon
/// markup for a link given as text.
pub fn jinja_sns_icon(link: &str) -> (r: Result<String, SocialLinkError>)
    ensures
        html_view(r) == icon_result(link@),
{
    sns_icon(link)
}

/// The site's own account, linked from every page footer.
pub const CLUB_ACCOUNT: &'static str = "https://x.com/toudaivocadou";

/// The page footer: copyright line and the club's account icon.
pub open spec fn footer_html(icon: Seq<char>) -> Seq<char> {
    "<footer><div class=\"container\"><p>© 2025 東京大学ボカロP同好会</p><div class=\"social-links social-footer\">"@
        + icon + "</div></div></footer>"@
}

/// The footer shared by all pages.
pub fn footer() -> (r: Result<String, SocialLinkError>)
    ensures
        html_view(r) == match icon_result(CLUB_ACCOUNT@) {
            Err(e) => Err::<Seq<char>, LinkFault>(e),
            Ok(i) => Ok(footer_html(i)),
        },
{
    let icon = sns_icon(CLUB_ACCOUNT);
    match icon {
        Ok(i) => {
            let mut out = owned(
                "<footer><div class=\"container\"><p>© 2025 東京大学ボカロP同好会</p><div class=\"social-links social-footer\">",
            );
            out.append(i.as_str());
            out.append("</div></div></footer>");
            Ok(out)
        },
        Err(e) => Err(e),
    }
}

/// The services the site recognises: a link on each of these domains is of
/// the given kind and shown with the given icon file.
pub proof fn law_known_services()
    ensures
        kind_of_domain("twitter.com"@, SocialLinkType::Twitter),
        domain_icon("twitter.com"@) == "twitter.svg"@,
        kind_of_domain("x.com"@, SocialLinkType::Twitter),
        domain_icon("x.com"@) == "twitter.svg"@,
        kind_of_domain("bsky.app"@, SocialLinkType::Bluesky),
        domain_icon("bsky.app"@) == "bluesky.svg"@,
        kind_of_domain("youtube.com"@, SocialLinkType::Youtube),
        domain_icon("youtube.com"@) == "youtube.svg"@,
        kind_of_domain("www.youtube.com"@, SocialLinkType::Youtube),
        domain_icon("www.youtube.com"@) == "youtube.svg"@,
        kind_of_domain("soundcloud.com"@, SocialLinkType::Soundcloud),
        domain_icon("soundcloud.com"@) == "soundcloud.svg"@,
        kind_of_domain("nicovideo.jp"@, SocialLinkType::NicoDouga),
        domain_icon("nicovideo.jp"@) == "niconico.svg"@,
        kind_of_domain("www.nicovideo.jp"@, SocialLinkType::NicoDouga),
        domain_icon("www.nicovideo.jp"@) == "niconico.svg"@,
        kind_of_domain("github.com"@, SocialLinkType::Github),
        domain_icon("github.com"@) == "github.svg"@,
        kind_of_domain("linktree.com"@, SocialLinkType::LinkTree),
        domain_icon("linktree.com"@) == "linktree.svg"@,
        kind_of_domain("linktr.ee"@, SocialLinkType::LinkTree),
        domain_icon("linktr.ee"@) == "linktree.svg"@,
        kind_of_domain("spotify.com"@, SocialLinkType::Spotify),
        domain_icon("spotify.com"@) == "spotify.svg"@,
        kind_of_domain("tiktok.com"@, SocialLinkType::TikTok),
        domain_icon("tiktok.com"@) == "tiktok.svg"@,
        kind_of_domain("instagram.com"@, SocialLinkType::Instagram),
        domain_icon("instagram.com"@) == "instagram.svg"@,
{
    lemma_bsky_distinct();
    reveal_strlit("twitter.com");
    reveal_strlit("x.com");
    reveal_strlit("bsky.app");
    reveal_strlit("youtube.com");
    reveal_strlit("www.youtube.com");
    reveal_strlit("soundcloud.com");
    reveal_strlit("nicovideo.jp");
    reveal_strlit("www.nicovideo.jp");
    reveal_strlit("github.com");
    reveal_strlit("linktree.com");
    reveal_strlit("linktr.ee");
    reveal_strlit("spotify.com");
    reveal_strlit("tiktok.com");
    reveal_strlit("instagram.com");
    reveal_strlit("bluesky.svg");
    reveal_strlit("github.svg");
    reveal_strlit("instagram.svg");
    reveal_strlit("linktree.svg");
    reveal_strlit("niconico.svg");
    reveal_strlit("soundcloud.svg");
    reveal_strlit("spotify.svg");
    reveal_strlit("tiktok.svg");
    reveal_strlit("twitter.svg");
    assert("x.com"@.len() != "twitter.com"@.len());
    assert("bsky.app"@.len() != "twitter.com"@.len());
    assert("bsky.app"@.len() != "x.com"@.len());
    assert("youtube.com"@[0] != "twitter.com"@[0]);
    assert("youtube.com"@.len() != "x.com"@.len());
    assert("youtube.com"@.len() != "bsky.app"@.len());
    assert("www.youtube.com"@.len() != "twitter.com"@.len());
    assert("www.youtube.com"@.len() != "x.com"@.len());
    assert("www.youtube.com"@.len() != "bsky.app"@.len());
    assert("www.youtube.com"@.len() != "youtube.com"@.len());
    assert("soundcloud.com"@.len() != "twitter.com"@.len());
    assert("soundcloud.com"@.len() != "x.com"@.len());
    assert("soundcloud.com"@.len() != "bsky.app"@.len());
    assert("soundcloud.com"@.len() != "youtube.com"@.len());
    assert("soundcloud.com"@.len() != "www.youtube.com"@.len());
    assert("nicovideo.jp"@.len() != "twitter.com"@.len());
    assert("nicovideo.jp"@.len() != "x.com"@.len());
    assert("nicovideo.jp"@.len() != "bsky.app"@.len());
    assert("nicovideo.jp"@.len() != "youtube.com"@.len());
    assert("nicovideo.jp"@.len() != "www.youtube.com"@.len());
    assert("nicovideo.jp"@.len() != "soundcloud.com"@.len());
    assert("www.nicovideo.jp"@.len() != "twitter.com"@.len());
    assert("www.nicovideo.jp"@.len() != "x.com"@.len());
    assert("www.nicovideo.jp"@.len() != "bsky.app"@.len());
    assert("www.nicovideo.jp"@.len() != "youtube.com"@.len());
    assert("www.nicovideo.jp"@.len() != "www.youtube.com"@.len());
    assert("www.nicovideo.jp"@.len() != "soundcloud.com"@.len());
    assert("www.nicovideo.jp"@.len() != "nicovideo.jp"@.len());
    assert("github.com"@.len() != "twitter.com"@.len());
    assert("github.com"@.len() != "x.com"@.len());
    assert("github.com"@.len() != "bsky.app"@.len());
    assert("github.com"@.len() != "youtube.com"@.len());
    assert("github.com"@.len() != "www.youtube.com"@.len());
    assert("github.com"@.len() != "soundcloud.com"@.len());
    assert("github.com"@.len() != "nicovideo.jp"@.len());
    assert("github.com"@.len() != "www.nicovideo.jp"@.len());
    assert("linktree.com"@.len() != "twitter.com"@.len());
    assert("linktree.com"@.len() != "x.com"@.len());
    assert("linktree.com"@.len() != "bsky.app"@.len());
    assert("linktree.com"@.len() != "youtube.com"@.len());
    assert("linktree.com"@.len() != "www.youtube.com"@.len());
    assert("linktree.com"@.len() != "soundcloud.com"@.len());
    assert("linktree.com"@[0] != "nicovideo.jp"@[0]);
    assert("linktree.com"@.len() != "www.nicovideo.jp"@.len());
    assert("linktree.com"@.len() != "github.com"@.len());
    assert("linktr.ee"@.len() != "twitter.com"@.len());
    assert("linktr.ee"@.len() != "x.com"@.len());
    assert("linktr.ee"@.len() != "bsky.app"@.len());
    assert("linktr.ee"@.len() != "youtube.com"@.len());
    assert("linktr.ee"@.len() != "www.youtube.com"@.len());
    assert("linktr.ee"@.len() != "soundcloud.com"@.len());
    assert("linktr.ee"@.len() != "nicovideo.jp"@.len());
    assert("linktr.ee"@.len() != "www.nicovideo.jp"@.len());
    assert("linktr.ee"@.len() != "github.com"@.len());
    assert("linktr.ee"@.len() != "linktree.com"@.len());
    assert("spotify.com"@[0] != "twitter.com"@[0]);
    assert("spotify.com"@.len() != "x.com"@.len());
    assert("spotify.com"@.len() != "bsky.app"@.len());
    assert("spotify.com"@[0] != "youtube.com"@[0]);
    assert("spotify.com"@.len() != "www.youtube.com"@.len());
    assert("spotify.com"@.len() != "soundcloud.com"@.len());
    assert("spotify.com"@.len() != "nicovideo.jp"@.len());
    assert("spotify.com"@.len() != "www.nicovideo.jp"@.len());
    assert("spotify.com"@.len() != "github.com"@.len());
    assert("spotify.com"@.len() != "linktree.com"@.len());
    assert("spotify.com"@.len() != "linktr.ee"@.len());
    assert("tiktok.com"@.len() != "twitter.com"@.len());
    assert("tiktok.com"@.len() != "x.com"@.len());
    assert("tiktok.com"@.len() != "bsky.app"@.len());
    assert("tiktok.com"@.len() != "youtube.com"@.len());
    assert("tiktok.com"@.len() != "www.youtube.com"@.len());
    assert("tiktok.com"@.len() != "soundcloud.com"@.len());
    assert("tiktok.com"@.len() != "nicovideo.jp"@.len());
    assert("tiktok.com"@.len() != "www.nicovideo.jp"@.len());
    assert("tiktok.com"@[0] != "github.com"@[0]);
    assert("tiktok.com"@.len() != "linktree.com"@.len());
    assert("tiktok.com"@.len() != "linktr.ee"@.len());
    assert("tiktok.com"@.len() != "spotify.com"@.len());
    assert("instagram.com"@.len() != "twitter.com"@.len());
    assert("instagram.com"@.len() != "x.com"@.len());
    assert("instagram.com"@.len() != "bsky.app"@.len());
    assert("instagram.com"@.len() != "youtube.com"@.len());
    assert("instagram.com"@.len() != "www.youtube.com"@.len());
    assert("instagram.com"@.len() != "soundcloud.com"@.len());
    assert("instagram.com"@.len() != "nicovideo.jp"@.len());
    assert("instagram.com"@.len() != "www.nicovideo.jp"@.len());
    assert("instagram.com"@.len() != "github.com"@.len());
    assert("instagram.com"@.len() != "linktree.com"@.len());
    assert("instagram.com"@.len() != "linktr.ee"@.len());
    assert("instagram.com"@.len() != "spotify.com"@.len());
    assert("instagram.com"@.len() != "tiktok.com"@.len());

    reveal_strlit("youtube.svg");
}

/// Whatever the domain, the icon a link is shown with is the icon of the kind
/// it is classified as, and a Bluesky icon alone is stretched.
pub proof fn law_icon_follows_kind(domain: Seq<char>, t: SocialLinkType)
    requires
        kind_of_domain(domain, t),
    ensures
        domain_icon(domain) == svg_icon_spec(t),
        domain_icon_style(domain) == if t == SocialLinkType::Bluesky {
            "width: 100%;"@
        } else {
            ""@
        },
{
    lemma_bsky_distinct();
}

proof fn lemma_bsky_distinct()
    ensures
        "bsky.app"@ != "twitter.com"@,
        "bsky.app"@ != "x.com"@,
{
    reveal_strlit("bsky.app");
    reveal_strlit("twitter.com");
    reveal_strlit("x.com");
    assert("bsky.app"@.len() == 8);
    assert("twitter.com"@.len() == 11);
    assert("x.com"@.len() == 5);
}

/// A link on a domain of a known kind becomes the anchor to the link (as the
/// URL parser writes it) holding that kind's icon.
pub proof fn law_link_icon(link: Seq<char>, text: Seq<char>, domain: Seq<char>, t: SocialLinkType)
    requires
        parsed_url(link) == Ok::<(Seq<char>, Option<Seq<char>>), Seq<char>>((text, Some(domain))),
        kind_of_domain(domain, t),
    ensures
        icon_result(link) == Ok::<Seq<char>, LinkFault>(
            "<a class=\"social-icon social-icon-size\" href=\""@ + html_escape(text) + "\"><img alt=\""@
                + html_escape(text) + "\" src=\""@ + html_escape("public/social_icons/"@ + svg_icon_spec(t))
                + "\" style=\""@ + html_escape(domain_icon_style(domain)) + "\"></a>"@,
        ),
{
    law_icon_follows_kind(domain, t);
}

} // verus!
