//! The site's sections: their OpenGraph types, their labels, and the
//! navigation bar that highlights the current one.

use vstd::prelude::*;

use crate::html::{escape_html, html_escape};
use crate::text::owned;

verus! {

/// The part of the site a page belongs to.
#[derive(Copy, Clone, Debug, Hash, Ord, PartialOrd, Eq, PartialEq, Structural)]
pub enum Sections {
    Home,
    Members,
    MemberProfile,
    Activities,
    Join,
    News,
    NewsPost,
    Works,
    WorksPost,
    AlbumPost,
}

/// The OpenGraph `og:type` of pages in a section.
pub open spec fn opengraph_type_spec(s: Sections) -> Seq<char> {
    match s {
        Sections::Home => "website"@,
        Sections::Members => "website"@,
        Sections::MemberProfile => "profile"@,
        Sections::Activities => "website"@,
        Sections::Join => "website"@,
        Sections::News => "website"@,
        Sections::NewsPost => "article"@,
        Sections::Works => "website"@,
        Sections::WorksPost => "music.song"@,
        Sections::AlbumPost => "music.album"@,
    }
}

/// The display label of a section.
pub open spec fn label_spec(s: Sections) -> Seq<char> {
    match s {
        Sections::Home => "ホームページ"@,
        Sections::Members => "メンバーご覧"@,
        Sections::MemberProfile => "i love amongus sooo much!"@,
        Sections::Activities => "活動内容"@,
        Sections::Join => "参加情報"@,
        Sections::News => "ニュースご覧"@,
        Sections::NewsPost => "i love the world and everything in it"@,
        Sections::Works => "メンバー作品ご覧"@,
        Sections::WorksPost => "join WSOC!"@,
        Sections::AlbumPost => "john [ano] numba one wynncraf' guild wi' da fines' bri'ish lads around"@,
    }
}

impl Sections {
    /// The OpenGraph `og:type` of pages in this section.
    pub fn opengraph_type(&self) -> (r: &'static str)
        ensures
            r@ == opengraph_type_spec(*self),
    {
        match self {
            Sections::Home => "website",
            Sections::Members => "website",
            Sections::MemberProfile => "profile",
            Sections::Activities => "website",
            Sections::Join => "website",
            Sections::News => "website",
            Sections::NewsPost => "article",
            Sections::Works => "website",
            Sections::WorksPost => "music.song",
            Sections::AlbumPost => "music.album",
        }
    }

    /// The display label of this section (what the section prints as).
    pub fn label(&self) -> (r: &'static str)
        ensures
            r@ == label_spec(*self),
    {
        match self {
            Sections::Home => "ホームページ",
            Sections::Members => "メンバーご覧",
            Sections::MemberProfile => "i love amongus sooo much!",
            Sections::Activities => "活動内容",
            Sections::Join => "参加情報",
            Sections::News => "ニュースご覧",
            Sections::NewsPost => "i love the world and everything in it",
            Sections::Works => "メンバー作品ご覧",
            Sections::WorksPost => "join WSOC!",
            Sections::AlbumPost => {
                "john [ano] numba one wynncraf' guild wi' da fines' bri'ish lads around"
            },
        }
    }
}

/// One entry of the navigation bar; the active one carries the `active`
/// class.
pub open spec fn navbar_item_html(link: Seq<char>, active: bool, inner: Seq<char>) -> Seq<char> {
    "<li><a class=\""@ + (if active {
        "active"@
    } else {
        ""@
    }) + "\" href=\""@ + html_escape(link) + "\">"@ + html_escape(inner) + "</a></li>"@
}

/// Renders one entry of the navigation bar.
pub fn navbar_item(link: &str, active: bool, inner: &str) -> (r: String)
    ensures
        r@ == navbar_item_html(link@, active, inner@),
{
    let mut out = owned("<li><a class=\"");
    if active {
        out.append("active");
    } else {
        out.append("");
    }
    out.append("\" href=\"");
    out.append(escape_html(link).as_str());
    out.append("\">");
    out.append(escape_html(inner).as_str());
    out.append("</a></li>");
    out
}

/// The site header with its navigation bar, `current` highlighted.
pub open spec fn navbar_html(current: Sections) -> Seq<char> {
    "<header><div class=\"container\"><a href=\"/index.html\"><h1>東京大学ボカロP同好会</h1></a><nav><ul>"@
        + navbar_item_html("/index.html"@, current == Sections::Home, "ホーム"@)
        + navbar_item_html(
        "/members.html"@,
        current == Sections::Members || current == Sections::MemberProfile,
        "メンバー紹介"@,
    ) + navbar_item_html("/index.html#activities"@, current == Sections::Activities, "活動内容"@)
        + navbar_item_html("/join.html"@, current == Sections::Join, "入会案内"@)
        + navbar_item_html(
        "/works.html"@,
        current == Sections::Works || current == Sections::WorksPost,
        "リリース"@,
    ) + navbar_item_html(
        "/news.html"@,
        current == Sections::News || current == Sections::NewsPost,
        "ニュース"@,
    ) + "</ul></nav></div></header>"@
}

/// Renders the site header for a page of section `current_section`.
pub fn navbar(current_section: Sections) -> (r: String)
    ensures
        r@ == navbar_html(current_section),
{
    let mut out = owned(
        "<header><div class=\"container\"><a href=\"/index.html\"><h1>東京大学ボカロP同好会</h1></a><nav><ul>",
    );
    let item = navbar_item("/index.html", current_section == Sections::Home, "ホーム");
    out.append(item.as_str());
    let item = navbar_item(
        "/members.html",
        current_section == Sections::Members || current_section == Sections::MemberProfile,
        "メンバー紹介",
    );
    out.append(item.as_str());
    let item = navbar_item(
        "/index.html#activities",
        current_section == Sections::Activities,
        "活動内容",
    );
    out.append(item.as_str());
    let item = navbar_item("/join.html", current_section == Sections::Join, "入会案内");
    out.append(item.as_str());
    let item = navbar_item(
        "/works.html",
        current_section == Sections::Works || current_section == Sections::WorksPost,
        "リリース",
    );
    out.append(item.as_str());
    let item = navbar_item(
        "/news.html",
        current_section == Sections::News || current_section == Sections::NewsPost,
        "ニュース",
    );
    out.append(item.as_str());
    out.append("</ul></nav></div></header>");
    out
}

/// A link to a member's page, as page templates write it.
pub open spec fn member_link_html(to_link: Seq<char>) -> Seq<char> {
    "<a href=\""@ + html_escape("/members/"@ + to_link) + "\">"@ + html_escape(to_link) + "</a>"@
}

/// Renders a link to the member page `to_link`.
pub fn member(to_link: &str) -> (r: String)
    ensures
        r@ == member_link_html(to_link@),
{
    let target = crate::text::concat2("/members/", to_link);
    let mut out = owned("<a href=\"");
    out.append(escape_html(target.as_str()).as_str());
    out.append("\">");
    out.append(escape_html(to_link).as_str());
    out.append("</a>");
    out
}

/// The template function behind `member(...)` in page text.
pub fn jinja_member(to_link: &str) -> (r: String)
    ensures
        r@ == member_link_html(to_link@),
{
    member(to_link)
}

} // verus!
