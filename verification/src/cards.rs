//! The cards that list works, albums, news posts and members on index and
//! member pages, as HTML.

use vstd::prelude::*;

use vstd::utf8::encode_utf8;

use crate::authors::{author_list, author_list_html};
use crate::date::{date_text, format_date, Date};
use crate::encoding::{percent_encoded, url_encode};
use crate::html::{escape_html, html_escape};
use crate::meta::{AlbumMeta, MemberMeta, NewsMeta, WorkMeta};
use crate::pages::{news_reference, NEWS_MISSING_AUTHOR};
use crate::reference::{reference, reference_spec, texts};
use crate::sitemap::SiteMap;
use crate::social::{parsed_url, sns_icon, sns_icon_html, LinkFault, SocialLinkError};
use crate::tables::{find_member, has_key, lemma_lookup_has_key, lookup, member_entries};
use crate::text::concat3;

verus! {

/// The icon markup for one social link, or why there is none.
pub open spec fn icon_result(link: Seq<char>) -> Result<Seq<char>, LinkFault> {
    match parsed_url(link) {
        Err(m) => Err(LinkFault::NotAUrl(m)),
        Ok((text, None)) => Err(LinkFault::NoDomain(text)),
        Ok((text, Some(d))) => Ok(sns_icon_html(text, d)),
    }
}

/// The icons of all the links, one after another, or the first link's error.
pub open spec fn icons_result(links: Seq<String>) -> Result<Seq<char>, LinkFault>
    decreases links.len(),
{
    if links.len() == 0 {
        Ok(Seq::empty())
    } else {
        match icons_result(links.drop_last()) {
            Err(e) => Err(e),
            Ok(h) => match icon_result(links.last()@) {
                Err(e) => Err(e),
                Ok(i) => Ok(h + i),
            },
        }
    }
}

/// Appends escaped text.
pub(crate) fn push_text(out: &mut String, s: &str)
    ensures
        final(out)@ == old(out)@ + html_escape(s@),
{
    let escaped = escape_html(s);
    out.append(escaped.as_str());
}

/// Appends a date as `YYYY-MM-DD`, escaped.
pub(crate) fn push_date(out: &mut String, d: Date)
    requires
        d.wf(),
    ensures
        final(out)@ == old(out)@ + html_escape(date_text(d)),
{
    let text = format_date(d);
    push_text(out, text.as_str());
}

/// Appends the icons of `links`; on an error `out` is left partly written.
pub(crate) fn push_icons(out: &mut String, links: &Vec<String>) -> (r: Result<(), SocialLinkError>)
    ensures
        match icons_result(links@) {
            Ok(h) => r is Ok && final(out)@ == old(out)@ + h,
            Err(e) => r matches Err(x) && x@ == e,
        },
{
    let mut i: usize = 0;
    while i < links.len()
        invariant
            i <= links@.len(),
            icons_result(links@.subrange(0, i as int)) matches Ok(h) && out@ == old(out)@ + h,
        decreases links@.len() - i,
    {
        let ghost prefix = links@.subrange(0, i as int);
        let ghost next = links@.subrange(0, i + 1);
        proof {
            assert(next.drop_last() =~= prefix);
            assert(next.last() == links@[i as int]);
        }
        match sns_icon(links[i].as_str()) {
            Ok(icon) => {
                out.append(icon.as_str());
            },
            Err(e) => {
                proof {
                    lemma_icons_error_persists(links@, i + 1);
                }
                return Err(e);
            },
        }
        i = i + 1;
    }
    assert(links@.subrange(0, links@.len() as int) =~= links@);
    Ok(())
}

/// Once a prefix of the links fails, the whole list fails the same way.
proof fn lemma_icons_error_persists(links: Seq<String>, k: int)
    requires
        0 <= k <= links.len(),
        icons_result(links.subrange(0, k)) is Err,
    ensures
        icons_result(links) == icons_result(links.subrange(0, k)),
    decreases links.len() - k,
{
    if k < links.len() {
        let next = links.subrange(0, k + 1);
        assert(next.drop_last() =~= links.subrange(0, k));
        lemma_icons_error_persists(links, k + 1);
    } else {
        assert(links.subrange(0, k) =~= links);
    }
}

/// The image shown for an entry: its own, or the gray placeholder.
pub open spec fn image_or_gray_of(image: Option<String>) -> Seq<char> {
    match image {
        Some(p) => p@,
        None => "gray.jpg"@,
    }
}

/// The author a news post is filed under.
pub open spec fn post_author(p: NewsMeta) -> Seq<char> {
    match p.author {
        Some(a) => a@,
        None => NEWS_MISSING_AUTHOR@,
    }
}

/// The reference of a news post.
pub open spec fn post_reference(p: NewsMeta) -> Seq<char> {
    reference_spec(p.title@, seq![post_author(p)], Seq::empty())
}

/// The byline of a news post: a link to its author's page showing the
/// member's name, or the club's name.
pub open spec fn post_byline_html(e: Seq<(Seq<char>, MemberMeta)>, p: NewsMeta) -> Seq<char> {
    match p.author {
        Some(a) => "<a href=\""@ + html_escape("/members/"@ + a@ + "/index.html"@) + "\"><p>"@
            + html_escape(lookup(e, a@).unwrap().name@) + "</p></a>"@,
        None => "<p>東大ボカロP同好会</p>"@,
    }
}

/// A post's summary, or nothing.
pub open spec fn short_or_empty(short: Option<String>) -> Seq<char> {
    match short {
        Some(s) => html_escape(s@),
        None => Seq::empty(),
    }
}

/// The card of a news post in the news index, up to its icons.
pub open spec fn news_card_head(e: Seq<(Seq<char>, MemberMeta)>, p: NewsMeta) -> Seq<char> {
    "<div class=\"post-card\"><div class=\"member-profile-image post-card-image\"><img class=\"post-img\" src=\""@
        + html_escape(image_or_gray_of(p.thumbnail))
        + "\"></img></div><div class=\"post-info\"><h3 class=\"post-card-title\"><a href=\""@
        + html_escape("/news/"@ + post_reference(p) + "/index.html"@) + "\">"@ + html_escape(p.title@)
        + "</a></h3><p class=\"member-role\">"@ + html_escape(date_text(p.date)) + "</p>"@
        + post_byline_html(e, p) + "<p>"@ + short_or_empty(p.short)
        + "</p><div class=\"member-links\">"@
}

/// The card of a news post in the news index.
pub open spec fn news_card_html(e: Seq<(Seq<char>, MemberMeta)>, p: NewsMeta) -> Result<
    Seq<char>,
    LinkFault,
> {
    match icons_result(p.sns_links@) {
        Err(err) => Err(err),
        Ok(icons) => Ok(news_card_head(e, p) + icons + "</div></div></div>"@),
    }
}

/// The characters of a rendered card, or its error.
pub open spec fn html_view(r: Result<String, SocialLinkError>) -> Result<Seq<char>, LinkFault> {
    match r {
        Ok(s) => Ok(s@),
        Err(e) => Err(e@),
    }
}

fn push_short(out: &mut String, short: &Option<String>)
    ensures
        final(out)@ == old(out)@ + short_or_empty(*short),
{
    match short {
        Some(s) => push_text(out, s.as_str()),
        None => {},
    }
}

fn push_post_byline(out: &mut String, site_map: &SiteMap, p: &NewsMeta)
    requires
        p.author matches Some(a) ==> has_key(member_entries(site_map.members), a@),
    ensures
        final(out)@ == old(out)@ + post_byline_html(member_entries(site_map.members), *p),
{
    match &p.author {
        Some(a) => {
            proof {
                lemma_lookup_has_key(member_entries(site_map.members), a@);
            }
            let member = find_member(&site_map.members, a.as_str()).unwrap();
            out.append("<a href=\"");
            let page = concat3("/members/", a.as_str(), "/index.html");
            push_text(out, page.as_str());
            out.append("\"><p>");
            push_text(out, member.name.as_str());
            out.append("</p></a>");
        },
        None => {
            out.append("<p>東大ボカロP同好会</p>");
        },
    }
}

/// The card of a news post in the news index: image, title linking to the
/// post, date, byline, summary and social links. The author of the post, if
/// it names one, must be a member.
pub fn news_card(site_map: &SiteMap, p: &NewsMeta) -> (r: Result<String, SocialLinkError>)
    requires
        p.date.wf(),
        p.author matches Some(a) ==> has_key(member_entries(site_map.members), a@),
    ensures
        html_view(r) == news_card_html(member_entries(site_map.members), *p),
{
    let ghost e = member_entries(site_map.members);
    let mut out = String::new();
    out.append(
        "<div class=\"post-card\"><div class=\"member-profile-image post-card-image\"><img class=\"post-img\" src=\"",
    );
    let image = match &p.thumbnail {
        Some(t) => t.as_str(),
        None => "gray.jpg",
    };
    push_text(&mut out, image);
    out.append(
        "\"></img></div><div class=\"post-info\"><h3 class=\"post-card-title\"><a href=\"",
    );
    let reference = news_reference(p);
    let page = concat3("/news/", reference.as_str(), "/index.html");
    push_text(&mut out, page.as_str());
    out.append("\">");
    push_text(&mut out, p.title.as_str());
    out.append("</a></h3><p class=\"member-role\">");
    push_date(&mut out, p.date);
    out.append("</p>");
    push_post_byline(&mut out, site_map, p);
    out.append("<p>");
    push_short(&mut out, &p.short);
    out.append("</p><div class=\"member-links\">");
    proof {
        assert(out@ =~= news_card_head(e, *p));
    }
    match push_icons(&mut out, &p.sns_links) {
        Ok(()) => {
            out.append("</div></div></div>");
            Ok(out)
        },
        Err(err) => Err(err),
    }
}

/// Whether every name of `names` is a member reference of the table.
pub open spec fn all_members(e: Seq<(Seq<char>, MemberMeta)>, names: Seq<String>) -> bool {
    forall|i: int| 0 <= i < names.len() ==> has_key(e, #[trigger] names[i]@)
}

/// The card of a member in the member list, up to its icons.
pub open spec fn member_card_head(m: MemberMeta) -> Seq<char> {
    "<div class=\"member-item\"><a class=\"member-link\" href=\""@ + html_escape(
        "/members/"@ + m.ascii_name@ + ".html"@,
    ) + "\"><div class=\"member-card\"><div class=\"member-image img-placeholder\"><img class=\"member-image img-placeholder\" src=\""@
        + html_escape("icon/"@ + m.ascii_name@ + ".jpg"@) + "\" alt=\""@ + html_escape(m.name@)
        + "\"></div><div class=\"member-info\" id=\""@ + html_escape(m.ascii_name@) + "\"><h3>"@
        + html_escape(m.name@) + "</h3>"@ + (match m.position {
        Some(role) => "<p class=\"member-role\">"@ + html_escape(role@) + "</p>"@,
        None => Seq::empty(),
    }) + (match m.department {
        Some(d) => "<p class=\"member-department\">"@ + html_escape(d@) + "</p>"@,
        None => Seq::empty(),
    }) + "<p class=\"member-description\">"@ + html_escape(m.short@)
        + "</p><div class=\"member-links\">"@ + (if m.links@.len() == 0 {
        "<div class=\"social-icon-size\" style=\"visibility: hidden\"></div>"@
    } else {
        Seq::empty()
    })
}

/// The card of a member in the member list.
pub open spec fn member_card_html(m: MemberMeta) -> Result<Seq<char>, LinkFault> {
    match icons_result(m.links@) {
        Err(err) => Err(err),
        Ok(icons) => Ok(member_card_head(m) + icons + "</div></div></div></a></div>"@),
    }
}

/// The card of a member in the member list: icon, name, position,
/// department, introduction and social links, linking to the member's page.
pub fn member_card(m: &MemberMeta) -> (r: Result<String, SocialLinkError>)
    ensures
        html_view(r) == member_card_html(*m),
{
    let mut out = String::new();
    out.append("<div class=\"member-item\"><a class=\"member-link\" href=\"");
    let page = concat3("/members/", m.ascii_name.as_str(), ".html");
    push_text(&mut out, page.as_str());
    out.append(
        "\"><div class=\"member-card\"><div class=\"member-image img-placeholder\"><img class=\"member-image img-placeholder\" src=\"",
    );
    let icon = concat3("icon/", m.ascii_name.as_str(), ".jpg");
    push_text(&mut out, icon.as_str());
    out.append("\" alt=\"");
    push_text(&mut out, m.name.as_str());
    out.append("\"></div><div class=\"member-info\" id=\"");
    push_text(&mut out, m.ascii_name.as_str());
    out.append("\"><h3>");
    push_text(&mut out, m.name.as_str());
    out.append("</h3>");
    match &m.position {
        Some(role) => {
            out.append("<p class=\"member-role\">");
            push_text(&mut out, role.as_str());
            out.append("</p>");
        },
        None => {},
    }
    match &m.department {
        Some(d) => {
            out.append("<p class=\"member-department\">");
            push_text(&mut out, d.as_str());
            out.append("</p>");
        },
        None => {},
    }
    out.append("<p class=\"member-description\">");
    push_text(&mut out, m.short.as_str());
    out.append("</p><div class=\"member-links\">");
    if m.links.len() == 0 {
        out.append("<div class=\"social-icon-size\" style=\"visibility: hidden\"></div>");
    }
    proof {
        assert(out@ =~= member_card_head(*m));
    }
    match push_icons(&mut out, &m.links) {
        Ok(()) => {
            out.append("</div></div></div></a></div>");
            Ok(out)
        },
        Err(err) => Err(err),
    }
}

/// A summary, or the note that there is none.
pub open spec fn short_or_note(short: Option<String>) -> Seq<char> {
    match short {
        Some(s) => html_escape(s@),
        None => "説明がありません。"@,
    }
}

fn push_short_or_note(out: &mut String, short: &Option<String>)
    ensures
        final(out)@ == old(out)@ + short_or_note(*short),
{
    match short {
        Some(s) => push_text(out, s.as_str()),
        None => out.append("説明がありません。"),
    }
}

/// The thumbnail image of a work: its illustration's, or none.
pub open spec fn work_image(w: WorkMeta) -> Option<String> {
    match w.thumbnail {
        Some(t) => Some(t.image),
        None => None,
    }
}

fn work_image_path(w: &WorkMeta) -> (r: &str)
    ensures
        r@ == image_or_gray_of(work_image(*w)),
{
    match &w.thumbnail {
        Some(t) => t.image.as_str(),
        None => "gray.jpg",
    }
}

/// The reference of a work.
pub open spec fn work_reference(w: WorkMeta) -> Seq<char> {
    reference_spec(w.title@, texts(w.authors@), texts(w.additional_authors@))
}

/// A work featured on a member's page.
pub open spec fn featured_work_html(w: WorkMeta) -> Seq<char> {
    "<div class=\"work-item-detail\" id=\""@ + html_escape(percent_encoded(encode_utf8(w.title@)))
        + "\"><h4>"@ + html_escape(w.title@)
        + "</h4><div class=\"work-youtube-container\"><img class=\"work-item-thumb\" src=\""@
        + html_escape(image_or_gray_of(work_image(w))) + "\" alt=\""@ + html_escape(w.title@)
        + "\"></img></div><div class=\"work-description\"><p>"@ + short_or_note(w.short)
        + "</p></div><div class=\"click-button\"><a href=\""@ + html_escape(
        "/works/releases/"@ + work_reference(w) + ".html"@,
    ) + "\"><p>詳しく見る</p></a></div></div>"@
}

/// A work featured on a member's page: title, thumbnail, summary and a link
/// to the work's page; the block's id is the percent-encoded title.
pub fn featured_work_detail(w: &WorkMeta) -> (r: String)
    ensures
        r@ == featured_work_html(*w),
{
    let mut out = String::new();
    out.append("<div class=\"work-item-detail\" id=\"");
    let id = url_encode(w.title.as_str());
    push_text(&mut out, id.as_str());
    out.append("\"><h4>");
    push_text(&mut out, w.title.as_str());
    out.append("</h4><div class=\"work-youtube-container\"><img class=\"work-item-thumb\" src=\"");
    push_text(&mut out, work_image_path(w));
    out.append("\" alt=\"");
    push_text(&mut out, w.title.as_str());
    out.append("\"></img></div><div class=\"work-description\"><p>");
    push_short_or_note(&mut out, &w.short);
    out.append("</p></div><div class=\"click-button\"><a href=\"");
    let reference = reference(w.title.as_str(), w.authors.as_slice(), w.additional_authors.as_slice());
    let page = concat3("/works/releases/", reference.as_str(), ".html");
    push_text(&mut out, page.as_str());
    out.append("\"><p>詳しく見る</p></a></div></div>");
    proof {
        assert(out@ =~= featured_work_html(*w));
    }
    out
}

/// A news post featured on a member's page, up to its icons.
pub open spec fn featured_post_head(p: NewsMeta) -> Seq<char> {
    "<div class=\"post-card\" style=\"width: 100%;\"><div class=\"member-profile-image post-card-image\"><img class=\"post-img\" src=\""@
        + html_escape(image_or_gray_of(p.thumbnail))
        + "\"></img></div><div class=\"post-info\"><h3 class=\"post-card-title\" style=\"text-align: start; margin-bottom: 0px;\"><a href=\""@
        + html_escape("/news/"@ + post_reference(p) + ".html"@) + "\">"@ + html_escape(p.title@)
        + "</a></h3><p class=\"member-role\">"@ + html_escape(date_text(p.date)) + "</p><p>"@
        + short_or_note(p.short) + "</p><div class=\"member-links\">"@
}

/// A news post featured on a member's page.
pub open spec fn featured_post_html(p: NewsMeta) -> Result<Seq<char>, LinkFault> {
    match icons_result(p.sns_links@) {
        Err(err) => Err(err),
        Ok(icons) => Ok(featured_post_head(p) + icons + "</div></div></div>"@),
    }
}

/// A news post featured on a member's page: image, title linking to the
/// post, date, summary and social links.
pub fn featured_post_detail(p: &NewsMeta) -> (r: Result<String, SocialLinkError>)
    requires
        p.date.wf(),
    ensures
        html_view(r) == featured_post_html(*p),
{
    let mut out = String::new();
    out.append(
        "<div class=\"post-card\" style=\"width: 100%;\"><div class=\"member-profile-image post-card-image\"><img class=\"post-img\" src=\"",
    );
    let image = match &p.thumbnail {
        Some(t) => t.as_str(),
        None => "gray.jpg",
    };
    push_text(&mut out, image);
    out.append(
        "\"></img></div><div class=\"post-info\"><h3 class=\"post-card-title\" style=\"text-align: start; margin-bottom: 0px;\"><a href=\"",
    );
    let reference = news_reference(p);
    let page = concat3("/news/", reference.as_str(), ".html");
    push_text(&mut out, page.as_str());
    out.append("\">");
    push_text(&mut out, p.title.as_str());
    out.append("</a></h3><p class=\"member-role\">");
    push_date(&mut out, p.date);
    out.append("</p><p>");
    push_short_or_note(&mut out, &p.short);
    out.append("</p><div class=\"member-links\">");
    proof {
        assert(out@ =~= featured_post_head(*p));
    }
    match push_icons(&mut out, &p.sns_links) {
        Ok(()) => {
            out.append("</div></div></div>");
            Ok(out)
        },
        Err(err) => Err(err),
    }
}

/// The reference of an album.
pub open spec fn album_reference(a: AlbumMeta) -> Seq<char> {
    reference_spec(a.title@, texts(a.authors@), texts(a.additional_authors@))
}

/// The credits of an album's authors.
pub open spec fn album_credits(e: Seq<(Seq<char>, MemberMeta)>, a: AlbumMeta) -> Seq<char> {
    author_list_html(e, a.authors@, a.additional_authors@)
}

/// An album featured on a member's page.
pub open spec fn featured_album_html(e: Seq<(Seq<char>, MemberMeta)>, a: AlbumMeta) -> Seq<char> {
    "<div class=\"post-card\" style=\"width: 100%;\"><div class=\"member-profile-image post-card-image\"><img class=\"work-item-thumb\" src=\""@
        + html_escape(a.thumbnail.image@) + "\" alt=\""@ + html_escape(a.title@)
        + "\"></img></div><div class=\"post-info\"><h3 class=\"post-card-title\" style=\"text-align: start; margin-bottom: 0px;\"><a href=\""@
        + html_escape("/works/albums/"@ + album_reference(a) + ".html"@) + "\">"@ + html_escape(
        a.title@,
    ) + "</a></h3><p class=\"work-role\">"@ + html_escape(date_text(a.date))
        + "</p><p class=\"member-role\">"@ + album_credits(e, a) + "</p></div></div>"@
}

/// An album featured on a member's page: cover, title linking to the album,
/// date and credits. Every author of the album must be a member.
pub fn featured_album_detail(site_map: &SiteMap, a: &AlbumMeta) -> (r: String)
    requires
        a.date.wf(),
        all_members(member_entries(site_map.members), a.authors@),
    ensures
        r@ == featured_album_html(member_entries(site_map.members), *a),
{
    let mut out = String::new();
    out.append(
        "<div class=\"post-card\" style=\"width: 100%;\"><div class=\"member-profile-image post-card-image\"><img class=\"work-item-thumb\" src=\"",
    );
    push_text(&mut out, a.thumbnail.image.as_str());
    out.append("\" alt=\"");
    push_text(&mut out, a.title.as_str());
    out.append(
        "\"></img></div><div class=\"post-info\"><h3 class=\"post-card-title\" style=\"text-align: start; margin-bottom: 0px;\"><a href=\"",
    );
    let reference = reference(a.title.as_str(), a.authors.as_slice(), a.additional_authors.as_slice());
    let page = concat3("/works/albums/", reference.as_str(), ".html");
    push_text(&mut out, page.as_str());
    out.append("\">");
    push_text(&mut out, a.title.as_str());
    out.append("</a></h3><p class=\"work-role\">");
    push_date(&mut out, a.date);
    out.append("</p><p class=\"member-role\">");
    let credits = author_list(site_map, a.authors.as_slice(), a.additional_authors.as_slice());
    out.append(credits.as_str());
    out.append("</p></div></div>");
    proof {
        assert(out@ =~= featured_album_html(member_entries(site_map.members), *a));
    }
    out
}

/// A work's summary, or nothing.
pub open spec fn short_plain(short: Option<String>) -> Seq<char> {
    match short {
        Some(s) => html_escape(s@),
        None => Seq::empty(),
    }
}

/// The card of a work in the works index.
pub open spec fn work_card_html(e: Seq<(Seq<char>, MemberMeta)>, w: WorkMeta) -> Seq<char> {
    let page = html_escape("/works/releases/"@ + work_reference(w) + "/index.html"@);
    "<div class=\"work-item\"><a class=\"member-link\" href=\""@ + page
        + "\"><div class=\"work-card\"><h4 class=\"member-info\"><a class=\"member-link\" href=\""@
        + page + "\">"@ + html_escape(w.title@)
        + "</a></h4><div class=\"work-thumbnail\"><img class=\"work-item-thumb\" src=\""@
        + html_escape(image_or_gray_of(work_image(w))) + "\" alt=\""@ + html_escape(w.title@)
        + "\"></img></div><div class=\"work-description\">"@ + author_list_html(
        e,
        w.authors@,
        w.additional_authors@,
    ) + "<p class=\"work-date\">"@ + html_escape(date_text(w.date)) + "</p><p>"@ + short_plain(
        w.short,
    ) + "</p></div></div></a></div>"@
}

/// The card of a work in the works index: title and thumbnail linking to the
/// work's page, credits, date and summary. Every author of the work must be
/// a member.
pub fn work_card(site_map: &SiteMap, w: &WorkMeta) -> (r: String)
    requires
        w.date.wf(),
        all_members(member_entries(site_map.members), w.authors@),
    ensures
        r@ == work_card_html(member_entries(site_map.members), *w),
{
    let reference = reference(w.title.as_str(), w.authors.as_slice(), w.additional_authors.as_slice());
    let page_path = concat3("/works/releases/", reference.as_str(), "/index.html");
    let page = escape_html(page_path.as_str());
    let mut out = String::new();
    out.append("<div class=\"work-item\"><a class=\"member-link\" href=\"");
    out.append(page.as_str());
    out.append(
        "\"><div class=\"work-card\"><h4 class=\"member-info\"><a class=\"member-link\" href=\"",
    );
    out.append(page.as_str());
    out.append("\">");
    push_text(&mut out, w.title.as_str());
    out.append("</a></h4><div class=\"work-thumbnail\"><img class=\"work-item-thumb\" src=\"");
    push_text(&mut out, work_image_path(w));
    out.append("\" alt=\"");
    push_text(&mut out, w.title.as_str());
    out.append("\"></img></div><div class=\"work-description\">");
    let credits = author_list(site_map, w.authors.as_slice(), w.additional_authors.as_slice());
    out.append(credits.as_str());
    out.append("<p class=\"work-date\">");
    push_date(&mut out, w.date);
    out.append("</p><p>");
    match &w.short {
        Some(s) => push_text(&mut out, s.as_str()),
        None => {},
    }
    out.append("</p></div></div></a></div>");
    proof {
        assert(out@ =~= work_card_html(member_entries(site_map.members), *w));
    }
    out
}

/// The card of an album in the works index.
pub open spec fn album_card_html(e: Seq<(Seq<char>, MemberMeta)>, a: AlbumMeta) -> Seq<char> {
    let page = html_escape("/works/albums/"@ + album_reference(a) + "/index.html"@);
    "<div class=\"work-item\"><a class=\"member-link\" href=\""@ + page
        + "\"><div class=\"work-card\"><h4 class=\"member-info\"><a href=\""@ + page + "\">"@
        + html_escape(a.title@)
        + "</a></h4><div class=\"work-thumbnail\"><img class=\"work-item-thumb\" src=\""@
        + html_escape(a.thumbnail.image@) + "\" alt=\""@ + html_escape(a.title@)
        + "\"></img></div><div class=\"work-description\"><p class=\"member-role\">"@
        + album_credits(e, a) + "</p><p class=\"work-date\">"@ + html_escape(date_text(a.date))
        + "</p><p>"@ + (match a.short {
        Some(s) => html_escape(s@),
        None => "<i>説明がありません</i>"@,
    }) + "</p></div></div></a></div>"@
}

/// The card of an album in the works index: title and cover linking to the
/// album's page, credits, date and summary. Every author of the album must
/// be a member.
pub fn album_card(site_map: &SiteMap, a: &AlbumMeta) -> (r: String)
    requires
        a.date.wf(),
        all_members(member_entries(site_map.members), a.authors@),
    ensures
        r@ == album_card_html(member_entries(site_map.members), *a),
{
    let reference = reference(a.title.as_str(), a.authors.as_slice(), a.additional_authors.as_slice());
    let page_path = concat3("/works/albums/", reference.as_str(), "/index.html");
    let page = escape_html(page_path.as_str());
    let mut out = String::new();
    out.append("<div class=\"work-item\"><a class=\"member-link\" href=\"");
    out.append(page.as_str());
    out.append("\"><div class=\"work-card\"><h4 class=\"member-info\"><a href=\"");
    out.append(page.as_str());
    out.append("\">");
    push_text(&mut out, a.title.as_str());
    out.append("</a></h4><div class=\"work-thumbnail\"><img class=\"work-item-thumb\" src=\"");
    push_text(&mut out, a.thumbnail.image.as_str());
    out.append("\" alt=\"");
    push_text(&mut out, a.title.as_str());
    out.append("\"></img></div><div class=\"work-description\"><p class=\"member-role\">");
    let credits = author_list(site_map, a.authors.as_slice(), a.additional_authors.as_slice());
    out.append(credits.as_str());
    out.append("</p><p class=\"work-date\">");
    push_date(&mut out, a.date);
    out.append("</p><p>");
    match &a.short {
        Some(s) => push_text(&mut out, s.as_str()),
        None => out.append("<i>説明がありません</i>"),
    }
    out.append("</p></div></div></a></div>");
    proof {
        assert(out@ =~= album_card_html(member_entries(site_map.members), *a));
    }
    out
}

/// An album's card shows the album's summary, escaped, where an album
/// without one shows the no-description note: two albums that differ only
/// in their summary have cards that differ only there.
pub proof fn law_album_card_summary(e: Seq<(Seq<char>, MemberMeta)>, a: AlbumMeta, s: String)
    ensures
        exists|p: Seq<char>, q: Seq<char>|
            album_card_html(e, AlbumMeta { short: Some(s), ..a }) == p + html_escape(s@) + q
                && album_card_html(e, AlbumMeta { short: None, ..a }) == p + "<i>説明がありません</i>"@ + q,
{
    let with = AlbumMeta { short: Some(s), ..a };
    let without = AlbumMeta { short: None, ..a };
    let page = html_escape("/works/albums/"@ + album_reference(a) + "/index.html"@);
    let p = "<div class=\"work-item\"><a class=\"member-link\" href=\""@ + page
        + "\"><div class=\"work-card\"><h4 class=\"member-info\"><a href=\""@ + page + "\">"@
        + html_escape(a.title@)
        + "</a></h4><div class=\"work-thumbnail\"><img class=\"work-item-thumb\" src=\""@
        + html_escape(a.thumbnail.image@) + "\" alt=\""@ + html_escape(a.title@)
        + "\"></img></div><div class=\"work-description\"><p class=\"member-role\">"@
        + album_credits(e, a) + "</p><p class=\"work-date\">"@ + html_escape(date_text(a.date))
        + "</p><p>"@;
    let q = "</p></div></div></a></div>"@;
    assert(album_reference(with) == album_reference(a));
    assert(album_reference(without) == album_reference(a));
    assert(album_credits(e, with) == album_credits(e, a));
    assert(album_credits(e, without) == album_credits(e, a));
    assert(album_card_html(e, with) =~= p + html_escape(s@) + q);
    assert(album_card_html(e, without) =~= p + "<i>説明がありません</i>"@ + q);
}

} // verus!
