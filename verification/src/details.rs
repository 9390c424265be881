//! The main content of the detail pages of members, works, albums and news
//! posts, as HTML. The rendered page text (`content`) is inserted as it is.

use vstd::prelude::*;

use crate::authors::{author_list, author_list_html};
use crate::cards::{
    all_members, featured_album_detail, featured_album_html, featured_post_detail,
    featured_post_html, featured_work_detail, featured_work_html, html_view, icons_result,
    image_or_gray_of, post_byline_html, push_date, push_icons, push_text, work_image,
};
use crate::date::{date_text, decimal_text, push_decimal};
use crate::html::html_escape;
use crate::meta::{AlbumMeta, Illustration, MemberMeta, NewsMeta, Track, WorkMeta};
use crate::reference::{reference, reference_spec, texts};
use crate::sitemap::{albums_of, first_five, posts_of, works_of, SiteMap};
use crate::social::{LinkFault, SocialLinkError};
use crate::tables::{
    find_member, has_key, illustration_at, illustration_count, illustration_entries,
    lemma_lookup_has_key, member_entries, track_at, track_count, track_entries,
};
use crate::text::{concat2, concat3};

verus! {

/// The main content of a news post's page, up to its icons.
pub open spec fn news_detail_head(e: Seq<(Seq<char>, MemberMeta)>, p: NewsMeta) -> Seq<char> {
    "<section id=\"post-detail\"><div class=\"member-detail-container\"><div class=\"member-profile\"><div class=\"work-image\"><img src=\""@
        + html_escape(image_or_gray_of(p.thumbnail))
        + "\" alt=\"header image\"></img></div><div class=\"member-profile-info\"><h2>"@
        + html_escape(p.title@) + "</h2><p>"@ + html_escape(date_text(p.date)) + "</p>"@
        + post_byline_html(e, p) + "<div class=\"member-links\">"@
}

/// The main content of a news post's page.
pub open spec fn news_detail_html(
    e: Seq<(Seq<char>, MemberMeta)>,
    p: NewsMeta,
    content: Seq<char>,
) -> Result<Seq<char>, LinkFault> {
    match icons_result(p.sns_links@) {
        Err(err) => Err(err),
        Ok(icons) => Ok(news_detail_head(e, p) + icons
            + "</div></div></div></div></section><div class=\"member-works-container\"><section class=\"work-description\" id=\"description\"><div class=\"description\">"@
            + content
            + "</div></section><div class=\"back-button\"><a href=\"../news/index.html\">ニュース目録一覧に戻る</a></div></div>"@),
    }
}

/// The main content of a news post's page: image, title, date, byline and
/// social links, then the post's text. The author of the post, if it names
/// one, must be a member.
pub fn news_detail(site_map: &SiteMap, p: &NewsMeta, content: String) -> (r: Result<
    String,
    SocialLinkError,
>)
    requires
        p.date.wf(),
        p.author matches Some(a) ==> has_key(member_entries(site_map.members), a@),
    ensures
        html_view(r) == news_detail_html(member_entries(site_map.members), *p, content@),
{
    let ghost e = member_entries(site_map.members);
    let mut out = String::new();
    out.append(
        "<section id=\"post-detail\"><div class=\"member-detail-container\"><div class=\"member-profile\"><div class=\"work-image\"><img src=\"",
    );
    let image = match &p.thumbnail {
        Some(t) => t.as_str(),
        None => "gray.jpg",
    };
    push_text(&mut out, image);
    out.append("\" alt=\"header image\"></img></div><div class=\"member-profile-info\"><h2>");
    push_text(&mut out, p.title.as_str());
    out.append("</h2><p>");
    push_date(&mut out, p.date);
    out.append("</p>");
    match &p.author {
        Some(a) => {
            proof {
                lemma_lookup_has_key(e, a@);
            }
            let member = find_member(&site_map.members, a.as_str()).unwrap();
            out.append("<a href=\"");
            let page = concat3("/members/", a.as_str(), "/index.html");
            push_text(&mut out, page.as_str());
            out.append("\"><p>");
            push_text(&mut out, member.name.as_str());
            out.append("</p></a>");
        },
        None => {
            out.append("<p>東大ボカロP同好会</p>");
        },
    }
    out.append("<div class=\"member-links\">");
    proof {
        assert(out@ =~= news_detail_head(e, *p));
    }
    match push_icons(&mut out, &p.sns_links) {
        Ok(()) => {
            out.append(
                "</div></div></div></div></section><div class=\"member-works-container\"><section class=\"work-description\" id=\"description\"><div class=\"description\">",
            );
            out.append(content.as_str());
            out.append(
                "</div></section><div class=\"back-button\"><a href=\"../news/index.html\">ニュース目録一覧に戻る</a></div></div>",
            );
            Ok(out)
        },
        Err(err) => Err(err),
    }
}

/// The featured works of a member's page, one after another.
pub open spec fn featured_works_html(ws: Seq<WorkMeta>) -> Seq<char>
    decreases ws.len(),
{
    if ws.len() == 0 {
        Seq::empty()
    } else {
        featured_works_html(ws.drop_last()) + featured_work_html(ws.last())
    }
}

/// The featured news posts of a member's page, or the first error.
pub open spec fn featured_posts_html(ps: Seq<NewsMeta>) -> Result<Seq<char>, LinkFault>
    decreases ps.len(),
{
    if ps.len() == 0 {
        Ok(Seq::empty())
    } else {
        match featured_posts_html(ps.drop_last()) {
            Err(e) => Err(e),
            Ok(h) => match featured_post_html(ps.last()) {
                Err(e) => Err(e),
                Ok(x) => Ok(h + x),
            },
        }
    }
}

/// The featured albums of a member's page, one after another.
pub open spec fn featured_albums_html(e: Seq<(Seq<char>, MemberMeta)>, albums: Seq<AlbumMeta>) -> Seq<
    char,
>
    decreases albums.len(),
{
    if albums.len() == 0 {
        Seq::empty()
    } else {
        featured_albums_html(e, albums.drop_last()) + featured_album_html(e, albums.last())
    }
}

/// A note shown in an empty list.
pub open spec fn empty_note(text: Seq<char>) -> Seq<char> {
    "<p class=\"work-description\" style=\"text-align: center;\"><em>"@ + text + "</em></p>"@
}

/// One list of a member's page: heading, entries, and a note when there are
/// none.
pub open spec fn featured_block(title: Seq<char>, items: Seq<char>, empty: bool, note: Seq<char>) -> Seq<
    char,
> {
    "<div class=\"member-featured-works\"><h3>"@ + title + "</h3><div class=\"container\">"@ + items
        + (if empty {
        empty_note(note)
    } else {
        Seq::empty()
    }) + "</div></div>"@
}

/// The profile part of a member's page, up to its icons. The portrait is
/// the icon file named after the member's ASCII name.
pub open spec fn member_profile_head(m: MemberMeta, content: Seq<char>) -> Seq<char> {
    "<section id=\"member-detail\"><div class=\"member-detail-container\"><div class=\"member-profile\"><div class=\"member-profile-image\"><img class=\"img-placeholder\" src=\""@
        + html_escape("icon/"@ + m.ascii_name@ + ".jpg"@) + "\" alt=\""@ + html_escape(m.name@)
        + "\"></div><div class=\"member-profile-info\"><h2>"@ + html_escape(m.name@) + "</h2>"@
        + (match m.position {
        Some(role) => "<p class=\"member-role\">"@ + html_escape(role@) + "</p>"@,
        None => Seq::empty(),
    }) + "<div class=\"member-bio\">"@ + content + "</div><div class=\"member-links\">"@
}

/// The main content of a member's page.
pub open spec fn member_detail_html(
    m: MemberMeta,
    e: Seq<(Seq<char>, MemberMeta)>,
    works: Seq<WorkMeta>,
    posts: Seq<NewsMeta>,
    albums: Seq<AlbumMeta>,
    content: Seq<char>,
) -> Result<Seq<char>, LinkFault> {
    let ws = first_five(works_of(works, m.ascii_name@));
    let ps = first_five(posts_of(posts, m.ascii_name@));
    let als = first_five(albums_of(albums, m.ascii_name@));
    match icons_result(m.links@) {
        Err(err) => Err(err),
        Ok(icons) => match featured_posts_html(ps) {
            Err(err) => Err(err),
            Ok(post_items) => Ok(member_profile_head(m, content) + icons
                + "</div></div></div></div><div class=\"member-works-container\">"@
                + featured_block("最近投稿作品"@, featured_works_html(ws), ws.len() == 0, "代表作品がありません。"@)
                + featured_block("最近投稿ニュース"@, post_items, ps.len() == 0, "ポストがありません。"@)
                + featured_block(
                "最近投稿アルバム"@,
                featured_albums_html(e, als),
                als.len() == 0,
                "アルバムがありません。"@,
            )
                + "<div class=\"back-button\"><a href=\"../members.html\" class=\"margin-top: 50px;\">メンバー一覧に戻る</a></div></div></section>"@),
        },
    }
}

fn push_note_if_empty(out: &mut String, empty: bool, note: &str)
    ensures
        final(out)@ == old(out)@ + (if empty {
            empty_note(note@)
        } else {
            Seq::empty()
        }),
{
    if empty {
        out.append("<p class=\"work-description\" style=\"text-align: center;\"><em>");
        out.append(note);
        out.append("</em></p>");
    }
}

/// Whether every album's authors are members.
pub open spec fn albums_credit_members(e: Seq<(Seq<char>, MemberMeta)>, albums: Seq<AlbumMeta>) -> bool {
    forall|i: int| 0 <= i < albums.len() ==> all_members(e, #[trigger] albums[i].authors@)
}

/// Whether every entry has a real date.
pub open spec fn news_dates_wf(ps: Seq<NewsMeta>) -> bool {
    forall|i: int| 0 <= i < ps.len() ==> #[trigger] ps[i].date.wf()
}

/// Whether every album has a real date.
pub open spec fn album_dates_wf(albums: Seq<AlbumMeta>) -> bool {
    forall|i: int| 0 <= i < albums.len() ==> #[trigger] albums[i].date.wf()
}

proof fn lemma_first_five_albums(albums: Seq<AlbumMeta>, m: Seq<char>)
    requires
        album_dates_wf(albums),
    ensures
        album_dates_wf(first_five(albums_of(albums, m))),
    decreases albums.len(),
{
    lemma_albums_of_sub(albums, m);
    let s = albums_of(albums, m);
    let f = first_five(s);
    assert forall|i: int| 0 <= i < f.len() implies #[trigger] f[i] == s[i] by {}
    assert forall|i: int| 0 <= i < f.len() implies #[trigger] f[i].date.wf() by {
        let j = choose|j: int| 0 <= j < albums.len() && albums[j] == s[i];
        assert(albums[j].date.wf());
    }
}

proof fn lemma_albums_of_sub(albums: Seq<AlbumMeta>, m: Seq<char>)
    ensures
        forall|i: int|
            0 <= i < albums_of(albums, m).len() ==> exists|j: int|
                0 <= j < albums.len() && albums[j] == #[trigger] albums_of(albums, m)[i],
    decreases albums.len(),
{
    if albums.len() > 0 {
        let d = albums.drop_last();
        lemma_albums_of_sub(d, m);
        let s = albums_of(albums, m);
        assert forall|i: int| 0 <= i < s.len() implies exists|j: int|
            0 <= j < albums.len() && albums[j] == #[trigger] s[i] by {
            if i < albums_of(d, m).len() {
                let j = choose|j: int| 0 <= j < d.len() && d[j] == albums_of(d, m)[i];
                assert(albums[j] == d[j]);
            } else {
                assert(albums[albums.len() - 1] == s[i]);
            }
        }
    }
}

proof fn lemma_posts_of_sub(posts: Seq<NewsMeta>, m: Seq<char>)
    ensures
        forall|i: int|
            0 <= i < posts_of(posts, m).len() ==> exists|j: int|
                0 <= j < posts.len() && posts[j] == #[trigger] posts_of(posts, m)[i],
    decreases posts.len(),
{
    if posts.len() > 0 {
        let d = posts.drop_last();
        lemma_posts_of_sub(d, m);
        let s = posts_of(posts, m);
        assert forall|i: int| 0 <= i < s.len() implies exists|j: int|
            0 <= j < posts.len() && posts[j] == #[trigger] s[i] by {
            if i < posts_of(d, m).len() {
                let j = choose|j: int| 0 <= j < d.len() && d[j] == posts_of(d, m)[i];
                assert(posts[j] == d[j]);
            } else {
                assert(posts[posts.len() - 1] == s[i]);
            }
        }
    }
}

fn push_featured_works(out: &mut String, ws: &Vec<&WorkMeta>, target: Ghost<Seq<WorkMeta>>)
    requires
        crate::sitemap::refs_to(ws@, target@),
    ensures
        final(out)@ == old(out)@ + featured_works_html(target@),
{
    let mut i: usize = 0;
    while i < ws.len()
        invariant
            i <= ws@.len(),
            crate::sitemap::refs_to(ws@, target@),
            out@ == old(out)@ + featured_works_html(target@.subrange(0, i as int)),
        decreases ws@.len() - i,
    {
        let item = featured_work_detail(ws[i]);
        out.append(item.as_str());
        proof {
            let next = target@.subrange(0, i + 1);
            assert(next.drop_last() =~= target@.subrange(0, i as int));
            assert(next.last() == *ws@[i as int]);
        }
        i = i + 1;
    }
    assert(target@.subrange(0, ws@.len() as int) =~= target@);
}

fn push_featured_posts(out: &mut String, ps: &Vec<&NewsMeta>, target: Ghost<Seq<NewsMeta>>) -> (r: Result<
    (),
    SocialLinkError,
>)
    requires
        crate::sitemap::refs_to(ps@, target@),
        news_dates_wf(target@),
    ensures
        match featured_posts_html(target@) {
            Ok(h) => r is Ok && final(out)@ == old(out)@ + h,
            Err(e) => r matches Err(x) && x@ == e,
        },
{
    let mut i: usize = 0;
    while i < ps.len()
        invariant
            i <= ps@.len(),
            crate::sitemap::refs_to(ps@, target@),
            news_dates_wf(target@),
            featured_posts_html(target@.subrange(0, i as int)) matches Ok(h) && out@ == old(out)@ + h,
        decreases ps@.len() - i,
    {
        let ghost next = target@.subrange(0, i + 1);
        proof {
            assert(next.drop_last() =~= target@.subrange(0, i as int));
            assert(next.last() == *ps@[i as int]);
            assert(target@[i as int].date.wf());
        }
        match featured_post_detail(ps[i]) {
            Ok(item) => {
                out.append(item.as_str());
            },
            Err(e) => {
                proof {
                    lemma_posts_error_persists(target@, i + 1);
                }
                return Err(e);
            },
        }
        i = i + 1;
    }
    assert(target@.subrange(0, ps@.len() as int) =~= target@);
    Ok(())
}

proof fn lemma_posts_error_persists(ps: Seq<NewsMeta>, k: int)
    requires
        0 <= k <= ps.len(),
        featured_posts_html(ps.subrange(0, k)) is Err,
    ensures
        featured_posts_html(ps) == featured_posts_html(ps.subrange(0, k)),
    decreases ps.len() - k,
{
    if k < ps.len() {
        let next = ps.subrange(0, k + 1);
        assert(next.drop_last() =~= ps.subrange(0, k));
        lemma_posts_error_persists(ps, k + 1);
    } else {
        assert(ps.subrange(0, k) =~= ps);
    }
}

fn push_featured_albums(
    out: &mut String,
    site_map: &SiteMap,
    albums: &Vec<&AlbumMeta>,
    target: Ghost<Seq<AlbumMeta>>,
)
    requires
        crate::sitemap::refs_to(albums@, target@),
        albums_credit_members(member_entries(site_map.members), target@),
        album_dates_wf(target@),
    ensures
        final(out)@ == old(out)@ + featured_albums_html(member_entries(site_map.members), target@),
{
    let ghost e = member_entries(site_map.members);
    let mut i: usize = 0;
    while i < albums.len()
        invariant
            i <= albums@.len(),
            e == member_entries(site_map.members),
            crate::sitemap::refs_to(albums@, target@),
            albums_credit_members(e, target@),
            album_dates_wf(target@),
            out@ == old(out)@ + featured_albums_html(e, target@.subrange(0, i as int)),
        decreases albums@.len() - i,
    {
        proof {
            assert(all_members(e, target@[i as int].authors@));
            assert(target@[i as int].date.wf());
        }
        let item = featured_album_detail(site_map, albums[i]);
        out.append(item.as_str());
        proof {
            let next = target@.subrange(0, i + 1);
            assert(next.drop_last() =~= target@.subrange(0, i as int));
            assert(next.last() == *albums@[i as int]);
        }
        i = i + 1;
    }
    assert(target@.subrange(0, albums@.len() as int) =~= target@);
}

fn member_profile(m: &MemberMeta, content: &str) -> (r: Result<String, SocialLinkError>)
    ensures
        html_view(r) == match icons_result(m.links@) {
            Err(err) => Err::<Seq<char>, LinkFault>(err),
            Ok(icons) => Ok(member_profile_head(*m, content@) + icons),
        },
{
    let mut out = String::new();
    out.append(
        "<section id=\"member-detail\"><div class=\"member-detail-container\"><div class=\"member-profile\"><div class=\"member-profile-image\"><img class=\"img-placeholder\" src=\"",
    );
    let icon = concat3("icon/", m.ascii_name.as_str(), ".jpg");
    push_text(&mut out, icon.as_str());
    out.append("\" alt=\"");
    push_text(&mut out, m.name.as_str());
    out.append("\"></div><div class=\"member-profile-info\"><h2>");
    push_text(&mut out, m.name.as_str());
    out.append("</h2>");
    match &m.position {
        Some(role) => {
            out.append("<p class=\"member-role\">");
            push_text(&mut out, role.as_str());
            out.append("</p>");
        },
        None => {},
    }
    out.append("<div class=\"member-bio\">");
    out.append(content);
    out.append("</div><div class=\"member-links\">");
    proof {
        assert(out@ =~= member_profile_head(*m, content@));
    }
    match push_icons(&mut out, &m.links) {
        Ok(()) => Ok(out),
        Err(err) => Err(err),
    }
}

fn block_start(title: &str) -> (r: String)
    ensures
        r@ == "<div class=\"member-featured-works\"><h3>"@ + title@ + "</h3><div class=\"container\">"@,
{
    concat3("<div class=\"member-featured-works\"><h3>", title, "</h3><div class=\"container\">")
}

fn works_block(ws: &Vec<&WorkMeta>, target: Ghost<Seq<WorkMeta>>) -> (r: String)
    requires
        crate::sitemap::refs_to(ws@, target@),
    ensures
        r@ == featured_block("最近投稿作品"@, featured_works_html(target@), target@.len() == 0, "代表作品がありません。"@),
{
    let mut out = block_start("最近投稿作品");
    push_featured_works(&mut out, ws, target);
    push_note_if_empty(&mut out, ws.len() == 0, "代表作品がありません。");
    out.append("</div></div>");
    out
}

fn posts_block(ps: &Vec<&NewsMeta>, target: Ghost<Seq<NewsMeta>>) -> (r: Result<String, SocialLinkError>)
    requires
        crate::sitemap::refs_to(ps@, target@),
        news_dates_wf(target@),
    ensures
        html_view(r) == match featured_posts_html(target@) {
            Err(err) => Err::<Seq<char>, LinkFault>(err),
            Ok(items) => Ok(featured_block("最近投稿ニュース"@, items, target@.len() == 0, "ポストがありません。"@)),
        },
{
    let mut out = block_start("最近投稿ニュース");
    match push_featured_posts(&mut out, ps, target) {
        Ok(()) => {},
        Err(err) => {
            return Err(err);
        },
    }
    push_note_if_empty(&mut out, ps.len() == 0, "ポストがありません。");
    out.append("</div></div>");
    Ok(out)
}

fn albums_block(site_map: &SiteMap, albums: &Vec<&AlbumMeta>, target: Ghost<Seq<AlbumMeta>>) -> (r: String)
    requires
        crate::sitemap::refs_to(albums@, target@),
        albums_credit_members(member_entries(site_map.members), target@),
        album_dates_wf(target@),
    ensures
        r@ == featured_block(
            "最近投稿アルバム"@,
            featured_albums_html(member_entries(site_map.members), target@),
            target@.len() == 0,
            "アルバムがありません。"@,
        ),
{
    let mut out = block_start("最近投稿アルバム");
    push_featured_albums(&mut out, site_map, albums, target);
    push_note_if_empty(&mut out, albums.len() == 0, "アルバムがありません。");
    out.append("</div></div>");
    out
}

proof fn lemma_recent_posts_dated(news: Seq<NewsMeta>, m: Seq<char>)
    requires
        news_dates_wf(news),
    ensures
        news_dates_wf(first_five(posts_of(news, m))),
{
    lemma_posts_of_sub(news, m);
    let s = posts_of(news, m);
    let ps = first_five(s);
    assert forall|i: int| 0 <= i < ps.len() implies #[trigger] ps[i].date.wf() by {
        assert(ps[i] == s[i]);
        let j = choose|j: int| 0 <= j < news.len() && news[j] == s[i];
        assert(news[j].date.wf());
    }
}

/// The main content of a member's page: icon, name, position, the rendered
/// introduction and social links, then the member's five most recent works,
/// news posts and albums. The news posts and albums must carry real dates,
/// and the albums shown (the five most recent crediting the member) must
/// credit only members.
pub fn member_detail(m: &MemberMeta, site_map: &SiteMap, content: String) -> (r: Result<
    String,
    SocialLinkError,
>)
    requires
        news_dates_wf(site_map.news@),
        album_dates_wf(site_map.albums@),
        albums_credit_members(
            member_entries(site_map.members),
            first_five(albums_of(site_map.albums@, m.ascii_name@)),
        ),
    ensures
        html_view(r) == member_detail_html(
            *m,
            member_entries(site_map.members),
            site_map.works@,
            site_map.news@,
            site_map.albums@,
            content@,
        ),
{
    let ghost ws = first_five(works_of(site_map.works@, m.ascii_name@));
    let ghost ps = first_five(posts_of(site_map.news@, m.ascii_name@));
    let ghost als = first_five(albums_of(site_map.albums@, m.ascii_name@));
    let recent_works = site_map.recent_works(m.ascii_name.as_str());
    let recent_news = site_map.recent_news(m.ascii_name.as_str());
    let recent_albums = site_map.recent_albums(m.ascii_name.as_str());
    proof {
        lemma_first_five_albums(site_map.albums@, m.ascii_name@);
        lemma_recent_posts_dated(site_map.news@, m.ascii_name@);
    }
    let profile = match member_profile(m, content.as_str()) {
        Ok(p) => p,
        Err(err) => {
            return Err(err);
        },
    };
    let posts = match posts_block(&recent_news, Ghost(ps)) {
        Ok(p) => p,
        Err(err) => {
            return Err(err);
        },
    };
    let works = works_block(&recent_works, Ghost(ws));
    let albums = albums_block(site_map, &recent_albums, Ghost(als));
    let mut out = profile;
    out.append("</div></div></div></div><div class=\"member-works-container\">");
    out.append(works.as_str());
    out.append(posts.as_str());
    out.append(albums.as_str());
    out.append(
        "<div class=\"back-button\"><a href=\"../members.html\" class=\"margin-top: 50px;\">メンバー一覧に戻る</a></div></div></section>",
    );
    Ok(out)
}

/// The part of a work's page that links to the work itself.
pub open spec fn work_source_html(w: WorkMeta, embed: Seq<char>) -> Seq<char> {
    match w.source {
        Some(link) => "<div class=\"youtube-embed-container\">"@ + embed
            + "</div><div class=\"click-button\"><a href=\""@ + html_escape(link@) + "\" alt=\""@
            + html_escape(w.title@) + "\"><p>現本に行く</p></a></div>"@,
        None => "<p class=\"work-no-description\"><em>リンクがありません。</em></p>"@,
    }
}

/// The description part of a work's page.
pub open spec fn work_description_html(content: Seq<char>) -> Seq<char> {
    if content.len() == 0 {
        "<p class=\"work-no-description\"><em>説明がありません。</em></p>"@
    } else {
        "<div class=\"description\">"@ + content + "</div>"@
    }
}

/// The main content of a work's page, up to its icons.
pub open spec fn work_detail_head(e: Seq<(Seq<char>, MemberMeta)>, w: WorkMeta) -> Seq<char> {
    "<section id=\"work-section\"><div class=\"work-detail-container\"><div class=\"work-detail\"><div class=\"work-thumbnail\"><img class=\"img-placeholder\" src=\""@
        + html_escape(image_or_gray_of(work_image(w))) + "\" alt=\""@ + html_escape(w.title@)
        + "\"></div><div class=\"work-info\"><h2>"@ + html_escape(w.title@)
        + "</h2><div class=\"work-date\"><p>"@ + html_escape(date_text(w.date)) + "</p></div><p>投稿者: "@
        + author_list_html(e, w.authors@, w.additional_authors@) + "</p>"@ + (match w.short {
        Some(s) => "<p class=\"work-bio\">"@ + html_escape(s@) + "</p>"@,
        None => Seq::empty(),
    }) + "<div class=\"member-links\">"@
}

/// Why a work's or an album's page could not be made: a social link
/// failed, or the player for its source or preview failed to render (with
/// the player's message).
#[derive(Debug, Clone, PartialEq, Eq)]
pub enum DetailError {
    Link(SocialLinkError),
    Player(String),
}

/// What a `DetailError` says, as plain text.
pub enum DetailFault {
    Link(LinkFault),
    Player(Seq<char>),
}

/// The characters a page result carries.
pub open spec fn detail_view(r: Result<String, DetailError>) -> Result<Seq<char>, DetailFault> {
    match r {
        Ok(s) => Ok(s@),
        Err(DetailError::Link(e)) => Err(DetailFault::Link(e@)),
        Err(DetailError::Player(m)) => Err(DetailFault::Player(m@)),
    }
}

/// The characters a player's outcome carries: its markup, or its message.
pub open spec fn player_view(p: Result<String, String>) -> Result<Seq<char>, Seq<char>> {
    match p {
        Ok(s) => Ok(s@),
        Err(m) => Err(m@),
    }
}

/// A page with a player: the social links' failure first, then the
/// player's (only when there is something to play), otherwise the page made
/// from the icons and the player's markup.
pub open spec fn with_player(
    icons: Result<Seq<char>, LinkFault>,
    plays: bool,
    player: Result<Seq<char>, Seq<char>>,
    page: spec_fn(Seq<char>, Seq<char>) -> Seq<char>,
) -> Result<Seq<char>, DetailFault> {
    match icons {
        Err(err) => Err(DetailFault::Link(err)),
        Ok(i) => if plays {
            match player {
                Err(m) => Err(DetailFault::Player(m)),
                Ok(p) => Ok(page(i, p)),
            }
        } else {
            Ok(page(i, Seq::empty()))
        },
    }
}

/// The main content of a work's page.
pub open spec fn work_detail_html(
    e: Seq<(Seq<char>, MemberMeta)>,
    w: WorkMeta,
    content: Seq<char>,
    player: Result<Seq<char>, Seq<char>>,
) -> Result<Seq<char>, DetailFault> {
    with_player(
        icons_result(w.sns_links@),
        w.source is Some,
        player,
        |icons: Seq<char>, embed: Seq<char>|
            work_detail_head(e, w) + icons + work_detail_tail(w, content, embed),
    )
}

fn work_head(site_map: &SiteMap, w: &WorkMeta) -> (r: String)
    requires
        w.date.wf(),
        all_members(member_entries(site_map.members), w.authors@),
    ensures
        r@ == work_detail_head(member_entries(site_map.members), *w),
{
    let mut out = String::new();
    out.append(
        "<section id=\"work-section\"><div class=\"work-detail-container\"><div class=\"work-detail\"><div class=\"work-thumbnail\"><img class=\"img-placeholder\" src=\"",
    );
    let image = match &w.thumbnail {
        Some(t) => t.image.as_str(),
        None => "gray.jpg",
    };
    push_text(&mut out, image);
    out.append("\" alt=\"");
    push_text(&mut out, w.title.as_str());
    out.append("\"></div><div class=\"work-info\"><h2>");
    push_text(&mut out, w.title.as_str());
    out.append("</h2><div class=\"work-date\"><p>");
    push_date(&mut out, w.date);
    out.append("</p></div><p>投稿者: ");
    let credits = author_list(site_map, w.authors.as_slice(), w.additional_authors.as_slice());
    out.append(credits.as_str());
    out.append("</p>");
    match &w.short {
        Some(s) => {
            out.append("<p class=\"work-bio\">");
            push_text(&mut out, s.as_str());
            out.append("</p>");
        },
        None => {},
    }
    out.append("<div class=\"member-links\">");
    proof {
        assert(out@ =~= work_detail_head(member_entries(site_map.members), *w));
    }
    out
}

/// The rest of a work's page after its icons.
pub open spec fn work_detail_tail(w: WorkMeta, content: Seq<char>, embed: Seq<char>) -> Seq<char> {
    "</div></div></div></div><div class=\"member-works-container\"><section class=\"work-featured-work-container\"><h2>作品リンク</h2>"@
        + work_source_html(w, embed)
        + "</section><section class=\"work-description\" id=\"description\"><h2>作品説明</h2>"@
        + work_description_html(content)
        + "</section><div class=\"back-button\"><a href=\"../../works/index.html\">リリース集合一覧に戻る</a></div></div></section>"@
}

fn work_tail(w: &WorkMeta, content: &str, embed: &str) -> (r: String)
    ensures
        r@ == work_detail_tail(*w, content@, embed@),
{
    let mut out = String::new();
    out.append(
        "</div></div></div></div><div class=\"member-works-container\"><section class=\"work-featured-work-container\"><h2>作品リンク</h2>",
    );
    match &w.source {
        Some(link) => {
            out.append("<div class=\"youtube-embed-container\">");
            out.append(embed);
            out.append("</div><div class=\"click-button\"><a href=\"");
            push_text(&mut out, link.as_str());
            out.append("\" alt=\"");
            push_text(&mut out, w.title.as_str());
            out.append("\"><p>現本に行く</p></a></div>");
        },
        None => {
            out.append("<p class=\"work-no-description\"><em>リンクがありません。</em></p>");
        },
    }
    out.append("</section><section class=\"work-description\" id=\"description\"><h2>作品説明</h2>");
    if content.unicode_len() == 0 {
        out.append("<p class=\"work-no-description\"><em>説明がありません。</em></p>");
    } else {
        out.append("<div class=\"description\">");
        out.append(content);
        out.append("</div>");
    }
    out.append(
        "</section><div class=\"back-button\"><a href=\"../../works/index.html\">リリース集合一覧に戻る</a></div></div></section>",
    );
    proof {
        assert(out@ =~= work_detail_tail(*w, content@, embed@));
    }
    out
}

/// The main content of a work's page: thumbnail, title, date, credits,
/// summary and social links, then the player with a link to the source, and
/// the rendered description. `player` is the outcome of rendering the player
/// for the work's source; it is used only when the work has a source, and
/// its failure then fails the page. Every author of the work must be a
/// member.
pub fn work_detail(site_map: &SiteMap, w: &WorkMeta, content: String, player: Result<String, String>) -> (r: Result<
    String,
    DetailError,
>)
    requires
        w.date.wf(),
        all_members(member_entries(site_map.members), w.authors@),
    ensures
        detail_view(r) == work_detail_html(
            member_entries(site_map.members),
            *w,
            content@,
            player_view(player),
        ),
{
    let mut out = work_head(site_map, w);
    match push_icons(&mut out, &w.sns_links) {
        Ok(()) => {},
        Err(err) => {
            return Err(DetailError::Link(err));
        },
    }
    let embed = match &w.source {
        Some(_) => match player {
            Ok(p) => p,
            Err(m) => {
                return Err(DetailError::Player(m));
            },
        },
        None => String::new(),
    };
    let tail = work_tail(w, content.as_str(), embed.as_str());
    out.append(tail.as_str());
    Ok(out)
}

/// What fancy_duration's `FancyDuration::format` makes of a duration of
/// `secs` seconds and `nanos` nanoseconds.
pub uninterp spec fn fancy_duration_text(secs: u64, nanos: u32) -> Seq<char>;

/// Formats a track length with `fancy_duration::FancyDuration::format` on
/// `std::time::Duration::new(secs, nanos)`. The contract names the result;
/// the breakdown into years, months, weeks, days, hours, minutes, seconds and
/// sub-second units that the crate writes is not stated.
#[verifier::external_body]
fn format_track_length(secs: u64, nanos: u32) -> (r: String)
    requires
        nanos < 1_000_000_000,
    ensures
        r@ == fancy_duration_text(secs, nanos),
{
    fancy_duration::FancyDuration(std::time::Duration::new(secs, nanos)).format()
}

/// One entry of an album's track list; `n` is its number.
pub open spec fn track_html(e: Seq<(Seq<char>, MemberMeta)>, n: nat, title: String, t: Track) -> Seq<
    char,
> {
    "<div class=\"tracklist-track\"><dt class=\"track-title\"><h2>"@ + decimal_text(n) + ". "@ + (if !t.external {
        "<a href=\""@ + html_escape(
            reference_spec(title@, texts(t.authors@), texts(t.additional_authors@)),
        ) + "\">"@ + html_escape(title@) + "</a>"@
    } else {
        html_escape(title@)
    }) + "</h2></dt><dd class=\"track-author\">"@ + author_list_html(
        e,
        t.authors@,
        t.additional_authors@,
    ) + "</dd><dd class=\"track-length\">"@ + html_escape(
        fancy_duration_text(t.duration_secs, t.duration_nanos),
    ) + "</dd></div>"@
}

/// An album's track list, numbered from one.
pub open spec fn tracks_html(e: Seq<(Seq<char>, MemberMeta)>, ts: Seq<(String, Track)>) -> Seq<char>
    decreases ts.len(),
{
    if ts.len() == 0 {
        Seq::empty()
    } else {
        tracks_html(e, ts.drop_last()) + track_html(e, ts.len(), ts.last().0, ts.last().1)
    }
}

/// Whether every track's authors are members and its length is a real
/// duration.
pub open spec fn tracks_renderable(e: Seq<(Seq<char>, MemberMeta)>, ts: Seq<(String, Track)>) -> bool {
    forall|i: int|
        0 <= i < ts.len() ==> all_members(e, #[trigger] ts[i].1.authors@) && ts[i].1.duration_nanos
            < 1_000_000_000
}

fn track_item(site_map: &SiteMap, n: usize, title: &String, t: &Track) -> (r: String)
    requires
        all_members(member_entries(site_map.members), t.authors@),
        t.duration_nanos < 1_000_000_000,
    ensures
        r@ == track_html(member_entries(site_map.members), n as nat, *title, *t),
{
    let mut out = String::new();
    out.append("<div class=\"tracklist-track\"><dt class=\"track-title\"><h2>");
    push_decimal(&mut out, n as u64);
    out.append(". ");
    if !t.external {
        out.append("<a href=\"");
        let r = reference(title.as_str(), t.authors.as_slice(), t.additional_authors.as_slice());
        push_text(&mut out, r.as_str());
        out.append("\">");
        push_text(&mut out, title.as_str());
        out.append("</a>");
    } else {
        push_text(&mut out, title.as_str());
    }
    out.append("</h2></dt><dd class=\"track-author\">");
    let credits = author_list(site_map, t.authors.as_slice(), t.additional_authors.as_slice());
    out.append(credits.as_str());
    out.append("</dd><dd class=\"track-length\">");
    let length = format_track_length(t.duration_secs, t.duration_nanos);
    push_text(&mut out, length.as_str());
    out.append("</dd></div>");
    proof {
        assert(out@ =~= track_html(member_entries(site_map.members), n as nat, *title, *t));
    }
    out
}

fn push_tracks(out: &mut String, site_map: &SiteMap, a: &AlbumMeta)
    requires
        tracks_renderable(member_entries(site_map.members), track_entries(a.tracks)),
    ensures
        final(out)@ == old(out)@ + tracks_html(
            member_entries(site_map.members),
            track_entries(a.tracks),
        ),
{
    let ghost e = member_entries(site_map.members);
    let ghost ts = track_entries(a.tracks);
    let n = track_count(&a.tracks);
    let mut i: usize = 0;
    while i < n
        invariant
            i <= n,
            n == ts.len(),
            e == member_entries(site_map.members),
            ts == track_entries(a.tracks),
            tracks_renderable(e, ts),
            out@ == old(out)@ + tracks_html(e, ts.subrange(0, i as int)),
        decreases n - i,
    {
        let (title, t) = track_at(&a.tracks, i);
        proof {
            assert(all_members(e, ts[i as int].1.authors@));
        }
        let item = track_item(site_map, i + 1, title, t);
        out.append(item.as_str());
        proof {
            let next = ts.subrange(0, i + 1);
            assert(next.drop_last() =~= ts.subrange(0, i as int));
            assert(next.last() == ts[i as int]);
        }
        i = i + 1;
    }
    assert(ts.subrange(0, n as int) =~= ts);
}

/// One illustration of an album; every illustration is credited to the
/// illustrators of the album's cover.
pub open spec fn illustration_html(key: String, il: Illustration, cover_credits: Seq<char>) -> Seq<char> {
    "<div class=\"work-item-detail\" id=\""@ + html_escape("illustration-"@ + key@) + "\"><h4>"@
        + html_escape(key@)
        + "</h4><div class=\"work-illustration-container\"><img class=\"img-placeholder\" src=\""@
        + html_escape(il.image@) + "\" alt=\""@ + html_escape(key@) + "\"></div><p>イラスト: "@
        + cover_credits + "</p></div>"@
}

/// The illustrations of an album, in order.
pub open spec fn illustrations_html(ils: Seq<(String, Illustration)>, cover_credits: Seq<char>) -> Seq<
    char,
>
    decreases ils.len(),
{
    if ils.len() == 0 {
        Seq::empty()
    } else {
        illustrations_html(ils.drop_last(), cover_credits) + illustration_html(
            ils.last().0,
            ils.last().1,
            cover_credits,
        )
    }
}

fn push_illustrations(out: &mut String, a: &AlbumMeta, cover_credits: &str)
    ensures
        final(out)@ == old(out)@ + illustrations_html(illustration_entries(a.illustrations), cover_credits@),
{
    let ghost ils = illustration_entries(a.illustrations);
    let n = illustration_count(&a.illustrations);
    let mut i: usize = 0;
    while i < n
        invariant
            i <= n,
            n == ils.len(),
            ils == illustration_entries(a.illustrations),
            out@ == old(out)@ + illustrations_html(ils.subrange(0, i as int), cover_credits@),
        decreases n - i,
    {
        let (key, il) = illustration_at(&a.illustrations, i);
        let ghost before = out@;
        out.append("<div class=\"work-item-detail\" id=\"");
        let id = concat2("illustration-", key.as_str());
        push_text(out, id.as_str());
        out.append("\"><h4>");
        push_text(out, key.as_str());
        out.append("</h4><div class=\"work-illustration-container\"><img class=\"img-placeholder\" src=\"");
        push_text(out, il.image.as_str());
        out.append("\" alt=\"");
        push_text(out, key.as_str());
        out.append("\"></div><p>イラスト: ");
        out.append(cover_credits);
        out.append("</p></div>");
        proof {
            let next = ils.subrange(0, i + 1);
            assert(next.drop_last() =~= ils.subrange(0, i as int));
            assert(next.last() == ils[i as int]);
            assert(out@ =~= before + illustration_html(*key, *il, cover_credits@));
        }
        i = i + 1;
    }
    assert(ils.subrange(0, n as int) =~= ils);
}

/// The top of an album's page, up to its icons.
pub open spec fn album_detail_head(e: Seq<(Seq<char>, MemberMeta)>, a: AlbumMeta) -> Seq<char> {
    "<section id=\"work-section\"><div class=\"work-detail-container\"><div class=\"work-detail\"><div class=\"work-image\"><img class=\"img-placeholder\" src=\""@
        + html_escape(a.thumbnail.image@) + "\" alt=\""@ + html_escape(a.title@)
        + "\"></div><div class=\"work-info\"><h2>"@ + html_escape(a.title@) + "</h2>"@ + (match a.short {
        Some(s) => "<p>"@ + html_escape(s@) + "</p>"@,
        None => Seq::empty(),
    }) + "<div class=\"work-contributors\">投稿者: "@ + author_list_html(
        e,
        a.authors@,
        a.additional_authors@,
    ) + "</div><p>"@ + (match a.short {
        Some(s) => html_escape(s@),
        None => "<i>説明がありません</i>"@,
    }) + "</p><div class=\"member-links\">"@
}

/// The playlist link of an album, if it has one.
pub open spec fn album_link_html(a: AlbumMeta) -> Seq<char> {
    match a.link {
        Some(link) => "<div class=\"click-button\"><a href=\""@ + html_escape(link@) + "\" alt=\""@
            + html_escape(a.title@) + "\"><p>プレイリストに行く</p></a></div>"@,
        None => Seq::empty(),
    }
}

/// The preview part of an album's page.
pub open spec fn album_demo_html(a: AlbumMeta, embed: Seq<char>) -> Seq<char> {
    match a.demonstration {
        Some(_) => "<div class=\"work-youtube-container\"><div class=\"youtube-embed-container\">"@
            + embed + "</div></div>"@,
        None => "<p class=\"work-no-description\"><em>試聴動画がありません。</em></p>"@,
    }
}

/// The rest of an album's page after its icons.
pub open spec fn album_detail_tail(
    e: Seq<(Seq<char>, MemberMeta)>,
    a: AlbumMeta,
    content: Seq<char>,
    embed: Seq<char>,
) -> Seq<char> {
    album_tracklist_html(e, a) + content + "</div></section><section id=\"crossfade\"><h2>試聴動画</h2>"@
        + album_demo_html(a, embed) + album_images_html(e, a)
}

/// The main content of an album's page.
pub open spec fn album_detail_html(
    e: Seq<(Seq<char>, MemberMeta)>,
    a: AlbumMeta,
    content: Seq<char>,
    player: Result<Seq<char>, Seq<char>>,
) -> Result<Seq<char>, DetailFault> {
    with_player(
        icons_result(a.sns_links@),
        a.demonstration is Some,
        player,
        |icons: Seq<char>, embed: Seq<char>|
            album_detail_head(e, a) + icons + album_detail_tail(e, a, content, embed),
    )
}

fn album_head(site_map: &SiteMap, a: &AlbumMeta) -> (r: String)
    requires
        all_members(member_entries(site_map.members), a.authors@),
    ensures
        r@ == album_detail_head(member_entries(site_map.members), *a),
{
    let mut out = String::new();
    out.append(
        "<section id=\"work-section\"><div class=\"work-detail-container\"><div class=\"work-detail\"><div class=\"work-image\"><img class=\"img-placeholder\" src=\"",
    );
    push_text(&mut out, a.thumbnail.image.as_str());
    out.append("\" alt=\"");
    push_text(&mut out, a.title.as_str());
    out.append("\"></div><div class=\"work-info\"><h2>");
    push_text(&mut out, a.title.as_str());
    out.append("</h2>");
    match &a.short {
        Some(s) => {
            out.append("<p>");
            push_text(&mut out, s.as_str());
            out.append("</p>");
        },
        None => {},
    }
    out.append("<div class=\"work-contributors\">投稿者: ");
    let credits = author_list(site_map, a.authors.as_slice(), a.additional_authors.as_slice());
    out.append(credits.as_str());
    out.append("</div><p>");
    match &a.short {
        Some(s) => push_text(&mut out, s.as_str()),
        None => out.append("<i>説明がありません</i>"),
    }
    out.append("</p><div class=\"member-links\">");
    proof {
        assert(out@ =~= album_detail_head(member_entries(site_map.members), *a));
    }
    out
}

/// The track list section of an album's page with the lyrics heading.
pub open spec fn album_tracklist_html(e: Seq<(Seq<char>, MemberMeta)>, a: AlbumMeta) -> Seq<char> {
    "</div></div></div></div><div class=\"member-works-container\"><section id=\"tracklist\"><h2>トラックリスト</h2><dl class=\"tracklist-list\">"@
        + tracks_html(e, track_entries(a.tracks)) + "</dl>"@ + album_link_html(a)
        + "</section><section class=\"work-description\" id=\"description\"><h2>歌詞</h2><div class=\"description\">"@
}

/// The illustrations section of an album's page and the page's end.
pub open spec fn album_images_html(e: Seq<(Seq<char>, MemberMeta)>, a: AlbumMeta) -> Seq<char> {
    let cover_credits = author_list_html(
        e,
        a.thumbnail.illustrators@,
        a.thumbnail.additional_illustrators@,
    );
    "</section><section id=\"additional-album-images\"><h2>イラスト</h2><div class=\"container\"><div class=\"work-item-detail\" id=\"frontcover\"><h4>フロントカーバー</h4><div class=\"work-illustration-container\"><img class=\"work-item-thumb\" src=\""@
        + html_escape(a.thumbnail.image@) + "\" alt=\""@ + html_escape(a.title@)
        + "\"></div><p>イラスト: "@ + cover_credits + "</p></div>"@ + illustrations_html(
        illustration_entries(a.illustrations),
        cover_credits,
    )
        + "</div></section><div class=\"back-button\"><a href=\"../../works/index.html\">リリース集合一覧に戻る</a></div></div></section>"@
}

fn album_tracklist(site_map: &SiteMap, a: &AlbumMeta) -> (r: String)
    requires
        tracks_renderable(member_entries(site_map.members), track_entries(a.tracks)),
    ensures
        r@ == album_tracklist_html(member_entries(site_map.members), *a),
{
    let mut out = String::new();
    out.append(
        "</div></div></div></div><div class=\"member-works-container\"><section id=\"tracklist\"><h2>トラックリスト</h2><dl class=\"tracklist-list\">",
    );
    push_tracks(&mut out, site_map, a);
    out.append("</dl>");
    match &a.link {
        Some(link) => {
            out.append("<div class=\"click-button\"><a href=\"");
            push_text(&mut out, link.as_str());
            out.append("\" alt=\"");
            push_text(&mut out, a.title.as_str());
            out.append("\"><p>プレイリストに行く</p></a></div>");
        },
        None => {},
    }
    out.append(
        "</section><section class=\"work-description\" id=\"description\"><h2>歌詞</h2><div class=\"description\">",
    );
    proof {
        assert(out@ =~= album_tracklist_html(member_entries(site_map.members), *a));
    }
    out
}

fn album_images(site_map: &SiteMap, a: &AlbumMeta) -> (r: String)
    requires
        all_members(member_entries(site_map.members), a.thumbnail.illustrators@),
    ensures
        r@ == album_images_html(member_entries(site_map.members), *a),
{
    let mut out = String::new();
    out.append(
        "</section><section id=\"additional-album-images\"><h2>イラスト</h2><div class=\"container\"><div class=\"work-item-detail\" id=\"frontcover\"><h4>フロントカーバー</h4><div class=\"work-illustration-container\"><img class=\"work-item-thumb\" src=\"",
    );
    push_text(&mut out, a.thumbnail.image.as_str());
    out.append("\" alt=\"");
    push_text(&mut out, a.title.as_str());
    out.append("\"></div><p>イラスト: ");
    let cover_credits = author_list(
        site_map,
        a.thumbnail.illustrators.as_slice(),
        a.thumbnail.additional_illustrators.as_slice(),
    );
    out.append(cover_credits.as_str());
    out.append("</p></div>");
    push_illustrations(&mut out, a, cover_credits.as_str());
    out.append(
        "</div></section><div class=\"back-button\"><a href=\"../../works/index.html\">リリース集合一覧に戻る</a></div></div></section>",
    );
    proof {
        assert(out@ =~= album_images_html(member_entries(site_map.members), *a));
    }
    out
}

fn album_tail(site_map: &SiteMap, a: &AlbumMeta, content: &str, embed: &str) -> (r: String)
    requires
        all_members(member_entries(site_map.members), a.thumbnail.illustrators@),
        tracks_renderable(member_entries(site_map.members), track_entries(a.tracks)),
    ensures
        r@ == album_detail_tail(member_entries(site_map.members), *a, content@, embed@),
{
    let mut out = album_tracklist(site_map, a);
    out.append(content);
    out.append("</div></section><section id=\"crossfade\"><h2>試聴動画</h2>");
    match &a.demonstration {
        Some(_) => {
            out.append("<div class=\"work-youtube-container\"><div class=\"youtube-embed-container\">");
            out.append(embed);
            out.append("</div></div>");
        },
        None => {
            out.append("<p class=\"work-no-description\"><em>試聴動画がありません。</em></p>");
        },
    }
    let images = album_images(site_map, a);
    out.append(images.as_str());
    proof {
        assert(out@ =~= album_detail_tail(member_entries(site_map.members), *a, content@, embed@));
    }
    out
}

/// The main content of an album's page: cover, title, summary, credits and
/// social links; the numbered track list with each track's credits and
/// length and the playlist link; the rendered lyrics; the preview player
/// (`player`, the outcome of rendering it for the album's preview, used only
/// when the album has one, whose failure then fails the page); the cover
/// and the illustrations. The album's authors, every track's authors and
/// the cover's illustrators must be members, and every track length a real
/// duration.
pub fn album_detail(site_map: &SiteMap, a: &AlbumMeta, content: String, player: Result<String, String>) -> (r: Result<
    String,
    DetailError,
>)
    requires
        all_members(member_entries(site_map.members), a.authors@),
        all_members(member_entries(site_map.members), a.thumbnail.illustrators@),
        tracks_renderable(member_entries(site_map.members), track_entries(a.tracks)),
    ensures
        detail_view(r) == album_detail_html(
            member_entries(site_map.members),
            *a,
            content@,
            player_view(player),
        ),
{
    let mut out = album_head(site_map, a);
    match push_icons(&mut out, &a.sns_links) {
        Ok(()) => {},
        Err(err) => {
            return Err(DetailError::Link(err));
        },
    }
    let embed = match &a.demonstration {
        Some(_) => match player {
            Ok(p) => p,
            Err(m) => {
                return Err(DetailError::Player(m));
            },
        },
        None => String::new(),
    };
    let tail = album_tail(site_map, a, content.as_str(), embed.as_str());
    out.append(tail.as_str());
    Ok(out)
}

proof fn lemma_gray_plain()
    ensures
        html_escape("gray.jpg"@) == "gray.jpg"@,
{
    reveal_strlit("gray.jpg");
    crate::html::lemma_escape_plain("gray.jpg"@);
}

/// The head of a work's page shows the work's own thumbnail, escaped; only a
/// work without one shows the gray placeholder: two works that differ only
/// in their thumbnail have heads that differ only there.
#[verifier::rlimit(60)]
pub proof fn law_work_head_thumbnail(e: Seq<(Seq<char>, MemberMeta)>, w: WorkMeta, t: Illustration)
    ensures
        exists|p: Seq<char>, q: Seq<char>|
            work_detail_head(e, WorkMeta { thumbnail: Some(t), ..w }) == p + html_escape(t.image@) + q
                && work_detail_head(e, WorkMeta { thumbnail: None, ..w }) == p + "gray.jpg"@ + q,
{
    let with = WorkMeta { thumbnail: Some(t), ..w };
    let without = WorkMeta { thumbnail: None, ..w };
    lemma_gray_plain();
    let p = "<section id=\"work-section\"><div class=\"work-detail-container\"><div class=\"work-detail\"><div class=\"work-thumbnail\"><img class=\"img-placeholder\" src=\""@;
    let q = "\" alt=\""@ + html_escape(w.title@)
        + "\"></div><div class=\"work-info\"><h2>"@ + html_escape(w.title@)
        + "</h2><div class=\"work-date\"><p>"@ + html_escape(date_text(w.date)) + "</p></div><p>投稿者: "@
        + author_list_html(e, w.authors@, w.additional_authors@) + "</p>"@ + (match w.short {
        Some(s) => "<p class=\"work-bio\">"@ + html_escape(s@) + "</p>"@,
        None => Seq::empty(),
    }) + "<div class=\"member-links\">"@;
    assert(work_detail_head(e, with) =~= p + html_escape(t.image@) + q);
    assert(work_detail_head(e, without) =~= p + "gray.jpg"@ + q);
}

/// A work's page shows the work's own thumbnail where a work without one
/// shows the gray placeholder; whether the page fails, and why, does not
/// depend on the thumbnail.
pub proof fn law_work_page_thumbnail(
    e: Seq<(Seq<char>, MemberMeta)>,
    w: WorkMeta,
    t: Illustration,
    content: Seq<char>,
    player: Result<Seq<char>, Seq<char>>,
)
    ensures
        match (
            work_detail_html(e, WorkMeta { thumbnail: Some(t), ..w }, content, player),
            work_detail_html(e, WorkMeta { thumbnail: None, ..w }, content, player),
        ) {
            (Ok(x1), Ok(x0)) => exists|p: Seq<char>, q: Seq<char>|
                x1 == p + html_escape(t.image@) + q && x0 == p + "gray.jpg"@ + q,
            (Err(f1), Err(f0)) => f1 == f0,
            _ => false,
        },
{
    let with = WorkMeta { thumbnail: Some(t), ..w };
    let without = WorkMeta { thumbnail: None, ..w };
    law_work_head_thumbnail(e, w, t);
    let (p, q) = choose|p: Seq<char>, q: Seq<char>|
        work_detail_head(e, with) == p + html_escape(t.image@) + q
            && work_detail_head(e, without) == p + "gray.jpg"@ + q;
    match icons_result(w.sns_links@) {
        Err(_) => {},
        Ok(icons) => {
            let embed = if w.source is Some {
                match player {
                    Ok(x) => x,
                    Err(_) => Seq::empty(),
                }
            } else {
                Seq::empty()
            };
            let rest = icons + work_detail_tail(w, content, embed);
            assert(work_detail_tail(with, content, embed) == work_detail_tail(w, content, embed));
            assert(work_detail_tail(without, content, embed) == work_detail_tail(w, content, embed));
            assert(work_detail_head(e, with) + icons + work_detail_tail(with, content, embed) =~= p
                + html_escape(t.image@) + (q + rest));
            assert(work_detail_head(e, without) + icons + work_detail_tail(without, content, embed)
                =~= p + "gray.jpg"@ + (q + rest));
        },
    }
}

/// The playlist button for `link` on the album titled `title`.
pub open spec fn playlist_button(link: Seq<char>, title: Seq<char>) -> Seq<char> {
    "<div class=\"click-button\"><a href=\""@ + html_escape(link) + "\" alt=\""@ + html_escape(title)
        + "\"><p>プレイリストに行く</p></a></div>"@
}

proof fn lemma_seq_assoc5(a: Seq<char>, b: Seq<char>, c: Seq<char>, d: Seq<char>, x: Seq<char>, y: Seq<char>)
    ensures
        a + (b + c + d + x + y) == (a + b) + c + d + x + y,
        a + (b + c + d + y) == (a + b) + c + d + y,
{
    assert(a + (b + c + d + x + y) =~= (a + b) + c + d + x + y);
    assert(a + (b + c + d + y) =~= (a + b) + c + d + y);
}

proof fn lemma_tail_link(
    e: Seq<(Seq<char>, MemberMeta)>,
    a: AlbumMeta,
    link: String,
    content: Seq<char>,
    embed: Seq<char>,
) -> (pq: (Seq<char>, Seq<char>))
    ensures
        album_detail_tail(e, AlbumMeta { link: Some(link), ..a }, content, embed) == pq.0 + tracks_html(
            e,
            track_entries(a.tracks),
        ) + "</dl>"@ + playlist_button(link@, a.title@) + pq.1,
        album_detail_tail(e, AlbumMeta { link: None, ..a }, content, embed) == pq.0 + tracks_html(
            e,
            track_entries(a.tracks),
        ) + "</dl>"@ + pq.1,
{
    let with = AlbumMeta { link: Some(link), ..a };
    let without = AlbumMeta { link: None, ..a };
    let pre = "</div></div></div></div><div class=\"member-works-container\"><section id=\"tracklist\"><h2>トラックリスト</h2><dl class=\"tracklist-list\">"@;
    let post = "</section><section class=\"work-description\" id=\"description\"><h2>歌詞</h2><div class=\"description\">"@;
    let tr = tracks_html(e, track_entries(a.tracks));
    let rest = post + content + "</div></section><section id=\"crossfade\"><h2>試聴動画</h2>"@
        + album_demo_html(a, embed) + album_images_html(e, a);
    assert(album_demo_html(with, embed) == album_demo_html(a, embed));
    assert(album_demo_html(without, embed) == album_demo_html(a, embed));
    assert(album_images_html(e, with) == album_images_html(e, a));
    assert(album_images_html(e, without) == album_images_html(e, a));
    assert(album_link_html(with) == playlist_button(link@, a.title@));
    assert(album_link_html(without) == Seq::<char>::empty());
    assert(album_tracklist_html(e, with) == pre + tr + "</dl>"@ + playlist_button(link@, a.title@) + post);
    assert(album_tracklist_html(e, without) =~= pre + tr + "</dl>"@ + post);
    assert(album_detail_tail(e, with, content, embed) =~= pre + tr + "</dl>"@ + playlist_button(
        link@,
        a.title@,
    ) + rest);
    assert(album_detail_tail(e, without, content, embed) =~= pre + tr + "</dl>"@ + rest);
    (pre, rest)
}

/// An album's page with a link carries the playlist button, linking to the
/// escaped link, right after the track list; the same album without a link
/// has no button there and is otherwise the same page. Whether the page
/// fails, and why, does not depend on the link.
pub proof fn law_album_playlist_button(
    e: Seq<(Seq<char>, MemberMeta)>,
    a: AlbumMeta,
    link: String,
    content: Seq<char>,
    player: Result<Seq<char>, Seq<char>>,
)
    ensures
        match (
            album_detail_html(e, AlbumMeta { link: Some(link), ..a }, content, player),
            album_detail_html(e, AlbumMeta { link: None, ..a }, content, player),
        ) {
            (Ok(x1), Ok(x0)) => exists|p: Seq<char>, q: Seq<char>|
                x1 == p + tracks_html(e, track_entries(a.tracks)) + "</dl>"@ + "<div class=\"click-button\"><a href=\""@
                    + html_escape(link@) + "\" alt=\""@ + html_escape(a.title@)
                    + "\"><p>プレイリストに行く</p></a></div>"@ + q
                && x0 == p + tracks_html(e, track_entries(a.tracks)) + "</dl>"@ + q,
            (Err(f1), Err(f0)) => f1 == f0,
            _ => false,
        },
{
    let with = AlbumMeta { link: Some(link), ..a };
    let without = AlbumMeta { link: None, ..a };
    match icons_result(a.sns_links@) {
        Err(_) => {},
        Ok(icons) => {
            let embed = if a.demonstration is Some {
                match player {
                    Ok(x) => x,
                    Err(_) => Seq::empty(),
                }
            } else {
                Seq::empty()
            };
            let (pre, rest) = lemma_tail_link(e, a, link, content, embed);
            let h = album_detail_head(e, a) + icons;
            assert(album_detail_head(e, with) == album_detail_head(e, a));
            assert(album_detail_head(e, without) == album_detail_head(e, a));
            let tr = tracks_html(e, track_entries(a.tracks));
            let btn = playlist_button(link@, a.title@);
            lemma_seq_assoc5(h, pre, tr, "</dl>"@, btn, rest);
            assert(album_detail_head(e, with) + icons + album_detail_tail(e, with, content, embed) == h + (pre
                + tr + "</dl>"@ + btn + rest));
            assert(album_detail_head(e, without) + icons + album_detail_tail(e, without, content, embed) == h
                + (pre + tr + "</dl>"@ + rest));
            assert(btn == "<div class=\"click-button\"><a href=\""@ + html_escape(link@) + "\" alt=\""@
                + html_escape(a.title@) + "\"><p>プレイリストに行く</p></a></div>"@);
            assert((h + pre) + tr + "</dl>"@ + btn + rest =~= (h + pre) + tr + "</dl>"@
                + "<div class=\"click-button\"><a href=\""@ + html_escape(link@) + "\" alt=\""@
                + html_escape(a.title@) + "\"><p>プレイリストに行く</p></a></div>"@ + rest);
        },
    }
}

} // verus!
