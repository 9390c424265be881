//! The index pages that list members, works, albums and news posts, and the
//! page frame (head, navigation bar and footer) every page is placed in.

use vstd::prelude::*;

use crate::authors::{author_list, author_list_html};
use crate::cards::{
    album_card, album_card_html, all_members, html_view, icon_result, member_card,
    member_card_html, news_card, news_card_html, push_text, work_card, work_card_html,
    work_reference,
};
use crate::reference::reference;
use crate::text::{concat3, owned};
use crate::html::html_escape;
use crate::meta::{AlbumMeta, MemberMeta, NewsMeta, RenderableMetadata, WorkMeta};
use crate::sections::{navbar, navbar_html};
use crate::listing::{derefs, lemma_newest_first_derefs, lemma_newest_first_same_entries, newest_first, newest_first_of};
use crate::sitemap::SiteMap;
use crate::social::{footer, footer_html, LinkFault, SocialLinkError, CLUB_ACCOUNT};
use crate::tables::{has_key, member_at, member_count, member_entries};

verus! {

/// The member cards of the entries, in order, or the first error.
pub open spec fn member_cards_html(e: Seq<(Seq<char>, MemberMeta)>) -> Result<Seq<char>, LinkFault>
    decreases e.len(),
{
    if e.len() == 0 {
        Ok(Seq::empty())
    } else {
        match member_cards_html(e.drop_last()) {
            Err(err) => Err(err),
            Ok(h) => match member_card_html(e.last().1) {
                Err(err) => Err(err),
                Ok(c) => Ok(h + c),
            },
        }
    }
}

/// The member list page.
pub open spec fn members_page_html(e: Seq<(Seq<char>, MemberMeta)>) -> Result<Seq<char>, LinkFault> {
    match member_cards_html(e) {
        Err(err) => Err(err),
        Ok(cards) => Ok(
            "<section id=\"members-hero\"><div class=\"container\"><h2>メンバー紹介</h2><p>東京大学ボカロP同好会で活動する個性豊かなメンバーたちをご紹介します。</p></div></section><section id=\"staff-members\"><div class=\"zcontainer\"><div class=\"member-grid\">"@
                + cards + "</div></div></section>"@,
        ),
    }
}

proof fn lemma_cards_error_persists(e: Seq<(Seq<char>, MemberMeta)>, k: int)
    requires
        0 <= k <= e.len(),
        member_cards_html(e.subrange(0, k)) is Err,
    ensures
        member_cards_html(e) == member_cards_html(e.subrange(0, k)),
    decreases e.len() - k,
{
    if k < e.len() {
        let next = e.subrange(0, k + 1);
        assert(next.drop_last() =~= e.subrange(0, k));
        lemma_cards_error_persists(e, k + 1);
    } else {
        assert(e.subrange(0, k) =~= e);
    }
}

/// The member list page: a card for every member of the site map, in the
/// site map's order.
pub fn members(site_map: &SiteMap) -> (r: Result<String, SocialLinkError>)
    ensures
        html_view(r) == members_page_html(member_entries(site_map.members)),
{
    let ghost e = member_entries(site_map.members);
    let mut cards = String::new();
    let n = member_count(&site_map.members);
    let mut i: usize = 0;
    while i < n
        invariant
            i <= n,
            n == e.len(),
            e == member_entries(site_map.members),
            member_cards_html(e.subrange(0, i as int)) matches Ok(h) && cards@ == h,
        decreases n - i,
    {
        let (_, m) = member_at(&site_map.members, i);
        let ghost next = e.subrange(0, i + 1);
        proof {
            assert(next.drop_last() =~= e.subrange(0, i as int));
            assert(next.last() == e[i as int]);
        }
        match member_card(m) {
            Ok(card) => {
                cards.append(card.as_str());
            },
            Err(err) => {
                proof {
                    lemma_cards_error_persists(e, i + 1);
                }
                return Err(err);
            },
        }
        i = i + 1;
    }
    assert(e.subrange(0, n as int) =~= e);
    let mut out = String::new();
    out.append(
        "<section id=\"members-hero\"><div class=\"container\"><h2>メンバー紹介</h2><p>東京大学ボカロP同好会で活動する個性豊かなメンバーたちをご紹介します。</p></div></section><section id=\"staff-members\"><div class=\"zcontainer\"><div class=\"member-grid\">",
    );
    out.append(cards.as_str());
    out.append("</div></div></section>");
    Ok(out)
}

/// The news cards of the posts, in order, or the first error.
pub open spec fn news_cards_html(e: Seq<(Seq<char>, MemberMeta)>, ps: Seq<NewsMeta>) -> Result<
    Seq<char>,
    LinkFault,
>
    decreases ps.len(),
{
    if ps.len() == 0 {
        Ok(Seq::empty())
    } else {
        match news_cards_html(e, ps.drop_last()) {
            Err(err) => Err(err),
            Ok(h) => match news_card_html(e, ps.last()) {
                Err(err) => Err(err),
                Ok(c) => Ok(h + c),
            },
        }
    }
}

/// The news index page.
pub open spec fn news_index_html(e: Seq<(Seq<char>, MemberMeta)>, ps: Seq<NewsMeta>) -> Result<
    Seq<char>,
    LinkFault,
> {
    match news_cards_html(e, ps) {
        Err(err) => Err(err),
        Ok(cards) => Ok(
            "<section id=\"hero\"><div class=\"container\"><h2>ニュース</h2><p>東京大学ボカロP同好会のニュース目録</p></div></section><section id=\"list\"><div class=\"listcontainer flex-container\" style=\"align-items: center;\">"@
                + cards + "</div></section>"@,
        ),
    }
}

proof fn lemma_news_cards_error_persists(e: Seq<(Seq<char>, MemberMeta)>, ps: Seq<NewsMeta>, k: int)
    requires
        0 <= k <= ps.len(),
        news_cards_html(e, ps.subrange(0, k)) is Err,
    ensures
        news_cards_html(e, ps) == news_cards_html(e, ps.subrange(0, k)),
    decreases ps.len() - k,
{
    if k < ps.len() {
        let next = ps.subrange(0, k + 1);
        assert(next.drop_last() =~= ps.subrange(0, k));
        lemma_news_cards_error_persists(e, ps, k + 1);
    } else {
        assert(ps.subrange(0, k) =~= ps);
    }
}

/// Whether a news post can be shown on a card: a real date, and an author
/// (if it names one) who is a member.
pub open spec fn post_showable(e: Seq<(Seq<char>, MemberMeta)>, p: NewsMeta) -> bool {
    &&& p.date.wf()
    &&& p.author matches Some(a) ==> has_key(e, a@)
}

/// The news index page: a card for each post, in the order given. Every
/// post must carry a real date and, if it names an author, a member's
/// reference.
pub fn news_index(site_map: &SiteMap, posts: &[NewsMeta]) -> (r: Result<String, SocialLinkError>)
    requires
        forall|i: int|
            0 <= i < posts@.len() ==> #[trigger] post_showable(
                member_entries(site_map.members),
                posts@[i],
            ),
    ensures
        html_view(r) == news_index_html(member_entries(site_map.members), posts@),
{
    let ghost e = member_entries(site_map.members);
    let mut cards = String::new();
    let mut i: usize = 0;
    while i < posts.len()
        invariant
            i <= posts@.len(),
            e == member_entries(site_map.members),
            forall|j: int| 0 <= j < posts@.len() ==> #[trigger] post_showable(e, posts@[j]),
            news_cards_html(e, posts@.subrange(0, i as int)) matches Ok(h) && cards@ == h,
        decreases posts@.len() - i,
    {
        let ghost next = posts@.subrange(0, i + 1);
        proof {
            assert(next.drop_last() =~= posts@.subrange(0, i as int));
            assert(next.last() == posts@[i as int]);
            assert(post_showable(e, posts@[i as int]));
        }
        match news_card(site_map, &posts[i]) {
            Ok(card) => {
                cards.append(card.as_str());
            },
            Err(err) => {
                proof {
                    lemma_news_cards_error_persists(e, posts@, i + 1);
                }
                return Err(err);
            },
        }
        i = i + 1;
    }
    assert(posts@.subrange(0, posts@.len() as int) =~= posts@);
    let mut out = String::new();
    out.append(
        "<section id=\"hero\"><div class=\"container\"><h2>ニュース</h2><p>東京大学ボカロP同好会のニュース目録</p></div></section><section id=\"list\"><div class=\"listcontainer flex-container\" style=\"align-items: center;\">",
    );
    out.append(cards.as_str());
    out.append("</div></section>");
    Ok(out)
}

/// The work cards, in order.
pub open spec fn work_cards_html(e: Seq<(Seq<char>, MemberMeta)>, ws: Seq<WorkMeta>) -> Seq<char>
    decreases ws.len(),
{
    if ws.len() == 0 {
        Seq::empty()
    } else {
        work_cards_html(e, ws.drop_last()) + work_card_html(e, ws.last())
    }
}

/// The album cards, in order.
pub open spec fn album_cards_html(e: Seq<(Seq<char>, MemberMeta)>, albums: Seq<AlbumMeta>) -> Seq<char>
    decreases albums.len(),
{
    if albums.len() == 0 {
        Seq::empty()
    } else {
        album_cards_html(e, albums.drop_last()) + album_card_html(e, albums.last())
    }
}

/// The index of works and albums.
pub open spec fn work_album_index_html(
    e: Seq<(Seq<char>, MemberMeta)>,
    ws: Seq<WorkMeta>,
    albums: Seq<AlbumMeta>,
) -> Seq<char> {
    "<section id=\"hero\"><div class=\"container\"><h2>作品</h2><p>東京大学ボカロP同好会のメンバーの作品目録です。</p></div></section><section id=\"filters\"><div class=\"container filters\"><div class=\"click-button\"><a class=\"filter-link\" href=\"#songs\"><p>音楽のリリース</p></a></div><div class=\"click-button\"><a class=\"filter-link\" href=\"#albums\"><p>アルバム</p></a></div></div></section><section class=\"list\" id=\"songs\"><div class=\"container\"><h2>リリース</h2><div class=\"zcontainer\"><div class=\"member-grid\">"@
        + work_cards_html(e, ws)
        + "</div></div></div></section><section class=\"list\" id=\"albums\"><div class=\"container\"><h2>アルバム</h2><div class=\"zcontainer\"><div class=\"member-grid\">"@
        + album_cards_html(e, albums) + "</div></div></div></section>"@
}

/// Whether a work can be shown on a card: a real date and member authors.
pub open spec fn work_showable(e: Seq<(Seq<char>, MemberMeta)>, w: WorkMeta) -> bool {
    w.date.wf() && all_members(e, w.authors@)
}

/// Whether an album can be shown on a card: a real date and member authors.
pub open spec fn album_showable(e: Seq<(Seq<char>, MemberMeta)>, a: AlbumMeta) -> bool {
    a.date.wf() && all_members(e, a.authors@)
}

/// The index of works and albums: a card for each work, then a card for
/// each album, in the order given. Every entry must carry a real date and
/// credit only members as authors.
pub fn work_album_index(site_map: &SiteMap, works: &[WorkMeta], albums: &[AlbumMeta]) -> (r: String)
    requires
        forall|i: int|
            0 <= i < works@.len() ==> #[trigger] work_showable(
                member_entries(site_map.members),
                works@[i],
            ),
        forall|i: int|
            0 <= i < albums@.len() ==> #[trigger] album_showable(
                member_entries(site_map.members),
                albums@[i],
            ),
    ensures
        r@ == work_album_index_html(member_entries(site_map.members), works@, albums@),
{
    let ghost e = member_entries(site_map.members);
    let mut out = String::new();
    out.append(
        "<section id=\"hero\"><div class=\"container\"><h2>作品</h2><p>東京大学ボカロP同好会のメンバーの作品目録です。</p></div></section><section id=\"filters\"><div class=\"container filters\"><div class=\"click-button\"><a class=\"filter-link\" href=\"#songs\"><p>音楽のリリース</p></a></div><div class=\"click-button\"><a class=\"filter-link\" href=\"#albums\"><p>アルバム</p></a></div></div></section><section class=\"list\" id=\"songs\"><div class=\"container\"><h2>リリース</h2><div class=\"zcontainer\"><div class=\"member-grid\">",
    );
    let ghost start = out@;
    let mut i: usize = 0;
    while i < works.len()
        invariant
            i <= works@.len(),
            e == member_entries(site_map.members),
            forall|j: int| 0 <= j < works@.len() ==> #[trigger] work_showable(e, works@[j]),
            out@ == start + work_cards_html(e, works@.subrange(0, i as int)),
        decreases works@.len() - i,
    {
        proof {
            assert(work_showable(e, works@[i as int]));
        }
        let card = work_card(site_map, &works[i]);
        out.append(card.as_str());
        proof {
            let next = works@.subrange(0, i + 1);
            assert(next.drop_last() =~= works@.subrange(0, i as int));
            assert(next.last() == works@[i as int]);
        }
        i = i + 1;
    }
    assert(works@.subrange(0, works@.len() as int) =~= works@);
    out.append(
        "</div></div></div></section><section class=\"list\" id=\"albums\"><div class=\"container\"><h2>アルバム</h2><div class=\"zcontainer\"><div class=\"member-grid\">",
    );
    let ghost middle = out@;
    let mut j: usize = 0;
    while j < albums.len()
        invariant
            j <= albums@.len(),
            e == member_entries(site_map.members),
            forall|k: int| 0 <= k < albums@.len() ==> #[trigger] album_showable(e, albums@[k]),
            out@ == middle + album_cards_html(e, albums@.subrange(0, j as int)),
        decreases albums@.len() - j,
    {
        proof {
            assert(album_showable(e, albums@[j as int]));
        }
        let card = album_card(site_map, &albums[j]);
        out.append(card.as_str());
        proof {
            let next = albums@.subrange(0, j + 1);
            assert(next.drop_last() =~= albums@.subrange(0, j as int));
            assert(next.last() == albums@[j as int]);
        }
        j = j + 1;
    }
    assert(albums@.subrange(0, albums@.len() as int) =~= albums@);
    out.append("</div></div></div></section>");
    out
}

/// The tags of a list of scripts as the page head writes them first:
/// opening tags only.
pub open spec fn script_opens_html(scripts: Seq<String>) -> Seq<char>
    decreases scripts.len(),
{
    if scripts.len() == 0 {
        Seq::empty()
    } else {
        script_opens_html(scripts.drop_last()) + "<script async defer src=\""@ + html_escape(
            scripts.last()@,
        ) + "\">"@
    }
}

/// The tags of a list of scripts, each closed.
pub open spec fn script_tags_html(scripts: Seq<String>) -> Seq<char>
    decreases scripts.len(),
{
    if scripts.len() == 0 {
        Seq::empty()
    } else {
        script_tags_html(scripts.drop_last()) + "<script async defer src=\""@ + html_escape(
            scripts.last()@,
        ) + "\"></script>"@
    }
}

/// The stylesheet links.
pub open spec fn style_links_html(styles: Seq<String>) -> Seq<char>
    decreases styles.len(),
{
    if styles.len() == 0 {
        Seq::empty()
    } else {
        style_links_html(styles.drop_last()) + "<link rel=\"stylesheet\" href=\""@ + html_escape(
            styles.last()@,
        ) + "\">"@
    }
}

/// The head of a page whose OpenGraph tags are `og`.
pub open spec fn html_head_html(og: Seq<char>, scripts: Seq<String>, styles: Seq<String>) -> Seq<char> {
    "<head><meta charset=\"UTF-8\"><meta name=\"viewport\" content=\"width=device-width, initial-scale=1.0\">"@
        + og + script_opens_html(scripts) + style_links_html(styles)
        + "<link rel=\"icon\" type=\"image/x-icon\" href=\"/favicon.ico\">"@ + script_tags_html(
        scripts,
    ) + "</head>"@
}

fn push_tag_list(out: &mut String, items: &[String], open: &str, close: &str, Ghost(kind): Ghost<int>)
    requires
        kind == 0 ==> open@ == "<script async defer src=\""@ && close@ == "\">"@,
        kind == 1 ==> open@ == "<link rel=\"stylesheet\" href=\""@ && close@ == "\">"@,
        kind == 2 ==> open@ == "<script async defer src=\""@ && close@ == "\"></script>"@,
        0 <= kind <= 2,
    ensures
        kind == 0 ==> final(out)@ == old(out)@ + script_opens_html(items@),
        kind == 1 ==> final(out)@ == old(out)@ + style_links_html(items@),
        kind == 2 ==> final(out)@ == old(out)@ + script_tags_html(items@),
{
    let mut i: usize = 0;
    while i < items.len()
        invariant
            i <= items@.len(),
            kind == 0 ==> open@ == "<script async defer src=\""@ && close@ == "\">"@,
            kind == 1 ==> open@ == "<link rel=\"stylesheet\" href=\""@ && close@ == "\">"@,
            kind == 2 ==> open@ == "<script async defer src=\""@ && close@ == "\"></script>"@,
            kind == 0 ==> out@ == old(out)@ + script_opens_html(items@.subrange(0, i as int)),
            kind == 1 ==> out@ == old(out)@ + style_links_html(items@.subrange(0, i as int)),
            kind == 2 ==> out@ == old(out)@ + script_tags_html(items@.subrange(0, i as int)),
        decreases items@.len() - i,
    {
        out.append(open);
        push_text(out, items[i].as_str());
        out.append(close);
        proof {
            let next = items@.subrange(0, i + 1);
            assert(next.drop_last() =~= items@.subrange(0, i as int));
            assert(next.last() == items@[i as int]);
        }
        i = i + 1;
    }
    assert(items@.subrange(0, items@.len() as int) =~= items@);
}

/// The head of a page: character set, viewport, the page's OpenGraph tags,
/// its scripts and stylesheets and the site icon.
pub fn html_head<M: RenderableMetadata>(metadata: &M, scripts: &[String], styles: &[String]) -> (r: String)
    requires
        metadata.renderable(),
    ensures
        r@ == html_head_html(metadata.og_html(), scripts@, styles@),
{
    let mut out = String::new();
    out.append(
        "<head><meta charset=\"UTF-8\"><meta name=\"viewport\" content=\"width=device-width, initial-scale=1.0\">",
    );
    let og = metadata.render();
    out.append(og.as_str());
    push_tag_list(&mut out, scripts, "<script async defer src=\"", "\">", Ghost(0));
    push_tag_list(&mut out, styles, "<link rel=\"stylesheet\" href=\"", "\">", Ghost(1));
    out.append("<link rel=\"icon\" type=\"image/x-icon\" href=\"/favicon.ico\">");
    push_tag_list(&mut out, scripts, "<script async defer src=\"", "\"></script>", Ghost(2));
    out.append("</head>");
    out
}

/// A whole page around the main content `inner`, given the footer's icon
/// markup.
pub open spec fn page_html(
    og: Seq<char>,
    section: crate::sections::Sections,
    inner: Seq<char>,
    scripts: Seq<String>,
    styles: Seq<String>,
    icon: Seq<char>,
) -> Seq<char> {
    "<!DOCTYPE html><html lang=\"ja\">"@ + html_head_html(og, scripts, styles) + "<body>"@
        + navbar_html(section) + "<div class=\"main-content-container\">"@ + inner + "</div>"@
        + footer_html(icon) + "</body></html>"@
}

/// A whole page: head, navigation bar with the page's section highlighted,
/// the main content `inner`, and the footer.
pub fn base<M: RenderableMetadata>(metadata: &M, inner: &str, scripts: &[String], styles: &[String]) -> (r:
    Result<String, SocialLinkError>)
    requires
        metadata.renderable(),
    ensures
        html_view(r) == match icon_result(CLUB_ACCOUNT@) {
            Err(err) => Err::<Seq<char>, LinkFault>(err),
            Ok(icon) => Ok(
                page_html(metadata.og_html(), metadata.section_of(), inner@, scripts@, styles@, icon),
            ),
        },
{
    let foot = match footer() {
        Ok(f) => f,
        Err(err) => {
            return Err(err);
        },
    };
    let mut out = String::new();
    out.append("<!DOCTYPE html><html lang=\"ja\">");
    let head = html_head(metadata, scripts, styles);
    out.append(head.as_str());
    out.append("<body>");
    let bar = navbar(metadata.section());
    out.append(bar.as_str());
    out.append("<div class=\"main-content-container\">");
    out.append(inner);
    out.append("</div>");
    out.append(foot.as_str());
    out.append("</body></html>");
    Ok(out)
}

/// One work in the join page's carousel.
pub open spec fn join_card_html(e: Seq<(Seq<char>, MemberMeta)>, w: WorkMeta) -> Seq<char> {
    "<div class=\"card\"><div class=\"youtube-embed-container\"></div><a href=\""@ + html_escape(
        "/works/releases/"@ + work_reference(w) + ".html"@,
    ) + "\"><h6>"@ + html_escape(w.title@) + "</h6></a><p>投稿者: "@ + author_list_html(
        e,
        w.authors@,
        w.additional_authors@,
    ) + "</p></div>"@
}

/// The works of the join page's carousel, in order.
pub open spec fn join_cards_html(e: Seq<(Seq<char>, MemberMeta)>, ws: Seq<WorkMeta>) -> Seq<char>
    decreases ws.len(),
{
    if ws.len() == 0 {
        Seq::empty()
    } else {
        join_cards_html(e, ws.drop_last()) + join_card_html(e, ws.last())
    }
}

/// The join page around the carousel's cards.
pub open spec fn join_page_html(cards: Seq<char>) -> Seq<char> {
    "<section id=\"hero\"><div class=\"container\"><h2>ボカロP同好会、入会しよう。</h2><p>ボーカロイド楽曲の制作を通じて交流するサークルです。</p><a class=\"btn\" href=\"#join\">入会案内</a></div></section><section class=\"flex-container\"><h2>メンバー作品</h2><div class=\"carousel\" id=\"infinite-slider\"><div class=\"group\" id=\"visible-slider-group\">"@
        + cards + "</div><div class=\"group\" id=\"hidden-slider-group\" aria-hidden>"@ + cards
        + "</div></div></section><section id=\"join\"><div class=\"container\"><h2>入会案内</h2><div class=\"join-info\"><p>東京大学の学生であれば、学部・学年を問わず入会できます。音楽制作の経験がなくても大歓迎です！</p><p>入会を希望される方は、下記のXアカウントまでご連絡ください。</p><p class=\"contact-email\"><a href=\"https://twitter.com/toudaivocadou/\">@toudaivocadou</a></p><p>または、新歓期間中の説明会にお越しください。</p><div class=\"join-details\"><h3>説明会情報</h3><p>日時: 4月12日 18:00〜18:30</p><p>説明会の参加方法に関しましては、公式Xアカウントで随時お知らせいたします。</p><p>また、日時に関しても変更される場合がありますので、公式Xアカウントからの情報を随時ご確認ください。</p></div></div></div></section>"@
}

fn join_card(site_map: &SiteMap, w: &WorkMeta) -> (r: String)
    requires
        all_members(member_entries(site_map.members), w.authors@),
    ensures
        r@ == join_card_html(member_entries(site_map.members), *w),
{
    let mut out = String::new();
    out.append("<div class=\"card\"><div class=\"youtube-embed-container\"></div><a href=\"");
    let r = reference(w.title.as_str(), w.authors.as_slice(), w.additional_authors.as_slice());
    let page = concat3("/works/releases/", r.as_str(), ".html");
    push_text(&mut out, page.as_str());
    out.append("\"><h6>");
    push_text(&mut out, w.title.as_str());
    out.append("</h6></a><p>投稿者: ");
    let credits = author_list(site_map, w.authors.as_slice(), w.additional_authors.as_slice());
    out.append(credits.as_str());
    out.append("</p></div>");
    proof {
        assert(out@ =~= join_card_html(member_entries(site_map.members), *w));
    }
    out
}

/// The join page: an invitation, a carousel of the site map's works and how
/// to join. The carousel lists the works sorted by date and turned round
/// (newest first, works of one day in the reverse of their order in the site
/// map), shown twice for the endless slider; there is only one such listing
/// (`listing::law_newest_first_unique`). Every work must credit only members
/// as authors.
pub fn join_vocadou(site_map: &SiteMap) -> (r: String)
    requires
        forall|i: int|
            0 <= i < site_map.works@.len() ==> all_members(
                member_entries(site_map.members),
                #[trigger] site_map.works@[i].authors@,
            ),
    ensures
        exists|ws: Seq<WorkMeta>|
            newest_first_of(ws, site_map.works@) && r@ == join_page_html(
                join_cards_html(member_entries(site_map.members), ws),
            ),
{
    let ghost e = member_entries(site_map.members);
    let ghost works = site_map.works@;
    let mut refs: Vec<&WorkMeta> = Vec::new();
    let mut k: usize = 0;
    while k < site_map.works.len()
        invariant
            k <= works.len(),
            works == site_map.works@,
            derefs(refs@) == works.subrange(0, k as int),
        decreases works.len() - k,
    {
        let ghost before = refs@;
        assert(derefs(before).len() == before.len());
        assert(before.len() == k);
        let w: &WorkMeta = &site_map.works[k];
        refs.push(w);
        proof {
            assert(refs@.len() == before.len() + 1);
            assert(*refs@[k as int] == works[k as int]);
            assert forall|j: int| 0 <= j < k implies #[trigger] derefs(refs@)[j] == works[j] by {
                assert(refs@[j] == before[j]);
                assert(derefs(before)[j] == works.subrange(0, k as int)[j]);
            }
            assert(derefs(refs@) =~= works.subrange(0, k + 1));
        }
        k = k + 1;
    }
    proof {
        assert(works.subrange(0, works.len() as int) =~= works);
    }
    let ghost unsorted = refs@;
    let sorted = newest_first(refs);
    let ghost ws = derefs(sorted@);
    proof {
        lemma_newest_first_derefs(sorted@, unsorted);
        assert(newest_first_of(ws, works));
        assert forall|j: int| 0 <= j < ws.len() implies all_members(e, #[trigger] ws[j].authors@) by {
            lemma_newest_first_same_entries(ws, works, ws[j]);
            assert(ws.contains(ws[j]));
            let q = choose|q: int| 0 <= q < works.len() && works[q] == ws[j];
            assert(all_members(e, works[q].authors@));
        }
    }
    let mut cards = String::new();
    let mut i: usize = 0;
    while i < sorted.len()
        invariant
            i <= ws.len(),
            ws == derefs(sorted@),
            e == member_entries(site_map.members),
            forall|j: int| 0 <= j < ws.len() ==> all_members(e, #[trigger] ws[j].authors@),
            cards@ == join_cards_html(e, ws.subrange(0, i as int)),
        decreases ws.len() - i,
    {
        let w: &WorkMeta = sorted[i];
        proof {
            assert(*w == ws[i as int]);
            assert(all_members(e, ws[i as int].authors@));
        }
        let card = join_card(site_map, w);
        cards.append(card.as_str());
        proof {
            let next = ws.subrange(0, i + 1);
            assert(next.drop_last() =~= ws.subrange(0, i as int));
            assert(next.last() == ws[i as int]);
        }
        i = i + 1;
    }
    assert(ws.subrange(0, ws.len() as int) =~= ws);
    let mut out = String::new();
    out.append(
        "<section id=\"hero\"><div class=\"container\"><h2>ボカロP同好会、入会しよう。</h2><p>ボーカロイド楽曲の制作を通じて交流するサークルです。</p><a class=\"btn\" href=\"#join\">入会案内</a></div></section><section class=\"flex-container\"><h2>メンバー作品</h2><div class=\"carousel\" id=\"infinite-slider\"><div class=\"group\" id=\"visible-slider-group\">",
    );
    out.append(cards.as_str());
    out.append("</div><div class=\"group\" id=\"hidden-slider-group\" aria-hidden>");
    out.append(cards.as_str());
    out.append(
        "</div></div></section><section id=\"join\"><div class=\"container\"><h2>入会案内</h2><div class=\"join-info\"><p>東京大学の学生であれば、学部・学年を問わず入会できます。音楽制作の経験がなくても大歓迎です！</p><p>入会を希望される方は、下記のXアカウントまでご連絡ください。</p><p class=\"contact-email\"><a href=\"https://twitter.com/toudaivocadou/\">@toudaivocadou</a></p><p>または、新歓期間中の説明会にお越しください。</p><div class=\"join-details\"><h3>説明会情報</h3><p>日時: 4月12日 18:00〜18:30</p><p>説明会の参加方法に関しましては、公式Xアカウントで随時お知らせいたします。</p><p>また、日時に関しても変更される場合がありますので、公式Xアカウントからの情報を随時ご確認ください。</p></div></div></div></section>",
    );
    assert(out@ =~= join_page_html(join_cards_html(e, ws)));
    out
}


/// The HTML of one activity on the home page: its title, when it takes
/// place and what it is, each escaped.
pub open spec fn activity_html(title: Seq<char>, timeframe: Seq<char>, description: Seq<char>) -> Seq<char> {
    "<div class=\"activity-item\"><h3>"@ + html_escape(title) + "</h3><p>"@ + html_escape(timeframe)
        + "</p><p>"@ + html_escape(description) + "</p></div>"@
}

/// One activity on the home page.
pub fn activity(title: &str, timeframe: &str, description: &str) -> (r: String)
    ensures
        r@ == activity_html(title@, timeframe@, description@),
{
    let mut out = String::new();
    out.append("<div class=\"activity-item\"><h3>");
    push_text(&mut out, title);
    out.append("</h3><p>");
    push_text(&mut out, timeframe);
    out.append("</p><p>");
    push_text(&mut out, description);
    out.append("</p></div>");
    proof {
        assert(out@ =~= activity_html(title@, timeframe@, description@));
    }
    out
}

/// The home page around its three activity items.
pub open spec fn index_html(activities: Seq<char>) -> Seq<char> {
    "<section id=\"hero\"><div class=\"container\"><h2>ボカロ、作ろう。</h2><p>ボーカロイド楽曲の制作を通じて交流するサークルです。</p><a class=\"btn\" href=\"/join.html\">入会案内</a></div></section><section id=\"about\"><div class=\"container\"><h2>サークル紹介</h2><div class=\"about-content\"><p>東京大学ボカロP同好会は、ボーカロイド楽曲の制作を通じて交流するサークルです。</p><p>週一の活動では、作曲のアイデアや課題を共有し、フィードバックし合うことで、一人では気づけなかった新しい発見があります。</p><p>さらに、サークルとして活動が広がることで、楽曲がより多くの人に届くチャンスにも繋がります。</p><p>まだ設立したばかりのこのサークルで、一緒に音楽を楽しみながら成長しませんか？（サークル代表　三森）</p></div><div class=\"about-image\"><img class=\"img-placeholder\" src=\"images/circle-photo.jpg\" alt=\"サークル活動の様子\" style=\"height: auto\"></div></div></section><section id=\"activities\"><div class=\"container\"><h2>活動内容</h2><div class=\"activity-list\">"@
        + activities
        + "</div></div></section><section id=\"featured-work\"><div class=\"container\"><h2>注目作品</h2><p class=\"section-description\">メンバーの作品をランダムにピックアップしてご紹介します。リロードするたびに違う作品が表示されます。</p><div id=\"featured-work-container\"><div class=\"youtube-embed-container\" id=\"embed\"></div><div class=\"featured-work-info\"><a id=\"featured-work-link\" href=\"\"><h3 id=\"featured-work-title\">曲名</h3></a><p>制作:<a id=\"featured-work-creator\" href=\"\">メンバー名</a></p><p id=\"featured-work-description\"></p><div style=\"margin-top: auto;\"><div class=\"click-button\"><a href=\"/works.html\"><p>全曲一覧になる</p></a></div><div class=\"click-button\"><p id=\"reload\">曲をリロード</p></div></div></div></div></div></section>"@
}

/// The main content of the home page: the invitation, the club's
/// introduction with its photo, the activities and the featured-work panel
/// the site's script fills in. The photo is referenced by its source path;
/// the page post-processor (`fixup_html`) resolves it to the processed image
/// and fails the page if there is none.
pub fn index_page() -> (r: String)
    ensures
        r@ == index_html(
            activity_html("ディスコード上でのオンライン会合"@, "毎週土曜日 21:00〜"@, "作品の進捗報告や技術共有、創作のヒントなどを話し合います。"@)
                + activity_html("楽曲発表会"@, "月1回ほど"@, "主にオフラインで、自分の作った楽曲を共有し、部員間で作曲のノウハウを共有したり、自分の曲にフィードバックを受け取ったりします。"@)
                + activity_html("各種レクリエーション"@, "不定期"@, "ピクニックやボカロに関するクイズ大会などで交流を深めます。"@),
        ),
{
    let mut out = String::new();
    out.append("<section id=\"hero\"><div class=\"container\"><h2>ボカロ、作ろう。</h2><p>ボーカロイド楽曲の制作を通じて交流するサークルです。</p><a class=\"btn\" href=\"/join.html\">入会案内</a></div></section><section id=\"about\"><div class=\"container\"><h2>サークル紹介</h2><div class=\"about-content\"><p>東京大学ボカロP同好会は、ボーカロイド楽曲の制作を通じて交流するサークルです。</p><p>週一の活動では、作曲のアイデアや課題を共有し、フィードバックし合うことで、一人では気づけなかった新しい発見があります。</p><p>さらに、サークルとして活動が広がることで、楽曲がより多くの人に届くチャンスにも繋がります。</p><p>まだ設立したばかりのこのサークルで、一緒に音楽を楽しみながら成長しませんか？（サークル代表　三森）</p></div><div class=\"about-image\"><img class=\"img-placeholder\" src=\"images/circle-photo.jpg\" alt=\"サークル活動の様子\" style=\"height: auto\"></div></div></section><section id=\"activities\"><div class=\"container\"><h2>活動内容</h2><div class=\"activity-list\">");
    let a1 = activity("ディスコード上でのオンライン会合", "毎週土曜日 21:00〜", "作品の進捗報告や技術共有、創作のヒントなどを話し合います。");
    out.append(a1.as_str());
    let a2 = activity("楽曲発表会", "月1回ほど", "主にオフラインで、自分の作った楽曲を共有し、部員間で作曲のノウハウを共有したり、自分の曲にフィードバックを受け取ったりします。");
    out.append(a2.as_str());
    let a3 = activity("各種レクリエーション", "不定期", "ピクニックやボカロに関するクイズ大会などで交流を深めます。");
    out.append(a3.as_str());
    out.append("</div></div></section><section id=\"featured-work\"><div class=\"container\"><h2>注目作品</h2><p class=\"section-description\">メンバーの作品をランダムにピックアップしてご紹介します。リロードするたびに違う作品が表示されます。</p><div id=\"featured-work-container\"><div class=\"youtube-embed-container\" id=\"embed\"></div><div class=\"featured-work-info\"><a id=\"featured-work-link\" href=\"\"><h3 id=\"featured-work-title\">曲名</h3></a><p>制作:<a id=\"featured-work-creator\" href=\"\">メンバー名</a></p><p id=\"featured-work-description\"></p><div style=\"margin-top: auto;\"><div class=\"click-button\"><a href=\"/works.html\"><p>全曲一覧になる</p></a></div><div class=\"click-button\"><p id=\"reload\">曲をリロード</p></div></div></div></div></div></section>");
    out
}

/// The page shown for an address the site does not have.
pub open spec fn notfound_html() -> Seq<char> {
    "<section id=\"hero\"><h2>このページは見つかりませんでした。</h2></section><section id=\"content\"><div class=\"container\"><a class=\"back-button\" href=\"/index.html\">メインページに一覧に戻る</a></div></section>"@
}

/// The main content of the page for a missing address.
pub fn notfound() -> (r: String)
    ensures
        r@ == notfound_html(),
{
    owned("<section id=\"hero\"><h2>このページは見つかりませんでした。</h2></section><section id=\"content\"><div class=\"container\"><a class=\"back-button\" href=\"/index.html\">メインページに一覧に戻る</a></div></section>")
}

} // verus!
