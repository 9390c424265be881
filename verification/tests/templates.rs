use indexmap::IndexMap;
use vocadou_site::cards::{
    album_card, featured_album_detail, featured_post_detail, featured_work_detail, member_card,
    news_card, work_card,
};
use vocadou_site::date::Date;
use vocadou_site::details::{album_detail, member_detail, news_detail, work_detail, DetailError};
use vocadou_site::layout::{activity, base, index_page, notfound, html_head, members, news_index, work_album_index};
use vocadou_site::meta::{AlbumMeta, GenericMeta, Illustration, MemberMeta, NewsMeta, Track, WorkMeta};
use vocadou_site::reference::reference;
use vocadou_site::sections::Sections;
use vocadou_site::sitemap::{build_site_map, collect_members, SiteMap};
use vocadou_site::social::SocialLinkError;

fn person(name: &str, ascii: &str, position: Option<&str>, links: &[&str]) -> MemberMeta {
    MemberMeta {
        name: name.to_string(),
        ascii_name: ascii.to_string(),
        department: None,
        position: position.map(|p| p.to_string()),
        entry_year: None,
        short: "hi".to_string(),
        links: links.iter().map(|l| l.to_string()).collect(),
    }
}

fn day(d: u8) -> Date {
    Date { year: 2024, month: 6, day: d }
}

fn work(title: &str, authors: &[&str], d: u8) -> WorkMeta {
    WorkMeta {
        title: title.to_string(),
        authors: authors.iter().map(|a| a.to_string()).collect(),
        additional_authors: vec![],
        date: day(d),
        short: None,
        thumbnail: None,
        source: None,
        sns_links: vec![],
    }
}

fn post(title: &str, author: Option<&str>, d: u8) -> NewsMeta {
    NewsMeta {
        title: title.to_string(),
        author: author.map(|a| a.to_string()),
        thumbnail: None,
        date: day(d),
        short: Some("s".to_string()),
        sns_links: vec![],
    }
}

fn cover(illustrators: &[&str]) -> Illustration {
    Illustration {
        image: "cover.png".to_string(),
        illustrators: illustrators.iter().map(|a| a.to_string()).collect(),
        additional_illustrators: vec![],
        description: None,
    }
}

fn album(title: &str, authors: &[&str], d: u8) -> AlbumMeta {
    AlbumMeta {
        title: title.to_string(),
        authors: authors.iter().map(|a| a.to_string()).collect(),
        additional_authors: vec![],
        date: day(d),
        link: None,
        demonstration: None,
        sns_links: vec![],
        short: None,
        thumbnail: cover(&["alice"]),
        illustrations: IndexMap::new(),
        tracks: IndexMap::new(),
    }
}

fn site(works: Vec<WorkMeta>, albums: Vec<AlbumMeta>, news: Vec<NewsMeta>) -> SiteMap {
    let members = vec![
        person("Alice", "alice", Some("代表"), &["https://x.com/alice"]),
        person("Bob", "bob", None, &[]),
    ];
    build_site_map(collect_members(members), works, albums, news).unwrap()
}

fn strings(v: &[&str]) -> Vec<String> {
    v.iter().map(|s| s.to_string()).collect()
}

#[test]
fn member_cards_render() {
    let alice = person("Alice", "alice", Some("代表"), &["https://x.com/alice"]);
    assert_eq!(
        member_card(&alice).unwrap(),
        "<div class=\"member-item\"><a class=\"member-link\" href=\"/members/alice.html\"><div class=\"member-card\"><div class=\"member-image img-placeholder\"><img class=\"member-image img-placeholder\" src=\"icon/alice.jpg\" alt=\"Alice\"></div><div class=\"member-info\" id=\"alice\"><h3>Alice</h3><p class=\"member-role\">代表</p><p class=\"member-description\">hi</p><div class=\"member-links\"><a class=\"social-icon social-icon-size\" href=\"https://x.com/alice\"><img alt=\"https://x.com/alice\" src=\"public/social_icons/twitter.svg\" style=\"\"></a></div></div></div></a></div>"
    );
    let bob = person("Bob", "bob", None, &[]);
    let card = member_card(&bob).unwrap();
    assert!(card.contains("<div class=\"member-links\"><div class=\"social-icon-size\" style=\"visibility: hidden\"></div></div>"));
    let broken = person("C", "c", None, &["not a url"]);
    assert!(matches!(member_card(&broken), Err(SocialLinkError::NotAUrl(_))));
}

#[test]
fn news_cards_render() {
    let map = site(vec![], vec![], vec![post("p", Some("alice"), 1)]);
    let p = post("p", Some("alice"), 1);
    let r = reference("p", &strings(&["alice"]), &[]);
    assert_eq!(
        news_card(&map, &p).unwrap(),
        format!(
            "<div class=\"post-card\"><div class=\"member-profile-image post-card-image\"><img class=\"post-img\" src=\"gray.jpg\"></img></div><div class=\"post-info\"><h3 class=\"post-card-title\"><a href=\"/news/{r}/index.html\">p</a></h3><p class=\"member-role\">2024-06-01</p><a href=\"/members/alice/index.html\"><p>Alice</p></a><p>s</p><div class=\"member-links\"></div></div></div>"
        )
    );
    let anonymous = post("q", None, 2);
    assert!(news_card(&map, &anonymous).unwrap().contains("<p>東大ボカロP同好会</p>"));
}

#[test]
fn featured_entries_render() {
    let w = work("曲 1", &["alice"], 3);
    let r = reference("曲 1", &strings(&["alice"]), &[]);
    assert_eq!(
        featured_work_detail(&w),
        format!(
            "<div class=\"work-item-detail\" id=\"%E6%9B%B2%201\"><h4>曲 1</h4><div class=\"work-youtube-container\"><img class=\"work-item-thumb\" src=\"gray.jpg\" alt=\"曲 1\"></img></div><div class=\"work-description\"><p>説明がありません。</p></div><div class=\"click-button\"><a href=\"/works/releases/{r}.html\"><p>詳しく見る</p></a></div></div>"
        )
    );
    let p = post("p", None, 4);
    let pr = reference("p", &strings(&["東大ボカロP同好会"]), &[]);
    assert_eq!(
        featured_post_detail(&p).unwrap(),
        format!(
            "<div class=\"post-card\" style=\"width: 100%;\"><div class=\"member-profile-image post-card-image\"><img class=\"post-img\" src=\"gray.jpg\"></img></div><div class=\"post-info\"><h3 class=\"post-card-title\" style=\"text-align: start; margin-bottom: 0px;\"><a href=\"/news/{pr}.html\">p</a></h3><p class=\"member-role\">2024-06-04</p><p>s</p><div class=\"member-links\"></div></div></div>"
        )
    );
    let map = site(vec![], vec![], vec![]);
    let a = album("A&B", &["bob"], 5);
    let ar = reference("A&B", &strings(&["bob"]), &[]);
    assert_eq!(
        featured_album_detail(&map, &a),
        format!(
            "<div class=\"post-card\" style=\"width: 100%;\"><div class=\"member-profile-image post-card-image\"><img class=\"work-item-thumb\" src=\"cover.png\" alt=\"A&amp;B\"></img></div><div class=\"post-info\"><h3 class=\"post-card-title\" style=\"text-align: start; margin-bottom: 0px;\"><a href=\"/works/albums/{}.html\">A&amp;B</a></h3><p class=\"work-role\">2024-06-05</p><p class=\"member-role\"><a class=\"member-role member-bio\" href=\"/members/Bob.html\">bob</a></p></div></div>",
            ar.replace('&', "&amp;")
        )
    );
}

#[test]
fn work_and_album_cards_render() {
    let map = site(vec![], vec![], vec![]);
    let mut w = work("W", &["bob"], 6);
    w.additional_authors = strings(&["guest"]);
    w.short = Some("short".to_string());
    let r = reference("W", &strings(&["bob"]), &strings(&["guest"]));
    assert_eq!(
        work_card(&map, &w),
        format!(
            "<div class=\"work-item\"><a class=\"member-link\" href=\"/works/releases/{r}/index.html\"><div class=\"work-card\"><h4 class=\"member-info\"><a class=\"member-link\" href=\"/works/releases/{r}/index.html\">W</a></h4><div class=\"work-thumbnail\"><img class=\"work-item-thumb\" src=\"gray.jpg\" alt=\"W\"></img></div><div class=\"work-description\"><a class=\"member-role member-bio\" href=\"/members/Bob.html\">bob</a>, <a class=\"invalid-link\" href=\".\">guest</a><p class=\"work-date\">2024-06-06</p><p>short</p></div></div></a></div>"
        )
    );
    let a = album("Al", &["alice"], 7);
    let ar = reference("Al", &strings(&["alice"]), &[]);
    assert_eq!(
        album_card(&map, &a),
        format!(
            "<div class=\"work-item\"><a class=\"member-link\" href=\"/works/albums/{ar}/index.html\"><div class=\"work-card\"><h4 class=\"member-info\"><a href=\"/works/albums/{ar}/index.html\">Al</a></h4><div class=\"work-thumbnail\"><img class=\"work-item-thumb\" src=\"cover.png\" alt=\"Al\"></img></div><div class=\"work-description\"><p class=\"member-role\"><a class=\"member-role member-bio\" href=\"/members/Alice.html\">alice</a></p><p class=\"work-date\">2024-06-07</p><p><i>説明がありません</i></p></div></div></a></div>"
        )
    );
}

#[test]
fn index_pages_list_cards_in_order() {
    let map = site(
        vec![work("w1", &["bob"], 1), work("w2", &["alice"], 2)],
        vec![album("a1", &["alice"], 3)],
        vec![post("p1", None, 1)],
    );
    let index = work_album_index(&map, &map.works, &map.albums);
    let first = index.find(">w2</a></h4>").unwrap();
    let second = index.find(">w1</a></h4>").unwrap();
    assert!(first < second);
    assert!(index.contains(">a1</a></h4>"));
    assert!(index.starts_with("<section id=\"hero\"><div class=\"container\"><h2>作品</h2>"));
    assert!(index.ends_with("</div></div></div></section>"));
    let news = news_index(&map, &map.news).unwrap();
    assert!(news.contains(">p1</a></h3>"));
    let list = members(&map).unwrap();
    let alice = list.find("id=\"alice\"").unwrap();
    let bob = list.find("id=\"bob\"").unwrap();
    assert!(alice < bob);
}

#[test]
fn page_frame_wraps_content() {
    let meta = GenericMeta { path: "/join.html", section: Sections::Join, title: "参加案内" };
    let head = html_head(&meta, &strings(&["/a.js"]), &strings(&["/s.css"]));
    assert_eq!(
        head,
        "<head><meta charset=\"UTF-8\"><meta name=\"viewport\" content=\"width=device-width, initial-scale=1.0\"><meta property=\"og:title\" content=\"参加案内\"><meta property=\"og:site_name\" content=\"東京大学ボカロP同好会 - University of Tokyo Vocaloid Producer Club\"><meta property=\"og:locale\" content=\"ja_JP\"><meta property=\"og:type\" content=\"website\"><script async defer src=\"/a.js\"><link rel=\"stylesheet\" href=\"/s.css\"><link rel=\"icon\" type=\"image/x-icon\" href=\"/favicon.ico\"><script async defer src=\"/a.js\"></script></head>"
    );
    let page = base(&meta, "<p>inner</p>", &[], &[]).unwrap();
    assert!(page.starts_with("<!DOCTYPE html><html lang=\"ja\"><head>"));
    assert!(page.contains("<li><a class=\"active\" href=\"/join.html\">入会案内</a></li>"));
    assert!(page.contains("<div class=\"main-content-container\"><p>inner</p></div><footer>"));
    assert!(page.ends_with("</footer></body></html>"));
}

#[test]
fn news_detail_renders() {
    let map = site(vec![], vec![], vec![]);
    let p = post("p", Some("bob"), 9);
    let page = news_detail(&map, &p, "<p>body</p>".to_string()).unwrap();
    assert_eq!(
        page,
        "<section id=\"post-detail\"><div class=\"member-detail-container\"><div class=\"member-profile\"><div class=\"work-image\"><img src=\"gray.jpg\" alt=\"header image\"></img></div><div class=\"member-profile-info\"><h2>p</h2><p>2024-06-09</p><a href=\"/members/bob/index.html\"><p>Bob</p></a><div class=\"member-links\"></div></div></div></div></section><div class=\"member-works-container\"><section class=\"work-description\" id=\"description\"><div class=\"description\"><p>body</p></div></section><div class=\"back-button\"><a href=\"../news/index.html\">ニュース目録一覧に戻る</a></div></div>"
    );
}

#[test]
fn work_detail_renders() {
    let map = site(vec![], vec![], vec![]);
    let mut w = work("W", &["alice"], 1);
    w.source = Some("https://youtu.be/x".to_string());
    let page = work_detail(&map, &w, String::new(), Ok("<iframe></iframe>".to_string())).unwrap();
    assert!(page.contains("<p>投稿者: <a class=\"member-role member-bio\" href=\"/members/Alice.html\">alice</a></p>"));
    assert!(page.contains("<div class=\"youtube-embed-container\"><iframe></iframe></div><div class=\"click-button\"><a href=\"https://youtu.be/x\" alt=\"W\"><p>現本に行く</p></a></div>"));
    assert!(page.contains("<h2>作品説明</h2><p class=\"work-no-description\"><em>説明がありません。</em></p>"));
    let plain = work("V", &["bob"], 1);
    let page = work_detail(&map, &plain, "<p>d</p>".to_string(), Ok(String::new())).unwrap();
    assert!(page.contains("<p class=\"work-no-description\"><em>リンクがありません。</em></p>"));
    assert!(page.contains("<div class=\"description\"><p>d</p></div>"));
    let unused = work_detail(&map, &plain, String::new(), Err("no player".to_string()));
    assert!(unused.is_ok());
    assert_eq!(
        work_detail(&map, &w, String::new(), Err("no player".to_string())),
        Err(DetailError::Player("no player".to_string()))
    );
    let mut broken = w.clone();
    broken.sns_links = vec!["not a link".to_string()];
    assert!(matches!(
        work_detail(&map, &broken, String::new(), Err("no player".to_string())),
        Err(DetailError::Link(SocialLinkError::NotAUrl(_)))
    ));
}

#[test]
fn album_detail_lists_tracks() {
    let map = site(vec![], vec![], vec![]);
    let mut a = album("Al", &["alice"], 1);
    a.tracks.insert(
        "One".to_string(),
        Track { authors: strings(&["bob"]), additional_authors: vec![], duration_secs: 200, duration_nanos: 0, external: false },
    );
    a.tracks.insert(
        "Cover".to_string(),
        Track { authors: vec![], additional_authors: strings(&["Other"]), duration_secs: 61, duration_nanos: 0, external: true },
    );
    a.illustrations.insert("back".to_string(), cover(&["bob"]));
    let page = album_detail(&map, &a, "lyrics".to_string(), Err("unused".to_string())).unwrap();
    let one = reference("One", &strings(&["bob"]), &[]);
    assert!(page.contains(&format!(
        "<div class=\"tracklist-track\"><dt class=\"track-title\"><h2>1. <a href=\"{one}\">One</a></h2></dt><dd class=\"track-author\"><a class=\"member-role member-bio\" href=\"/members/Bob.html\">bob</a></dd><dd class=\"track-length\">3m 20s</dd></div>"
    )));
    assert!(page.contains("<h2>2. Cover</h2></dt><dd class=\"track-author\"><a class=\"invalid-link\" href=\".\">Other</a></dd><dd class=\"track-length\">1m 1s</dd>"));
    assert!(page.contains("<div class=\"work-item-detail\" id=\"illustration-back\"><h4>back</h4><div class=\"work-illustration-container\"><img class=\"img-placeholder\" src=\"cover.png\" alt=\"back\"></div><p>イラスト: <a class=\"member-role member-bio\" href=\"/members/Alice.html\">alice</a></p></div>"));
    assert!(page.contains("<p class=\"work-no-description\"><em>試聴動画がありません。</em></p>"));
    assert!(page.contains("<div class=\"description\">lyrics</div>"));
    a.demonstration = Some("https://youtu.be/y".to_string());
    assert_eq!(
        album_detail(&map, &a, String::new(), Err("bad player".to_string())),
        Err(DetailError::Player("bad player".to_string()))
    );
    let page = album_detail(&map, &a, String::new(), Ok("<iframe></iframe>".to_string())).unwrap();
    assert!(page.contains("<div class=\"work-youtube-container\"><div class=\"youtube-embed-container\"><iframe></iframe></div></div>"));
}

#[test]
fn member_detail_shows_recent_entries() {
    let map = site(
        vec![work("w1", &["alice"], 1), work("w2", &["bob"], 2)],
        vec![],
        vec![post("p1", Some("alice"), 3)],
    );
    let alice = person("Alice", "alice", Some("代表"), &[]);
    let page = member_detail(&alice, &map, "<p>bio</p>".to_string()).unwrap();
    assert!(page.starts_with("<section id=\"member-detail\"><div class=\"member-detail-container\"><div class=\"member-profile\"><div class=\"member-profile-image\"><img class=\"img-placeholder\" src=\"icon/alice.jpg\" alt=\"Alice\"></div><div class=\"member-profile-info\"><h2>Alice</h2><p class=\"member-role\">代表</p><div class=\"member-bio\"><p>bio</p></div>"));
    assert!(page.contains("<h4>w1</h4>"));
    assert!(!page.contains("<h4>w2</h4>"));
    assert!(page.contains(">p1</a></h3>"));
    assert!(page.contains("<em>アルバムがありません。</em>"));
    assert!(!page.contains("代表作品がありません。"));
    assert!(page.ends_with("<div class=\"back-button\"><a href=\"../members.html\" class=\"margin-top: 50px;\">メンバー一覧に戻る</a></div></div></section>"));
}

#[test]
fn join_page_shows_works_twice() {
    let map = site(vec![work("w1", &["bob"], 1), work("w2", &["alice"], 2)], vec![], vec![]);
    let page = vocadou_site::layout::join_vocadou(&map);
    let r2 = reference("w2", &strings(&["alice"]), &[]);
    let card = format!(
        "<div class=\"card\"><div class=\"youtube-embed-container\"></div><a href=\"/works/releases/{r2}.html\"><h6>w2</h6></a><p>投稿者: <a class=\"member-role member-bio\" href=\"/members/Alice.html\">alice</a></p></div>"
    );
    assert_eq!(page.matches(&card).count(), 2);
    assert!(page.find("<h6>w2</h6>").unwrap() < page.find("<h6>w1</h6>").unwrap());
    assert!(page.starts_with("<section id=\"hero\"><div class=\"container\"><h2>ボカロP同好会、入会しよう。</h2>"));
    assert!(page.contains("<div class=\"group\" id=\"hidden-slider-group\" aria-hidden>"));
}

#[test]
fn join_page_sorts_the_works_newest_first() {
    let mut map = site(vec![], vec![], vec![]);
    map.works = vec![
        work("a", &["bob"], 2),
        work("b", &["bob"], 2),
        work("c", &["alice"], 5),
        work("d", &["alice"], 1),
    ];
    let page = vocadou_site::layout::join_vocadou(&map);
    let at = |t: &str| page.find(&format!("<h6>{t}</h6>")).unwrap();
    assert!(at("c") < at("b"));
    assert!(at("b") < at("a"));
    assert!(at("a") < at("d"));
}

#[test]
fn boxed_and_borrowed_metadata_render_alike() {
    let meta = GenericMeta { path: "/news.html", section: Sections::News, title: "ニュース" };
    let plain = base(&meta, "x", &[], &[]).unwrap();
    let boxed = base(&Box::new(meta.clone()), "x", &[], &[]).unwrap();
    let borrowed = base(&&meta, "x", &[], &[]).unwrap();
    assert_eq!(plain, boxed);
    assert_eq!(plain, borrowed);
    assert!(plain.contains("<meta property=\"og:type\" content=\"website\">"));
}

#[test]
fn activity_items_escape_their_text() {
    assert_eq!(
        activity("会合 & <話>", "毎週", "\"共有\""),
        "<div class=\"activity-item\"><h3>会合 &amp; &lt;話&gt;</h3><p>毎週</p><p>&quot;共有&quot;</p></div>"
    );
}

#[test]
fn home_and_missing_pages() {
    let home = index_page();
    assert!(home.starts_with("<section id=\"hero\"><div class=\"container\"><h2>ボカロ、作ろう。</h2>"));
    assert!(home.contains("<img class=\"img-placeholder\" src=\"images/circle-photo.jpg\" alt=\"サークル活動の様子\" style=\"height: auto\">"));
    assert!(home.contains(&activity("楽曲発表会", "月1回ほど", "主にオフラインで、自分の作った楽曲を共有し、部員間で作曲のノウハウを共有したり、自分の曲にフィードバックを受け取ったりします。")));
    assert_eq!(home.matches("<div class=\"activity-item\">").count(), 3);
    assert!(home.ends_with("<p id=\"reload\">曲をリロード</p></div></div></div></div></div></section>"));
    assert_eq!(
        notfound(),
        "<section id=\"hero\"><h2>このページは見つかりませんでした。</h2></section><section id=\"content\"><div class=\"container\"><a class=\"back-button\" href=\"/index.html\">メインページに一覧に戻る</a></div></section>"
    );
}
