use std::hash::Hasher;

use base64::Engine;
use vocadou_site::authors::known_invalid_link;
use vocadou_site::date::{format_date, Date};
use vocadou_site::meta::NewsMeta;
use vocadou_site::pages::{
    album_page_path, default_short, markdown_html, member_page_path, news_author, news_page_path,
    news_reference, split_front_matter, work_page_path, FrontMatterError,
};
use vocadou_site::reference::reference;
use vocadou_site::sections::{jinja_member, member, navbar, navbar_item, Sections};
use vocadou_site::social::{footer, jinja_sns_icon, sns_icon, SocialLinkError, SocialLinkType};
use vocadou_site::text::{compare_chars, contains_str, find_str, starts_with};

fn digest_reference(title: &str, names: &[&str]) -> String {
    let mut hasher = seahash::SeaHasher::default();
    hasher.write(title.as_bytes());
    for n in names {
        hasher.write(n.as_bytes());
    }
    let tag = base64::prelude::BASE64_URL_SAFE_NO_PAD.encode(hasher.finish().to_le_bytes());
    format!("{title}-{tag}")
}

fn strings(v: &[&str]) -> Vec<String> {
    v.iter().map(|s| s.to_string()).collect()
}

fn post(title: &str, author: Option<&str>) -> NewsMeta {
    NewsMeta {
        title: title.to_string(),
        author: author.map(|a| a.to_string()),
        thumbnail: None,
        date: Date { year: 2025, month: 4, day: 1 },
        short: None,
        sns_links: vec![],
    }
}

#[test]
fn reference_digests_title_and_authors_in_order() {
    let r = reference("曲", &strings(&["alice", "bob"]), &strings(&["Guest"]));
    assert_eq!(r, digest_reference("曲", &["alice", "bob", "Guest"]));
    assert!(r.starts_with("曲-"));
    assert_eq!(r.chars().count(), "曲-".chars().count() + 11);
}

#[test]
fn reference_is_deterministic_and_depends_on_authors() {
    let a = reference("Song", &strings(&["alice"]), &[]);
    let b = reference("Song", &strings(&["alice"]), &[]);
    let c = reference("Song", &strings(&["bob"]), &[]);
    assert_eq!(a, b);
    assert_ne!(a, c);
    assert_eq!(reference("Song", &[], &[]), digest_reference("Song", &[]));
}

#[test]
fn news_reference_uses_the_club_when_no_author() {
    assert_eq!(
        news_reference(&post("お知らせ", None)),
        digest_reference("お知らせ", &["東大ボカロP同好会"])
    );
    assert_eq!(
        news_reference(&post("お知らせ", Some("alice"))),
        digest_reference("お知らせ", &["alice"])
    );
    assert_eq!(news_author(&post("x", None)), "東大ボカロP同好会");
    assert_eq!(news_author(&post("x", Some("bob"))), "bob");
}

#[test]
fn page_paths() {
    assert_eq!(work_page_path("a-b"), "/works/releases/a-b.html");
    assert_eq!(album_page_path("a-b"), "/albums/releases/a-b/index.html");
    assert_eq!(news_page_path("a-b"), "/news/a-b/index.html");
    assert_eq!(member_page_path("alice"), "/members/alice/index.html");
}

#[test]
fn front_matter_splits_at_the_first_separator() {
    assert_eq!(
        split_front_matter("title = \"x\"\n===\nbody === more"),
        Ok(("title = \"x\"\n".to_string(), "\nbody === more".to_string()))
    );
    assert_eq!(split_front_matter("===").unwrap(), (String::new(), String::new()));
    assert_eq!(split_front_matter("no separator"), Err(FrontMatterError::MissingSeparator));
    assert_eq!(split_front_matter("=="), Err(FrontMatterError::MissingSeparator));
}

#[test]
fn default_short_takes_fifty_characters() {
    let body: String = std::iter::repeat('字').take(80).collect();
    let expected: String = std::iter::repeat('字').take(50).collect::<String>() + "...";
    assert_eq!(default_short(&body), expected);
    assert_eq!(default_short("hi"), "hi...");
}

#[test]
fn dates_render_zero_padded() {
    assert_eq!(format_date(Date { year: 2024, month: 3, day: 7 }), "2024-03-07");
    assert_eq!(format_date(Date { year: 987, month: 12, day: 31 }), "0987-12-31");
    assert_eq!(Date::from_calendar_date(2024, 2, 29), Some(Date { year: 2024, month: 2, day: 29 }));
    assert_eq!(Date::from_calendar_date(2023, 2, 29), None);
    assert_eq!(Date::from_calendar_date(2023, 13, 1), None);
    assert_eq!(Date::from_calendar_date(1900, 2, 29), None);
    assert_eq!(Date::from_calendar_date(2000, 2, 29).is_some(), true);
    assert!(Date { year: 2024, month: 1, day: 31 }.is_before(&Date { year: 2024, month: 2, day: 1 }));
    assert!(!Date { year: 2024, month: 2, day: 1 }.is_before(&Date { year: 2024, month: 2, day: 1 }));
}

#[test]
fn member_link_escapes() {
    assert_eq!(member("alice"), "<a href=\"/members/alice\">alice</a>");
    assert_eq!(jinja_member("a&b"), "<a href=\"/members/a&amp;b\">a&amp;b</a>");
}

#[test]
fn navbar_marks_the_current_section() {
    assert_eq!(
        navbar_item("/x.html", true, "X<"),
        "<li><a class=\"active\" href=\"/x.html\">X&lt;</a></li>"
    );
    assert_eq!(
        navbar_item("/x.html", false, "X"),
        "<li><a class=\"\" href=\"/x.html\">X</a></li>"
    );
    let bar = navbar(Sections::MemberProfile);
    assert!(bar.starts_with("<header><div class=\"container\"><a href=\"/index.html\"><h1>東京大学ボカロP同好会</h1></a><nav><ul>"));
    assert!(bar.contains("<li><a class=\"active\" href=\"/members.html\">メンバー紹介</a></li>"));
    assert!(bar.contains("<li><a class=\"\" href=\"/index.html\">ホーム</a></li>"));
    assert!(bar.ends_with("</ul></nav></div></header>"));
    assert_eq!(bar.matches("class=\"active\"").count(), 1);
}

#[test]
fn opengraph_types_and_labels() {
    assert_eq!(Sections::AlbumPost.opengraph_type(), "music.album");
    assert_eq!(Sections::WorksPost.opengraph_type(), "music.song");
    assert_eq!(Sections::NewsPost.opengraph_type(), "article");
    assert_eq!(Sections::MemberProfile.opengraph_type(), "profile");
    assert_eq!(Sections::Home.opengraph_type(), "website");
    assert_eq!(Sections::Join.label(), "参加情報");
    assert_eq!(Sections::Home.label(), "ホームページ");
}

#[test]
fn social_link_kinds() {
    assert_eq!(SocialLinkType::from_url("https://x.com/a"), Ok(SocialLinkType::Twitter));
    assert_eq!(SocialLinkType::from_url("https://bsky.app/profile/a"), Ok(SocialLinkType::Bluesky));
    assert_eq!(SocialLinkType::from_url("https://foo.bandcamp.com/"), Ok(SocialLinkType::Bandcamp));
    assert_eq!(
        SocialLinkType::from_url("https://example.org/"),
        Ok(SocialLinkType::OtherUnknown("example.org".to_string()))
    );
    assert_eq!(
        SocialLinkType::from_url("not a url"),
        Err(SocialLinkError::NotAUrl("relative URL without a base".to_string()))
    );
    let no_domain = SocialLinkType::from_url("https://127.0.0.1").unwrap_err();
    assert_eq!(no_domain, SocialLinkError::NoDomain("https://127.0.0.1/".to_string()));
    assert_eq!(no_domain.message(), "Bad URL: https://127.0.0.1/");
    assert_eq!(SocialLinkType::Xitter.to_svg_icon(), "twitter.svg");
    assert_eq!(SocialLinkType::OtherUnknown("a".to_string()).to_svg_icon(), "link.svg");
}

#[test]
fn sns_icons() {
    assert_eq!(
        sns_icon("https://x.com/toudaivocadou").unwrap(),
        "<a class=\"social-icon social-icon-size\" href=\"https://x.com/toudaivocadou\"><img alt=\"https://x.com/toudaivocadou\" src=\"public/social_icons/twitter.svg\" style=\"\"></a>"
    );
    assert_eq!(
        jinja_sns_icon("https://bsky.app/profile/a").unwrap(),
        "<a class=\"social-icon social-icon-size\" href=\"https://bsky.app/profile/a\"><img alt=\"https://bsky.app/profile/a\" src=\"public/social_icons/bluesky.svg\" style=\"width: 100%;\"></a>"
    );
    assert_eq!(sns_icon("nope"), Err(SocialLinkError::NotAUrl("relative URL without a base".to_string())));
    assert_eq!(sns_icon("nope").unwrap_err().message(), "relative URL without a base");
    let f = footer().unwrap();
    assert!(f.starts_with("<footer><div class=\"container\"><p>© 2025 東京大学ボカロP同好会</p>"));
    assert!(f.contains("public/social_icons/twitter.svg"));
}

#[test]
fn invalid_links_escape_the_name() {
    assert_eq!(known_invalid_link("A & B"), "<a class=\"invalid-link\" href=\".\">A &amp; B</a>");
}

#[test]
fn text_helpers() {
    assert!(starts_with("https://a", "https://"));
    assert!(!starts_with("http", "https"));
    assert!(contains_str("foo.bandcamp.com", "bandcamp.com"));
    assert_eq!(find_str("a===b===", "==="), Some(1));
    assert_eq!(find_str("ab", "abc"), None);
    assert_eq!(compare_chars("a", "b"), -1);
    assert_eq!(compare_chars("b", "a"), 1);
    assert_eq!(compare_chars("ab", "ab"), 0);
    assert_eq!(compare_chars("a", "ab"), -1);
}

#[test]
fn front_matter_and_body_rebuild_the_source() {
    for source in ["a = 1\n===\nbody", "===", "x===y===z", "前===後"] {
        let (front, body) = split_front_matter(source).unwrap();
        assert_eq!(format!("{front}==={body}"), source);
    }
}

#[test]
fn markdown_renders_commonmark() {
    assert_eq!(markdown_html("# T"), "<h1>T</h1>\n");
    assert_eq!(markdown_html("a *b*"), "<p>a <em>b</em></p>\n");
    assert_eq!(markdown_html(""), "");
}

#[test]
fn references_end_in_eleven_url_safe_characters() {
    for (title, known, other) in [("曲", vec!["a"], vec!["b"]), ("", vec![], vec![]), ("x-y", vec!["c", "d"], vec![])] {
        let r = reference(title, &strings(&known), &strings(&other));
        assert!(r.starts_with(&format!("{title}-")));
        let suffix = &r[title.len() + 1..];
        assert_eq!(suffix.chars().count(), 11);
        assert!(suffix.chars().all(|c| c.is_ascii_alphanumeric() || c == '-' || c == '_'));
        let joined: Vec<&str> = known.iter().chain(other.iter()).copied().collect();
        assert_eq!(r, reference(title, &strings(&joined), &[]));
        assert_eq!(r, reference(title, &[], &strings(&joined)));
    }
}
