use std::cmp::Ordering;

use indexmap::IndexMap;
use vocadou_site::authors::author_list;
use vocadou_site::date::Date;
use vocadou_site::listing::{compare_dates, newest_first, reversed};
use vocadou_site::meta::{AlbumMeta, Illustration, MemberMeta, NewsMeta, Track, WorkMeta};
use vocadou_site::ranking::member_ordering;
use vocadou_site::sitemap::{
    build_site_map, collect_members, site_map_problems, AuthorProblem,
    Credit, SiteMap,
};

fn person(name: &str, ascii: &str, position: Option<&str>) -> MemberMeta {
    MemberMeta {
        name: name.to_string(),
        ascii_name: ascii.to_string(),
        department: None,
        position: position.map(|p| p.to_string()),
        entry_year: Some(2024),
        short: format!("{name} です"),
        links: vec![],
    }
}

fn day(year: i32, month: u8, d: u8) -> Date {
    Date { year, month, day: d }
}

fn work(title: &str, authors: &[&str], date: Date) -> WorkMeta {
    WorkMeta {
        title: title.to_string(),
        authors: authors.iter().map(|a| a.to_string()).collect(),
        additional_authors: vec![],
        date,
        short: None,
        thumbnail: None,
        source: None,
        sns_links: vec![],
    }
}

fn illustration(image: &str, illustrators: &[&str]) -> Illustration {
    Illustration {
        image: image.to_string(),
        illustrators: illustrators.iter().map(|a| a.to_string()).collect(),
        additional_illustrators: vec![],
        description: None,
    }
}

fn track(authors: &[&str], external: bool) -> Track {
    Track {
        authors: authors.iter().map(|a| a.to_string()).collect(),
        additional_authors: vec![],
        duration_secs: 200,
        duration_nanos: 0,
        external,
    }
}

fn album(title: &str, authors: &[&str], date: Date, tracks: Vec<(&str, Track)>, ills: Vec<(&str, Illustration)>) -> AlbumMeta {
    let mut track_map = IndexMap::new();
    for (t, tr) in tracks {
        track_map.insert(t.to_string(), tr);
    }
    let mut ill_map = IndexMap::new();
    for (t, il) in ills {
        ill_map.insert(t.to_string(), il);
    }
    AlbumMeta {
        title: title.to_string(),
        authors: authors.iter().map(|a| a.to_string()).collect(),
        additional_authors: vec![],
        date,
        link: None,
        demonstration: None,
        sns_links: vec![],
        short: None,
        thumbnail: illustration("cover.png", &[]),
        illustrations: ill_map,
        tracks: track_map,
    }
}

fn post(title: &str, author: Option<&str>, date: Date) -> NewsMeta {
    NewsMeta {
        title: title.to_string(),
        author: author.map(|a| a.to_string()),
        thumbnail: None,
        date,
        short: None,
        sns_links: vec![],
    }
}

fn club() -> Vec<MemberMeta> {
    vec![
        person("Carol", "carol", None),
        person("Alice", "alice", Some("会計")),
        person("Bob", "bob", Some("代表")),
        person("Dave", "dave", Some("広報")),
        person("Eve", "eve", Some("副代表")),
        person("Aaron", "aaron", None),
    ]
}

fn titles(ws: &[WorkMeta]) -> Vec<String> {
    ws.iter().map(|w| w.title.clone()).collect()
}

#[test]
fn members_are_keyed_by_ascii_name_and_later_ones_replace() {
    let mut ms = club();
    ms.push(person("Carol II", "carol", None));
    let table = collect_members(ms);
    let keys: Vec<&String> = table.keys().collect();
    assert_eq!(keys, vec!["carol", "alice", "bob", "dave", "eve", "aaron"]);
    assert_eq!(table["carol"].name, "Carol II");
}

#[test]
fn member_ordering_puts_offices_first() {
    let bob = person("Bob", "bob", Some("代表"));
    let eve = person("Eve", "eve", Some("副代表"));
    let dave = person("Dave", "dave", Some("広報"));
    let alice = person("Alice", "alice", Some("会計"));
    let carol = person("Carol", "carol", None);
    let aaron = person("Aaron", "aaron", None);
    assert_eq!(member_ordering(&bob, &eve), Ordering::Less);
    assert_eq!(member_ordering(&eve, &bob), Ordering::Greater);
    assert_eq!(member_ordering(&eve, &dave), Ordering::Less);
    assert_eq!(member_ordering(&dave, &alice), Ordering::Less);
    assert_eq!(member_ordering(&alice, &aaron), Ordering::Less);
    assert_eq!(member_ordering(&aaron, &carol), Ordering::Less);
    assert_eq!(member_ordering(&carol, &carol), Ordering::Equal);
}

#[test]
fn two_holders_of_one_office_are_ordered_by_name() {
    let a = person("A", "a", Some("副代表"));
    let b = person("B", "b", Some("副代表"));
    assert_eq!(member_ordering(&a, &b), Ordering::Less);
    assert_eq!(member_ordering(&b, &a), Ordering::Greater);
    assert_eq!(member_ordering(&a, &a), Ordering::Equal);
    let map = build_site_map(collect_members(vec![b, a]), vec![], vec![], vec![]).unwrap();
    let keys: Vec<&String> = map.members.keys().collect();
    assert_eq!(keys, vec!["a", "b"]);
}

#[test]
fn site_map_orders_members_and_lists() {
    let table = collect_members(club());
    let works = vec![
        work("old", &["alice"], day(2023, 1, 1)),
        work("same-1", &["bob"], day(2024, 5, 5)),
        work("new", &["carol"], day(2025, 1, 1)),
        work("same-2", &["dave"], day(2024, 5, 5)),
    ];
    let news = vec![post("n1", None, day(2024, 1, 1)), post("n2", Some("eve"), day(2024, 6, 1))];
    let map = build_site_map(table, works, vec![], news).unwrap();
    let order: Vec<&String> = map.members.keys().collect();
    assert_eq!(order, vec!["bob", "eve", "dave", "alice", "aaron", "carol"]);
    assert_eq!(titles(&map.works), vec!["new", "same-2", "same-1", "old"]);
    let posts: Vec<&String> = map.news.iter().map(|p| &p.title).collect();
    assert_eq!(posts, vec!["n2", "n1"]);
}

#[test]
fn unknown_authors_are_reported_where_credited() {
    let table = collect_members(club());
    let works = vec![
        work("w1", &["alice", "zed"], day(2024, 1, 1)),
        work("w2", &["yan"], day(2024, 2, 1)),
    ];
    let news = vec![post("p", Some("xavier"), day(2024, 3, 1)), post("q", None, day(2024, 3, 2))];
    let err = build_site_map(table, works, vec![], news).unwrap_err();
    assert_eq!(
        err.problems,
        vec![
            AuthorProblem { credit: Credit::Work { work: "w2".to_string() }, author: "yan".to_string() },
            AuthorProblem { credit: Credit::Work { work: "w1".to_string() }, author: "zed".to_string() },
            AuthorProblem { credit: Credit::News { post: "p".to_string() }, author: "xavier".to_string() },
        ]
    );
}

#[test]
fn illustrators_are_checked_once_per_own_track() {
    let only_external = album(
        "ext",
        &["alice"],
        day(2024, 1, 1),
        vec![("cover song", track(&["stranger"], true))],
        vec![("art", illustration("art.png", &["painter"]))],
    );
    let ok = build_site_map(collect_members(club()), vec![], vec![only_external], vec![]);
    assert!(ok.is_ok());

    let two_own = album(
        "own",
        &["alice"],
        day(2024, 1, 1),
        vec![("one", track(&["bob"], false)), ("two", track(&["ghost"], false))],
        vec![("art", illustration("art.png", &["painter"]))],
    );
    let err = build_site_map(collect_members(club()), vec![], vec![two_own], vec![]).unwrap_err();
    let ill = AuthorProblem {
        credit: Credit::Illustration { album: "own".to_string(), image: "art.png".to_string() },
        author: "painter".to_string(),
    };
    assert_eq!(
        err.problems,
        vec![
            ill.clone_problem(),
            AuthorProblem {
                credit: Credit::Track { album: "own".to_string(), track: "two".to_string() },
                author: "ghost".to_string(),
            },
            ill,
        ]
    );
}

trait CloneProblem {
    fn clone_problem(&self) -> Self;
}

impl CloneProblem for AuthorProblem {
    fn clone_problem(&self) -> Self {
        let credit = match &self.credit {
            Credit::Work { work } => Credit::Work { work: work.clone() },
            Credit::Album { album } => Credit::Album { album: album.clone() },
            Credit::Track { album, track } => Credit::Track { album: album.clone(), track: track.clone() },
            Credit::Illustration { album, image } => {
                Credit::Illustration { album: album.clone(), image: image.clone() }
            }
            Credit::News { post } => Credit::News { post: post.clone() },
        };
        AuthorProblem { credit, author: self.author.clone() }
    }
}

#[test]
fn album_authors_are_checked() {
    let a = album("solo", &["nobody"], day(2024, 1, 1), vec![], vec![]);
    let err = build_site_map(collect_members(club()), vec![], vec![a], vec![]).unwrap_err();
    assert_eq!(
        err.problems,
        vec![AuthorProblem { credit: Credit::Album { album: "solo".to_string() }, author: "nobody".to_string() }]
    );
}

#[test]
fn problems_of_a_consistent_site_are_empty() {
    let table = collect_members(club());
    let works = vec![work("w", &["alice", "bob"], day(2024, 1, 1))];
    let albums = vec![album(
        "a",
        &["carol"],
        day(2024, 1, 1),
        vec![("t", track(&["dave"], false))],
        vec![("i", illustration("i.png", &["eve"]))],
    )];
    let news = vec![post("p", Some("aaron"), day(2024, 1, 1))];
    assert!(site_map_problems(&table, &works, &albums, &news).is_empty());
}

fn sample_map() -> SiteMap {
    let works = vec![
        work("a", &["alice"], day(2024, 1, 1)),
        work("b", &["bob"], day(2024, 1, 2)),
        work("a", &["alice", "bob"], day(2024, 1, 3)),
    ];
    let news = vec![post("p", Some("alice"), day(2024, 1, 1))];
    build_site_map(collect_members(club()), works, vec![], news).unwrap()
}

#[test]
fn find_work_by_title_returns_the_last_match() {
    let map = sample_map();
    let found = map.find_work_by_title("a").unwrap();
    assert_eq!(found.date, day(2024, 1, 1));
    assert!(map.find_work_by_title("zzz").is_none());
}

#[test]
fn recent_entries_of_a_member() {
    let mut works = vec![];
    for i in 1..=7u8 {
        works.push(work(&format!("w{i}"), &["alice"], day(2024, 1, i)));
    }
    works.push(work("other", &["bob"], day(2024, 2, 1)));
    let map = build_site_map(collect_members(club()), works, vec![], vec![]).unwrap();
    let recent: Vec<&String> = map.recent_works("alice").iter().map(|w| &w.title).collect();
    assert_eq!(recent, vec!["w7", "w6", "w5", "w4", "w3"]);
    assert_eq!(map.recent_works("bob").len(), 1);
    assert!(map.recent_works("carol").is_empty());
    assert!(map.recent_albums("alice").is_empty());
    let sample = sample_map();
    assert_eq!(sample.recent_news("alice").len(), 1);
    assert!(sample.recent_news("bob").is_empty());
}

#[test]
fn author_list_links_members_and_marks_others() {
    let map = sample_map();
    let known = vec!["alice".to_string(), "bob".to_string()];
    let unknown = vec!["Guest <3".to_string()];
    assert_eq!(
        author_list(&map, &known, &unknown),
        "<a class=\"member-role member-bio\" href=\"/members/Alice.html\">alice</a>, \
         <a class=\"member-role member-bio\" href=\"/members/Bob.html\">bob</a>, \
         <a class=\"invalid-link\" href=\".\">Guest &lt;3</a>"
    );
    assert_eq!(author_list(&map, &[], &[]), "");
    assert_eq!(
        author_list(&map, &[], &unknown),
        "<a class=\"invalid-link\" href=\".\">Guest &lt;3</a>"
    );
}

#[test]
fn newest_first_reverses_ties() {
    let ws = vec![
        work("x", &[], day(2024, 1, 1)),
        work("y", &[], day(2024, 1, 1)),
        work("z", &[], day(2023, 1, 1)),
        work("w", &[], day(2025, 1, 1)),
    ];
    assert_eq!(titles(&newest_first(ws)), vec!["w", "y", "x", "z"]);
    assert_eq!(reversed(vec![1, 2, 3]), vec![3, 2, 1]);
    assert_eq!(compare_dates(&day(2024, 1, 1), &day(2024, 1, 2)), Ordering::Less);
    assert_eq!(compare_dates(&day(2024, 2, 1), &day(2024, 1, 2)), Ordering::Greater);
    assert_eq!(compare_dates(&day(2024, 2, 1), &day(2024, 2, 1)), Ordering::Equal);
}

#[test]
fn tracks_compare_by_authors_then_flag() {
    let a = track(&["alice"], false);
    let b = track(&["bob"], false);
    let a_ext = track(&["alice"], true);
    assert!(a < b);
    assert!(a < a_ext);
    assert_eq!(a.partial_cmp(&track(&["alice"], false)), Some(Ordering::Equal));
    assert!(a == track(&["alice"], false));
    let mut longer = track(&["alice"], false);
    longer.duration_secs = 300;
    assert!(a != longer);
    assert_eq!(a.partial_cmp(&longer), Some(Ordering::Equal));
    assert!(track(&["alice"], false) < track(&["alice", "bob"], false));
}
