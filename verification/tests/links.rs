use std::borrow::Cow;

use vocadou_site::fixup::{
    build_id_to_str, fixup_abs_link, fixup_anchor_href, prefixing_it_up, resolve_asset,
    rewrite_external_http_links, AssetError,
};
use vocadou_site::links::{
    image_or_gray, make_path_relative, rewrite_link, rewrite_link_with, shorten, slash_guard,
    LinkError,
};

const SITE: &str = "https://toudaivocadou.org";

#[test]
fn slash_guard_joins_with_one_separator() {
    assert_eq!(slash_guard(".", "/a/b"), "//a/b");
    assert_eq!(slash_guard(".", "a/b"), "a/b");
    assert_eq!(slash_guard(SITE, "/a"), "https://toudaivocadou.org/a");
    assert_eq!(slash_guard(SITE, "a"), "https://toudaivocadou.org/a");
}

#[test]
fn rewrite_link_keeps_parent_fragment_and_secure_links() {
    assert_eq!(rewrite_link(SITE, "../up.html".to_string()), Ok("../up.html".to_string()));
    assert_eq!(rewrite_link(SITE, "#top".to_string()), Ok("#top".to_string()));
    assert_eq!(
        rewrite_link(SITE, "https://example.com/a?b=1".to_string()),
        Ok("https://example.com/a?b=1".to_string())
    );
}

#[test]
fn rewrite_link_upgrades_absolute_urls() {
    assert_eq!(
        rewrite_link(SITE, "http://example.com/a".to_string()),
        Ok("https://example.com/a".to_string())
    );
    assert_eq!(
        rewrite_link(SITE, "http://example.com".to_string()),
        Ok("https://example.com/".to_string())
    );
}

#[test]
fn rewrite_link_refuses_a_scheme_it_cannot_switch() {
    assert_eq!(
        rewrite_link(SITE, "mailto:club@example.com".to_string()),
        Err(LinkError::SchemeChangeRefused)
    );
}

#[test]
fn rewrite_link_places_relative_links_under_the_site() {
    assert_eq!(
        rewrite_link(SITE, "./images/a.png".to_string()),
        Ok("https://toudaivocadou.org/images/a.png".to_string())
    );
    assert_eq!(
        rewrite_link(SITE, ".well-known/x".to_string()),
        Ok("https://toudaivocadou.org/well-known/x".to_string())
    );
    assert_eq!(rewrite_link(".", "./a.html".to_string()), Ok("a.html".to_string()));
    assert_eq!(rewrite_link(SITE, "plain/path".to_string()), Ok("plain/path".to_string()));
}

#[test]
fn rewrite_link_with_uses_the_given_reparse() {
    assert_eq!(
        rewrite_link_with(SITE, "x:y".to_string(), Some(Ok("https://z/".to_string()))),
        Ok("https://z/".to_string())
    );
    assert_eq!(
        rewrite_link_with(SITE, "x:y".to_string(), Some(Err(()))),
        Err(LinkError::SchemeChangeRefused)
    );
    assert_eq!(
        rewrite_link_with(SITE, "#x".to_string(), Some(Err(()))),
        Ok("#x".to_string())
    );
}

#[test]
fn make_path_relative_cases() {
    assert_eq!(make_path_relative("images", "images/a.png"), "images/a.png");
    assert_eq!(make_path_relative("images", "/a.png"), "/a.png");
    assert_eq!(make_path_relative("images", "a.png"), "images/a.png");
}

#[test]
fn shorten_keeps_150_characters() {
    let long: String = std::iter::repeat('あ').take(200).collect();
    let expected: String = std::iter::repeat('あ').take(150).collect();
    assert_eq!(shorten(&long), expected);
    assert_eq!(shorten("short"), "short");
    assert_eq!(shorten(""), "");
}

#[test]
fn image_or_gray_falls_back() {
    let p = "cover.png".to_string();
    assert_eq!(image_or_gray(Some(&p)), "cover.png");
    assert_eq!(image_or_gray(None), "gray.jpg");
}

#[test]
fn build_tag_is_base64_of_the_decimal_number() {
    assert_eq!(build_id_to_str(42), "NDI");
    assert_eq!(build_id_to_str(0), "MA");
    assert_eq!(build_id_to_str(12345), "MTIzNDU");
}

#[test]
fn fixup_abs_link_places_the_build_tag() {
    assert_eq!(fixup_abs_link(Some(42), Cow::Borrowed("/a.css")), "/NDI/a.css");
    assert_eq!(fixup_abs_link(Some(42), Cow::Borrowed("a.css")), "/NDI/a.css");
    assert_eq!(fixup_abs_link(None, Cow::Borrowed("a.css")), "a.css");
}

#[test]
fn prefixing_it_up_cases() {
    assert_eq!(prefixing_it_up("images", Cow::Borrowed("images/a.png")), "images/a.png");
    assert_eq!(prefixing_it_up("images", Cow::Borrowed("/images/a.png")), "images/a.png");
    assert_eq!(prefixing_it_up("images", Cow::Borrowed("a.png")), "images/a.png");
}

#[test]
fn rewrite_external_http_links_upgrades() {
    assert_eq!(
        rewrite_external_http_links(Cow::Borrowed("http://a.b/c")),
        "https://a.b/c"
    );
    assert_eq!(rewrite_external_http_links(Cow::Borrowed("/local")), "/local");
}

#[test]
fn anchor_hrefs() {
    assert_eq!(fixup_anchor_href(Some(42), "https://a.b/"), "https://a.b/");
    assert_eq!(fixup_anchor_href(Some(42), "http://a.b/"), "https://a.b/");
    assert_eq!(fixup_anchor_href(Some(42), "/members.html"), "/NDI/members.html");
    assert_eq!(fixup_anchor_href(None, "/members.html"), "/members.html");
}

#[test]
fn resolve_asset_reports_the_missing_key() {
    assert_eq!(
        resolve_asset("images/a.png", Some("/hashed/a.webp".to_string())),
        Ok(Cow::Borrowed("/hashed/a.webp"))
    );
    assert_eq!(
        resolve_asset("images/a.png", None),
        Err(AssetError::NotFound("images/a.png".to_string()))
    );
}


#[test]
fn prefixing_twice_changes_nothing_more() {
    for d in ["a.png", "/images/a.png", "images/b.png", "/x/y.png"] {
        let once = prefixing_it_up("images", Cow::Borrowed(d)).into_owned();
        let twice = prefixing_it_up("images", Cow::Owned(once.clone())).into_owned();
        assert_eq!(once, twice);
    }
}
