//! The page post-processor: lol_html walks a finished page, and for each
//! asset reference and link the library decides which asset a path names,
//! where the build-specific prefix goes, and how plain-http links are
//! upgraded.

use std::borrow::Cow;

use hauchiwa::loader::{Image, Script, Stylesheet};
use hauchiwa::Tracker;
use vstd::prelude::*;
use vstd::string::*;

use crate::encoding::{base64_url_nopad, decimal_bytes, decimal_digits, encode_base64_url};
use crate::text::{chars_from, concat2, concat3, ends_with, owned, starts_with, str_eq};
use lol_html::html_content::Element;
use lol_html::{rewrite_str, ElementContentHandlers, HandlerResult, RewriteStrSettings, Selector};

verus! {

/// hauchiwa's view of the assets of one kind loaded for the build.
#[verifier::external_type_specification]
#[verifier::external_body]
#[verifier::reject_recursive_types(T)]
pub struct ExTracker<'a, T>(Tracker<'a, T>);

/// An image processed by hauchiwa.
#[verifier::external_type_specification]
#[verifier::external_body]
pub struct ExImage(Image);

/// A script bundled by hauchiwa.
#[verifier::external_type_specification]
#[verifier::external_body]
pub struct ExScript(Script);

/// A stylesheet compiled by hauchiwa.
#[verifier::external_type_specification]
#[verifier::external_body]
pub struct ExStylesheet(Stylesheet);

/// The asset trackers a page's post-processing reads.
pub struct TrackerSet<'a> {
    pub images: Tracker<'a, Image>,
    pub scripts: Tracker<'a, Script>,
    pub styles: Tracker<'a, Stylesheet>,
}

/// An asset that a page refers to but that the build did not produce.
#[derive(Debug, Clone, PartialEq, Eq)]
pub enum AssetError {
    /// No asset was registered under this source path.
    NotFound(String),
}

/// The source path an asset error names.
pub open spec fn missing_key(e: AssetError) -> Seq<char> {
    match e {
        AssetError::NotFound(k) => k@,
    }
}

/// The message of a missing asset, as hauchiwa words it.
pub open spec fn asset_message(key: Seq<char>) -> Seq<char> {
    "Asset '"@ + key + "' not found"@
}

impl AssetError {
    /// The error's message: `Asset '<key>' not found`.
    pub fn message(&self) -> (r: String)
        ensures
            r@ == asset_message(missing_key(*self)),
    {
        match self {
            AssetError::NotFound(k) => concat3("Asset '", k.as_str(), "' not found"),
        }
    }
}

/// The build tag placed in front of site-absolute links: the URL-safe
/// base64 of the decimal digits of the build number.
pub open spec fn build_tag(build: u64) -> Seq<char> {
    base64_url_nopad(decimal_digits(build as nat))
}

/// Renders a build number as the tag used in asset paths.
pub fn build_id_to_str(build_id: u64) -> (r: String)
    ensures
        r@ == build_tag(build_id),
{
    let digits = decimal_bytes(build_id);
    encode_base64_url(digits.as_slice())
}

/// Where `destination` points once the build tag is added.
pub open spec fn fixup_abs_link_spec(build_id: Option<u64>, destination: Seq<char>) -> Seq<char> {
    match build_id {
        Some(build) => if "/"@.is_prefix_of(destination) {
            "/"@ + build_tag(build) + destination
        } else {
            "/"@ + build_tag(build) + "/"@ + destination
        },
        None => destination,
    }
}

/// The characters a copy-on-write string holds.
pub fn cow_as_str<'b>(c: &'b Cow<'b, str>) -> (r: &'b str)
    ensures
        r@ == c@,
{
    match c {
        Cow::Borrowed(b) => *b,
        Cow::Owned(o) => o.as_str(),
    }
}

/// Places the build tag in front of a link when the build has a number.
pub fn fixup_abs_link<'a>(build_id: Option<u64>, destination: Cow<'a, str>) -> (r: Cow<'a, str>)
    ensures
        r@ == fixup_abs_link_spec(build_id, destination@),
{
    match build_id {
        Some(build) => {
            let tag = build_id_to_str(build);
            let d = cow_as_str(&destination);
            let mut out = concat2("/", tag.as_str());
            if starts_with(d, "/") {
                out.append(d);
            } else {
                out.append("/");
                out.append(d);
            }
            Cow::Owned(out)
        },
        None => destination,
    }
}

/// The asset key a path names inside the directory `prefix`.
pub open spec fn prefixed_spec(prefix: Seq<char>, destination: Seq<char>) -> Seq<char> {
    if prefix.is_prefix_of(destination) {
        destination
    } else if ("/"@ + prefix).is_prefix_of(destination) {
        destination.skip(1)
    } else {
        prefix + "/"@ + destination
    }
}

/// Turns a path into the key under which hauchiwa registered the asset.
pub fn prefixing_it_up<'a>(prefix: &str, destination: Cow<'a, str>) -> (r: Cow<'a, str>)
    ensures
        r@ == prefixed_spec(prefix@, destination@),
{
    let d = cow_as_str(&destination);
    if starts_with(d, prefix) {
        return destination;
    }
    let slashed = concat2("/", prefix);
    if starts_with(d, slashed.as_str()) {
        proof {
            reveal_strlit("/");
            assert(d@.len() >= 1);
        }
        let rest = chars_from(d, 1);
        return Cow::Owned(rest);
    }
    Cow::Owned(concat3(prefix, "/", d))
}

/// An `http` link turned into its `https` form.
pub open spec fn http_upgrade_spec(destination: Seq<char>) -> Seq<char> {
    if "http"@.is_prefix_of(destination) {
        "https"@ + destination.skip(4)
    } else {
        destination
    }
}

/// Upgrades a link that starts with `http` to `https`.
pub fn rewrite_external_http_links<'a>(destination: Cow<'a, str>) -> (r: Cow<'a, str>)
    ensures
        r@ == http_upgrade_spec(destination@),
{
    let d = cow_as_str(&destination);
    if starts_with(d, "http") {
        proof {
            reveal_strlit("http");
        }
        let rest = chars_from(d, 4);
        return Cow::Owned(concat2("https", rest.as_str()));
    }
    destination
}

/// The result of resolving an asset key against what the build produced:
/// the produced path when there is one, otherwise the key is reported.
pub fn resolve_asset<'a>(key: &str, found: Option<String>) -> (r: Result<Cow<'a, str>, AssetError>)
    ensures
        match found {
            Some(p) => r matches Ok(c) && c@ == p@,
            None => r matches Err(e) && missing_key(e) == key@,
        },
{
    match found {
        Some(p) => Ok(Cow::Owned(p)),
        None => Err(AssetError::NotFound(owned(key))),
    }
}

/// Whether a path names an image the build processes.
pub open spec fn is_image_path(d: Seq<char>) -> bool {
    ||| ".jpg"@.is_suffix_of(d)
    ||| ".jpeg"@.is_suffix_of(d)
    ||| ".png"@.is_suffix_of(d)
    ||| ".webp"@.is_suffix_of(d)
}

/// The images a tracker holds: each source path with the web path of its
/// processed image (`Image::default`).
pub uninterp spec fn image_paths(t: Tracker<Image>) -> Map<Seq<char>, Seq<char>>;

/// The stylesheets a tracker holds: each source path with the path of the
/// compiled stylesheet (`Stylesheet::path`).
pub uninterp spec fn stylesheet_paths(t: Tracker<Stylesheet>) -> Map<Seq<char>, Seq<char>>;

/// The scripts a tracker holds: each source path with the path of the
/// bundled script (`Script::path`).
pub uninterp spec fn script_paths(t: Tracker<Script>) -> Map<Seq<char>, Seq<char>>;

/// What a lookup of `key` in `paths` finds.
pub open spec fn lookup_path(paths: Map<Seq<char>, Seq<char>>, key: Seq<char>) -> Option<Seq<char>> {
    if paths.contains_key(key) {
        Some(paths[key])
    } else {
        None
    }
}

/// The characters an optional string holds.
pub open spec fn opt_view(o: Option<String>) -> Option<Seq<char>> {
    match o {
        Some(s) => Some(s@),
        None => None,
    }
}

/// Looks an image up with hauchiwa's `Tracker::get`, which returns the item
/// stored under the source path or reports it missing, and gives the
/// image's default web path (`Image::default`).
#[verifier::external_body]
fn find_image(images: &Tracker<Image>, key: &str) -> (r: Option<String>)
    ensures
        opt_view(r) == lookup_path(image_paths(*images), key@),
{
    match images.get(key) {
        Ok(image) => Some(image.default.to_string()),
        Err(_) => None,
    }
}

/// Looks a stylesheet up with hauchiwa's `Tracker::get` and gives its
/// compiled path (`Stylesheet::path`).
#[verifier::external_body]
fn find_stylesheet(styles: &Tracker<Stylesheet>, key: &str) -> (r: Option<String>)
    ensures
        opt_view(r) == lookup_path(stylesheet_paths(*styles), key@),
{
    match styles.get(key) {
        Ok(sheet) => Some(sheet.path.to_string()),
        Err(_) => None,
    }
}

/// Looks a script up with hauchiwa's `Tracker::get` and gives its bundled
/// path (`Script::path`).
#[verifier::external_body]
fn find_script(scripts: &Tracker<Script>, key: &str) -> (r: Option<String>)
    ensures
        opt_view(r) == lookup_path(script_paths(*scripts), key@),
{
    match scripts.get(key) {
        Ok(script) => Some(script.path.to_string()),
        Err(_) => None,
    }
}

/// Where an asset reference points once resolved: references that do not
/// name an asset of the kind (no matching extension) are kept; the others are
/// looked up under `prefix` and give the produced path, or the key that is
/// missing.
pub open spec fn asset_result(
    paths: Map<Seq<char>, Seq<char>>,
    prefix: Seq<char>,
    names_asset: bool,
    destination: Seq<char>,
) -> Result<Seq<char>, Seq<char>> {
    if !names_asset {
        Ok(destination)
    } else {
        let key = prefixed_spec(prefix, destination);
        match lookup_path(paths, key) {
            Some(p) => Ok(p),
            None => Err(key),
        }
    }
}

/// The characters a resolution carries: the path, or the missing key.
pub open spec fn resolved_view(r: Result<Cow<'_, str>, AssetError>) -> Result<Seq<char>, Seq<char>> {
    match r {
        Ok(c) => Ok(c@),
        Err(e) => Err(missing_key(e)),
    }
}

/// Replaces an image path with the path of the processed image. Paths that
/// are not images are kept; a missing image is reported under its key.
pub fn fixup_image<'a>(images: &Tracker<Image>, destination: Cow<'a, str>) -> (r: Result<
    Cow<'a, str>,
    AssetError,
>)
    ensures
        resolved_view(r) == asset_result(
            image_paths(*images),
            "images"@,
            is_image_path(destination@),
            destination@,
        ),
{
    let d = cow_as_str(&destination);
    if !(ends_with(d, ".jpg") || ends_with(d, ".jpeg") || ends_with(d, ".png") || ends_with(
        d,
        ".webp",
    )) {
        return Ok(destination);
    }
    let key = prefixing_it_up("images", destination);
    let k = cow_as_str(&key);
    let found = find_image(images, k);
    resolve_asset(k, found)
}

/// Replaces a stylesheet path with the path of the compiled stylesheet.
/// Paths not ending in `.css` are kept; a missing one is reported.
pub fn fixup_styles<'a>(styles: &Tracker<Stylesheet>, destination: Cow<'a, str>) -> (r: Result<
    Cow<'a, str>,
    AssetError,
>)
    ensures
        resolved_view(r) == asset_result(
            stylesheet_paths(*styles),
            "styles"@,
            ".css"@.is_suffix_of(destination@),
            destination@,
        ),
{
    let d = cow_as_str(&destination);
    if !ends_with(d, ".css") {
        return Ok(destination);
    }
    let key = prefixing_it_up("styles", destination);
    let k = cow_as_str(&key);
    let found = find_stylesheet(styles, k);
    resolve_asset(k, found)
}

/// Replaces a script path with the path of the bundled script. Paths not
/// ending in `.js` are kept; a missing one is reported.
pub fn fixup_scripts<'a>(scripts: &Tracker<Script>, destination: Cow<'a, str>) -> (r: Result<
    Cow<'a, str>,
    AssetError,
>)
    ensures
        resolved_view(r) == asset_result(
            script_paths(*scripts),
            "scripts"@,
            ".js"@.is_suffix_of(destination@),
            destination@,
        ),
{
    let d = cow_as_str(&destination);
    if !ends_with(d, ".js") {
        return Ok(destination);
    }
    let key = prefixing_it_up("scripts", destination);
    let k = cow_as_str(&key);
    let found = find_script(scripts, k);
    resolve_asset(k, found)
}


/// Whether a reference leaves the site (plain or secure http).
pub open spec fn is_external(s: Seq<char>) -> bool {
    "http://"@.is_prefix_of(s) || "https://"@.is_prefix_of(s)
}

fn is_external_link(s: &str) -> (r: bool)
    ensures
        r == is_external(s@),
{
    starts_with(s, "http://") || starts_with(s, "https://")
}

fn tag_resolved<'a>(build_id: Option<u64>, resolved: Cow<'a, str>) -> (r: String)
    ensures
        r@ == fixup_abs_link_spec(build_id, resolved@),
{
    let tagged = fixup_abs_link(build_id, resolved);
    owned(cow_as_str(&tagged))
}

/// An attribute after fixing: `None` when it is kept, the new value, or the
/// key of the missing asset.
pub open spec fn attr_view(r: Result<Option<String>, AssetError>) -> Result<Option<Seq<char>>, Seq<char>> {
    match r {
        Ok(Some(v)) => Ok(Some(v@)),
        Ok(None) => Ok(None),
        Err(e) => Err(missing_key(e)),
    }
}

/// A resolved asset path tagged with the build, or the missing key.
pub open spec fn tagged(build_id: Option<u64>, r: Result<Seq<char>, Seq<char>>) -> Result<
    Option<Seq<char>>,
    Seq<char>,
> {
    match r {
        Ok(p) => Ok(Some(fixup_abs_link_spec(build_id, p))),
        Err(k) => Err(k),
    }
}

/// The new `src` of an `<img>`: `None` keeps an off-site source; a site
/// image is replaced by its processed path and tagged with the build.
pub fn fixup_img_src(build_id: Option<u64>, images: &Tracker<Image>, src: &str) -> (r: Result<
    Option<String>,
    AssetError,
>)
    ensures
        attr_view(r) == if is_external(src@) {
            Ok(None)
        } else {
            tagged(
                build_id,
                asset_result(image_paths(*images), "images"@, is_image_path(src@), src@),
            )
        },
{
    if is_external_link(src) {
        return Ok(None);
    }
    match fixup_image(images, Cow::Borrowed(src)) {
        Ok(resolved) => {
            let v = tag_resolved(build_id, resolved);
            Ok(Some(v))
        },
        Err(e) => Err(e),
    }
}

/// The new `src` of a `<script>`: `None` keeps an off-site source; a site
/// script is replaced by its bundled path and tagged with the build.
pub fn fixup_script_src(build_id: Option<u64>, scripts: &Tracker<Script>, src: &str) -> (r: Result<
    Option<String>,
    AssetError,
>)
    ensures
        attr_view(r) == if is_external(src@) {
            Ok(None)
        } else {
            tagged(
                build_id,
                asset_result(script_paths(*scripts), "scripts"@, ".js"@.is_suffix_of(src@), src@),
            )
        },
{
    if is_external_link(src) {
        return Ok(None);
    }
    match fixup_scripts(scripts, Cow::Borrowed(src)) {
        Ok(resolved) => {
            let v = tag_resolved(build_id, resolved);
            Ok(Some(v))
        },
        Err(e) => Err(e),
    }
}

/// The new `href` of a `<link>`: off-site links, links without `rel` and
/// links that are neither stylesheets nor scripts are kept (`None`);
/// stylesheets and scripts are resolved and tagged with the build.
pub fn fixup_link_href(
    build_id: Option<u64>,
    trackers: &TrackerSet,
    href: &str,
    rel: Option<&str>,
) -> (r: Result<Option<String>, AssetError>)
    ensures
        attr_view(r) == if is_external(href@) {
            Ok(None)
        } else {
            match rel {
                None => Ok(None),
                Some(k) => if k@ == "stylesheet"@ {
                    tagged(
                        build_id,
                        asset_result(
                            stylesheet_paths(trackers.styles),
                            "styles"@,
                            ".css"@.is_suffix_of(href@),
                            href@,
                        ),
                    )
                } else if k@ == "script"@ {
                    tagged(
                        build_id,
                        asset_result(
                            script_paths(trackers.scripts),
                            "scripts"@,
                            ".js"@.is_suffix_of(href@),
                            href@,
                        ),
                    )
                } else {
                    Ok(None)
                },
            }
        },
{
    if is_external_link(href) {
        return Ok(None);
    }
    let kind = match rel {
        Some(k) => k,
        None => return Ok(None),
    };
    let resolved = if crate::text::str_eq(kind, "stylesheet") {
        match fixup_styles(&trackers.styles, Cow::Borrowed(href)) {
            Ok(c) => c,
            Err(e) => return Err(e),
        }
    } else if crate::text::str_eq(kind, "script") {
        match fixup_scripts(&trackers.scripts, Cow::Borrowed(href)) {
            Ok(c) => c,
            Err(e) => return Err(e),
        }
    } else {
        return Ok(None);
    };
    let v = tag_resolved(build_id, resolved);
    Ok(Some(v))
}

/// The new `content` of an OpenGraph `<meta>`: `og:url` is tagged with the
/// build, `og:image` is resolved to the processed image and tagged, and
/// anything else (or a tag without content) is kept.
pub fn fixup_og_content(
    build_id: Option<u64>,
    images: &Tracker<Image>,
    property: &str,
    content: Option<&str>,
) -> (r: Result<Option<String>, AssetError>)
    ensures
        attr_view(r) == match content {
            None => Ok(None),
            Some(c) => if property@ == "og:url"@ {
                Ok(Some(fixup_abs_link_spec(build_id, c@)))
            } else if property@ == "og:image"@ {
                tagged(
                    build_id,
                    asset_result(image_paths(*images), "images"@, is_image_path(c@), c@),
                )
            } else {
                Ok(None)
            },
        },
{
    let c = match content {
        Some(c) => c,
        None => return Ok(None),
    };
    let resolved = if crate::text::str_eq(property, "og:url") {
        Cow::Borrowed(c)
    } else if crate::text::str_eq(property, "og:image") {
        match fixup_image(images, Cow::Borrowed(c)) {
            Ok(x) => x,
            Err(e) => return Err(e),
        }
    } else {
        return Ok(None);
    };
    let v = tag_resolved(build_id, resolved);
    Ok(Some(v))
}

/// The `href` an anchor ends up with.
pub open spec fn anchor_href_spec(build_id: Option<u64>, href: Seq<char>) -> Seq<char> {
    if "https://"@.is_prefix_of(href) {
        href
    } else if "http://"@.is_prefix_of(href) {
        http_upgrade_spec(href)
    } else {
        fixup_abs_link_spec(build_id, href)
    }
}

/// Prefixing is idempotent: a destination already under the prefix is left
/// alone.
pub proof fn law_prefixing_idempotent(prefix: Seq<char>, destination: Seq<char>)
    ensures
        prefixed_spec(prefix, prefixed_spec(prefix, destination)) == prefixed_spec(prefix, destination),
{
    reveal_strlit("/");
    if prefix.is_prefix_of(destination) {
    } else if ("/"@ + prefix).is_prefix_of(destination) {
        let slashed = "/"@ + prefix;
        let rest = destination.skip(1);
        assert forall|i: int| 0 <= i < prefix.len() implies rest[i] == prefix[i] by {
            assert(destination.subrange(0, slashed.len() as int)[i + 1] == destination[i + 1]);
            assert(slashed[i + 1] == prefix[i]);
        }
        assert(prefix =~= rest.subrange(0, prefix.len() as int));
    } else {
        let joined = prefix + "/"@ + destination;
        assert(prefix =~= joined.subrange(0, prefix.len() as int));
    }
}

/// After fixing, no anchor points at a plain-http address.
pub proof fn law_anchor_never_plain_http(build_id: Option<u64>, href: Seq<char>)
    ensures
        !"http://"@.is_prefix_of(anchor_href_spec(build_id, href)),
{
    reveal_strlit("https://");
    reveal_strlit("http://");
    reveal_strlit("http");
    reveal_strlit("https");
    reveal_strlit("/");
    let r = anchor_href_spec(build_id, href);
    if "http://"@.is_prefix_of(r) {
        assert(r.subrange(0, 7)[4] == ':');
        if "https://"@.is_prefix_of(href) {
            assert(href.subrange(0, 8)[4] == 's');
        } else if "http://"@.is_prefix_of(href) {
            assert(href.subrange(0, 7).subrange(0, 4) =~= href.subrange(0, 4));
            assert("http"@.is_prefix_of(href));
            assert(r == "https"@ + href.skip(4));
            assert(r[4] == 's');
        } else {
            match build_id {
                Some(b) => {
                    assert(r[0] == '/');
                    assert(r.subrange(0, 7)[0] == 'h');
                },
                None => {},
            }
        }
    }
}

/// The new `href` of an anchor: secure links are kept, plain-http links are
/// upgraded, and site links are tagged with the build.
pub fn fixup_anchor_href(build_id: Option<u64>, href: &str) -> (r: String)
    ensures
        r@ == anchor_href_spec(build_id, href@),
{
    let current: Cow<str> = Cow::Owned(owned(href));
    let new_href = if starts_with(href, "https://") {
        current
    } else if starts_with(href, "http://") {
        rewrite_external_http_links(current)
    } else {
        fixup_abs_link(build_id, current)
    };
    owned(cow_as_str(&new_href))
}

/// The attributes of an element that the page post-processor reads.
pub struct ElementAttrs {
    pub src: Option<String>,
    pub href: Option<String>,
    pub rel: Option<String>,
    pub property: Option<String>,
    pub content: Option<String>,
}

/// The new `src` of an `<img>` (see `fixup_img_src`).
pub open spec fn img_src_result(build_id: Option<u64>, images: Map<Seq<char>, Seq<char>>, src: Seq<char>) -> Result<
    Option<Seq<char>>,
    Seq<char>,
> {
    if is_external(src) {
        Ok(None)
    } else {
        tagged(build_id, asset_result(images, "images"@, is_image_path(src), src))
    }
}

/// The new `src` of a `<script>` (see `fixup_script_src`).
pub open spec fn script_src_result(build_id: Option<u64>, scripts: Map<Seq<char>, Seq<char>>, src: Seq<char>) -> Result<
    Option<Seq<char>>,
    Seq<char>,
> {
    if is_external(src) {
        Ok(None)
    } else {
        tagged(build_id, asset_result(scripts, "scripts"@, ".js"@.is_suffix_of(src), src))
    }
}

/// The new `href` of a `<link>` (see `fixup_link_href`).
pub open spec fn link_href_result(
    build_id: Option<u64>,
    styles: Map<Seq<char>, Seq<char>>,
    scripts: Map<Seq<char>, Seq<char>>,
    href: Seq<char>,
    rel: Option<Seq<char>>,
) -> Result<Option<Seq<char>>, Seq<char>> {
    if is_external(href) {
        Ok(None)
    } else {
        match rel {
            None => Ok(None),
            Some(k) => if k == "stylesheet"@ {
                tagged(build_id, asset_result(styles, "styles"@, ".css"@.is_suffix_of(href), href))
            } else if k == "script"@ {
                tagged(build_id, asset_result(scripts, "scripts"@, ".js"@.is_suffix_of(href), href))
            } else {
                Ok(None)
            },
        }
    }
}

/// The new `content` of an OpenGraph `<meta>` (see `fixup_og_content`).
pub open spec fn og_content_result(
    build_id: Option<u64>,
    images: Map<Seq<char>, Seq<char>>,
    property: Seq<char>,
    content: Option<Seq<char>>,
) -> Result<Option<Seq<char>>, Seq<char>> {
    match content {
        None => Ok(None),
        Some(c) => if property == "og:url"@ {
            Ok(Some(fixup_abs_link_spec(build_id, c)))
        } else if property == "og:image"@ {
            tagged(build_id, asset_result(images, "images"@, is_image_path(c), c))
        } else {
            Ok(None)
        },
    }
}

/// An attribute change: none, the attribute and its new value, or the
/// message of the missing asset.
pub open spec fn set_attr(attr: Seq<char>, r: Result<Option<Seq<char>>, Seq<char>>) -> Result<
    Option<(Seq<char>, Seq<char>)>,
    Seq<char>,
> {
    match r {
        Ok(Some(v)) => Ok(Some((attr, v))),
        Ok(None) => Ok(None),
        Err(k) => Err(asset_message(k)),
    }
}

/// What the post-processor does to an element with tag `tag`: images and
/// scripts get their `src`, links and anchors their `href`, OpenGraph tags
/// their `content`; other elements are kept.
pub open spec fn element_update_spec(
    build_id: Option<u64>,
    images: Map<Seq<char>, Seq<char>>,
    styles: Map<Seq<char>, Seq<char>>,
    scripts: Map<Seq<char>, Seq<char>>,
    tag: Seq<char>,
    a: ElementAttrs,
) -> Result<Option<(Seq<char>, Seq<char>)>, Seq<char>> {
    if tag == "img"@ {
        match a.src {
            Some(s) => set_attr("src"@, img_src_result(build_id, images, s@)),
            None => Ok(None),
        }
    } else if tag == "script"@ {
        match a.src {
            Some(s) => set_attr("src"@, script_src_result(build_id, scripts, s@)),
            None => Ok(None),
        }
    } else if tag == "link"@ {
        match a.href {
            Some(h) => set_attr("href"@, link_href_result(build_id, styles, scripts, h@, opt_view(a.rel))),
            None => Ok(None),
        }
    } else if tag == "meta"@ {
        match a.property {
            Some(p) => set_attr("content"@, og_content_result(build_id, images, p@, opt_view(a.content))),
            None => Ok(None),
        }
    } else if tag == "a"@ {
        match a.href {
            Some(h) => Ok(Some(("href"@, anchor_href_spec(build_id, h@)))),
            None => Ok(None),
        }
    } else {
        Ok(None)
    }
}

/// The characters an element change carries.
pub open spec fn update_view(r: Result<Option<(&'static str, String)>, String>) -> Result<
    Option<(Seq<char>, Seq<char>)>,
    Seq<char>,
> {
    match r {
        Ok(Some((n, v))) => Ok(Some((n@, v@))),
        Ok(None) => Ok(None),
        Err(m) => Err(m@),
    }
}

fn with_message(attr: &'static str, r: Result<Option<String>, AssetError>) -> (u: Result<
    Option<(&'static str, String)>,
    String,
>)
    ensures
        update_view(u) == set_attr(attr@, attr_view(r)),
{
    match r {
        Ok(Some(v)) => Ok(Some((attr, v))),
        Ok(None) => Ok(None),
        Err(e) => Err(e.message()),
    }
}

/// The change the post-processor makes to one element, given its tag name
/// (lower case) and attributes: which attribute gets which value, or the
/// message of a missing asset.
pub fn element_update(build_id: Option<u64>, trackers: &TrackerSet, tag: &str, a: &ElementAttrs) -> (r:
    Result<Option<(&'static str, String)>, String>)
    ensures
        update_view(r) == element_update_spec(
            build_id,
            image_paths(trackers.images),
            stylesheet_paths(trackers.styles),
            script_paths(trackers.scripts),
            tag@,
            *a,
        ),
{
    proof {
        reveal_strlit("img");
        reveal_strlit("script");
        reveal_strlit("link");
        reveal_strlit("meta");
        reveal_strlit("a");
    }
    if str_eq(tag, "img") {
        match &a.src {
            Some(s) => with_message("src", fixup_img_src(build_id, &trackers.images, s.as_str())),
            None => Ok(None),
        }
    } else if str_eq(tag, "script") {
        match &a.src {
            Some(s) => with_message("src", fixup_script_src(build_id, &trackers.scripts, s.as_str())),
            None => Ok(None),
        }
    } else if str_eq(tag, "link") {
        match &a.href {
            Some(h) => {
                let rel: Option<&str> = match &a.rel {
                    Some(k) => Some(k.as_str()),
                    None => None,
                };
                with_message("href", fixup_link_href(build_id, trackers, h.as_str(), rel))
            },
            None => Ok(None),
        }
    } else if str_eq(tag, "meta") {
        match &a.property {
            Some(p) => {
                let content: Option<&str> = match &a.content {
                    Some(c) => Some(c.as_str()),
                    None => None,
                };
                with_message("content", fixup_og_content(build_id, &trackers.images, p.as_str(), content))
            },
            None => Ok(None),
        }
    } else if str_eq(tag, "a") {
        match &a.href {
            Some(h) => Ok(Some(("href", fixup_anchor_href(build_id, h.as_str())))),
            None => Ok(None),
        }
    } else {
        Ok(None)
    }
}

/// The elements whose references the post-processor rewrites.
pub const PAGE_REFERENCES: &'static str = "img[src], script[src], link[href], meta[property^=\"og:\"], a[href]";

/// The page lol_html writes when it rewrites `html` with `element_update`
/// applied to every element matching `PAGE_REFERENCES`, for the build
/// `build_id` and the assets `images`, `styles` and `scripts`; or the message
/// of the first failure.
pub uninterp spec fn rewritten_page(
    html: Seq<char>,
    build_id: Option<u64>,
    images: Map<Seq<char>, Seq<char>>,
    styles: Map<Seq<char>, Seq<char>>,
    scripts: Map<Seq<char>, Seq<char>>,
) -> Result<Seq<char>, Seq<char>>;

/// The characters a page result carries.
pub open spec fn page_view(r: Result<String, String>) -> Result<Seq<char>, Seq<char>> {
    match r {
        Ok(s) => Ok(s@),
        Err(m) => Err(m@),
    }
}

/// `lol_html::rewrite_str` over `html` with one element handler for
/// `PAGE_REFERENCES`: the handler reads the element's tag name and
/// attributes, asks `element_update` what changes, and sets that attribute.
/// A handler failure or a rewriting error is returned as its message. The
/// contract names the result; HTML parsing and serialisation are not stated.
#[verifier::external_body]
fn rewrite_page(build_id: Option<u64>, trackers: &TrackerSet, html: &str) -> (r: Result<String, String>)
    ensures
        page_view(r) == rewritten_page(
            html@,
            build_id,
            image_paths(trackers.images),
            stylesheet_paths(trackers.styles),
            script_paths(trackers.scripts),
        ),
{
    let handler = ElementContentHandlers::default().element(|el: &mut Element<'_, '_>| -> HandlerResult {
        let a = ElementAttrs { src: el.get_attribute("src"), href: el.get_attribute("href"), rel: el.get_attribute("rel"), property: el.get_attribute("property"), content: el.get_attribute("content") };
        if let Some((name, value)) = element_update(build_id, trackers, &el.tag_name(), &a)? {
            el.set_attribute(name, &value)?;
        }
        Ok(())
    });
    let selector = Cow::Owned(PAGE_REFERENCES.parse::<Selector>().unwrap());
    let settings = RewriteStrSettings::new().append_element_content_handler((selector, handler));
    rewrite_str(html, settings).map_err(|e| e.to_string())
}

/// Rewrites the asset references and links of a finished page: images,
/// scripts and stylesheets point at the processed assets, site links carry
/// the build tag and plain-http links become https (see `element_update`).
/// A missing asset fails the page with its message.
pub fn fixup_html(build_id: Option<u64>, trackers: &TrackerSet, html: &str) -> (r: Result<String, String>)
    ensures
        page_view(r) == rewritten_page(
            html@,
            build_id,
            image_paths(trackers.images),
            stylesheet_paths(trackers.styles),
            script_paths(trackers.scripts),
        ),
{
    rewrite_page(build_id, trackers, html)
}

/// Whether a path ends in one of the image extensions the build processes:
/// `.jpg`, `.jpeg`, `.png` or `.webp`.
pub open spec fn has_image_extension(d: Seq<char>) -> bool {
    ".jpg"@.is_suffix_of(d) || ".jpeg"@.is_suffix_of(d) || ".png"@.is_suffix_of(d) || ".webp"@.is_suffix_of(d)
}

/// The image fixup on a path with an image extension looks the path up under
/// `images/` (key `images/<path>`, or the path itself when it already starts
/// there) and gives the processed image's path, or reports the key missing;
/// any other path is kept as written.
pub proof fn law_image_lookup(paths: Map<Seq<char>, Seq<char>>, d: Seq<char>)
    ensures
        has_image_extension(d) ==> asset_result(paths, "images"@, is_image_path(d), d) == if paths.contains_key(
            prefixed_spec("images"@, d),
        ) {
            Ok::<Seq<char>, Seq<char>>(paths[prefixed_spec("images"@, d)])
        } else {
            Err::<Seq<char>, Seq<char>>(prefixed_spec("images"@, d))
        },
        !has_image_extension(d) ==> asset_result(paths, "images"@, is_image_path(d), d) == Ok::<
            Seq<char>,
            Seq<char>,
        >(d),
{
}

/// An `<img>` whose site path has an image extension ends up with the
/// processed image's path (with the build tag), or the page fails on the
/// missing key; it never keeps the path as written.
pub proof fn law_img_src_uses_processed_image(
    build_id: Option<u64>,
    paths: Map<Seq<char>, Seq<char>>,
    src: Seq<char>,
)
    requires
        has_image_extension(src),
        !is_external(src),
    ensures
        img_src_result(build_id, paths, src) == if paths.contains_key(prefixed_spec("images"@, src)) {
            Ok::<Option<Seq<char>>, Seq<char>>(
                Some(fixup_abs_link_spec(build_id, paths[prefixed_spec("images"@, src)])),
            )
        } else {
            Err::<Option<Seq<char>>, Seq<char>>(prefixed_spec("images"@, src))
        },
{
    law_image_lookup(paths, src);
}

} // verus!
