//! Front-matter metadata of members, works, albums and news posts, and the
//! OpenGraph tags each kind of page announces itself with.

use std::collections::HashMap;

use indexmap::IndexMap;
use vstd::prelude::*;

use crate::date::{date_text, format_date, Date};
use crate::html::{escape_html, html_escape};
use crate::sections::{opengraph_type_spec, Sections};
use crate::text::{concat3, owned};

verus! {

/// Names of the members known to a build, by reference.
#[derive(Clone, Debug, PartialEq)]
pub struct BuildData {
    pub name_map: HashMap<String, String>,
}

/// Settings of one build of the site.
#[derive(Clone, Debug)]
pub struct SiteData {
    pub site_url: String,
    pub make_vendoring: bool,
    pub offline_mode: bool,
    pub build_id: Option<u64>,
}

/// An illustration of an album, with who drew it.
#[derive(Clone, Debug, Hash, PartialEq, PartialOrd)]
pub struct Illustration {
    pub image: String,
    pub illustrators: Vec<String>,
    pub additional_illustrators: Vec<String>,
    pub description: Option<String>,
}

/// A track of an album. Its length is kept as whole seconds and the
/// nanoseconds beyond them.
#[derive(Clone, Debug, Hash)]
pub struct Track {
    pub authors: Vec<String>,
    pub additional_authors: Vec<String>,
    pub duration_secs: u64,
    pub duration_nanos: u32,
    pub external: bool,
}

/// The front matter of an album page.
#[derive(Debug, PartialEq)]
pub struct AlbumMeta {
    pub title: String,
    pub authors: Vec<String>,
    pub additional_authors: Vec<String>,
    pub date: Date,
    pub link: Option<String>,
    pub demonstration: Option<String>,
    pub sns_links: Vec<String>,
    pub short: Option<String>,
    pub thumbnail: Illustration,
    pub illustrations: IndexMap<String, Illustration>,
    pub tracks: IndexMap<String, Track>,
}

/// The front matter of a member's profile page.
#[derive(Clone, Debug, Hash, PartialEq, PartialOrd)]
pub struct MemberMeta {
    /// The name the member is active under.
    pub name: String,
    /// The ASCII form of the name; the member's icon and page are found by it.
    pub ascii_name: String,
    pub department: Option<String>,
    pub position: Option<String>,
    pub entry_year: Option<i32>,
    pub short: String,
    pub links: Vec<String>,
}

/// The front matter of a work (a single release).
#[derive(Clone, Debug, Hash, PartialEq, PartialOrd)]
pub struct WorkMeta {
    pub title: String,
    pub authors: Vec<String>,
    pub additional_authors: Vec<String>,
    pub date: Date,
    pub short: Option<String>,
    pub thumbnail: Option<Illustration>,
    pub source: Option<String>,
    pub sns_links: Vec<String>,
}

/// The front matter of a news post.
#[derive(Clone, Debug, Hash, PartialEq, Eq, PartialOrd, Ord)]
pub struct NewsMeta {
    pub title: String,
    pub author: Option<String>,
    pub thumbnail: Option<String>,
    pub date: Date,
    pub short: Option<String>,
    pub sns_links: Vec<String>,
}

/// The metadata of a page that has no front matter of its own.
#[derive(Clone, Debug, Hash)]
pub struct GenericMeta {
    pub path: &'static str,
    pub section: Sections,
    pub title: &'static str,
}

/// The site name announced on every page.
pub const SITE_NAME: &'static str = "東京大学ボカロP同好会 - University of Tokyo Vocaloid Producer Club";

/// One OpenGraph `<meta>` tag.
pub open spec fn og_tag(property: Seq<char>, content: Seq<char>) -> Seq<char> {
    "<meta property=\""@ + html_escape(property) + "\" content=\""@ + html_escape(content) + "\">"@
}

/// The tags every page carries: title, site name, locale and type.
pub open spec fn og_common(title: Seq<char>, og_type: Seq<char>) -> Seq<char> {
    og_tag("og:title"@, title) + og_tag("og:site_name"@, SITE_NAME@) + og_tag(
        "og:locale"@,
        "ja_JP"@,
    ) + og_tag("og:type"@, og_type)
}

/// One tag per value, all under the same property.
pub open spec fn og_tags(property: Seq<char>, values: Seq<Seq<char>>) -> Seq<char>
    decreases values.len(),
{
    if values.len() == 0 {
        Seq::empty()
    } else {
        og_tags(property, values.drop_last()) + og_tag(property, values.last())
    }
}

/// A tag for a value that may be absent.
pub open spec fn og_optional(property: Seq<char>, value: Option<String>) -> Seq<char> {
    match value {
        Some(v) => og_tag(property, v@),
        None => Seq::empty(),
    }
}

/// The characters of each string of a list.
pub open spec fn views(v: Seq<String>) -> Seq<Seq<char>> {
    v.map_values(|s: String| s@)
}

/// Appends one OpenGraph tag.
pub fn push_og_tag(out: &mut String, property: &str, content: &str)
    ensures
        final(out)@ == old(out)@ + og_tag(property@, content@),
{
    out.append("<meta property=\"");
    out.append(escape_html(property).as_str());
    out.append("\" content=\"");
    out.append(escape_html(content).as_str());
    out.append("\">");
}

fn push_og_common(out: &mut String, title: &str, og_type: &str)
    ensures
        final(out)@ == old(out)@ + og_common(title@, og_type@),
{
    push_og_tag(out, "og:title", title);
    push_og_tag(out, "og:site_name", SITE_NAME);
    push_og_tag(out, "og:locale", "ja_JP");
    push_og_tag(out, "og:type", og_type);
}

fn push_og_tags(out: &mut String, property: &str, values: &Vec<String>)
    ensures
        final(out)@ == old(out)@ + og_tags(property@, views(values@)),
{
    let mut i: usize = 0;
    while i < values.len()
        invariant
            i <= values@.len(),
            out@ == old(out)@ + og_tags(property@, views(values@.subrange(0, i as int))),
        decreases values@.len() - i,
    {
        push_og_tag(out, property, values[i].as_str());
        proof {
            let next = views(values@.subrange(0, i + 1));
            assert(next.drop_last() =~= views(values@.subrange(0, i as int)));
            assert(next.last() == values@[i as int]@);
        }
        i = i + 1;
    }
    assert(values@.subrange(0, values@.len() as int) =~= values@);
}

fn push_og_optional(out: &mut String, property: &str, value: &Option<String>)
    ensures
        final(out)@ == old(out)@ + og_optional(property@, *value),
{
    match value {
        Some(v) => push_og_tag(out, property, v.as_str()),
        None => {},
    }
}

fn empty_string() -> (r: String)
    ensures
        r@ == Seq::<char>::empty(),
{
    String::new()
}

/// The page metadata every page template is filled from: the OpenGraph tags
/// announcing the page, its image tag, its section and its title.
pub trait RenderableMetadata {
    /// Whether the metadata can be rendered (its dates are real dates).
    spec fn renderable(&self) -> bool;

    /// The OpenGraph tags of the page.
    spec fn og_html(&self) -> Seq<char>;

    /// The page's image tag, if it has one.
    spec fn image_html(&self) -> Option<Seq<char>>;

    /// The section the page belongs to.
    spec fn section_of(&self) -> Sections;

    /// The page title.
    spec fn title_of(&self) -> Seq<char>;

    /// The OpenGraph tags of the page.
    fn render(&self) -> (r: String)
        requires
            self.renderable(),
        ensures
            r@ == self.og_html(),
    ;

    /// The page's image tag, if it has one.
    fn render_image_meta(&self) -> (r: Option<String>)
        ensures
            match r {
                Some(h) => self.image_html() == Some(h@),
                None => self.image_html() is None,
            },
    ;

    /// The section the page belongs to.
    fn section(&self) -> (r: Sections)
        ensures
            r == self.section_of(),
    ;

    /// The page title.
    fn title(&self) -> (r: &str)
        ensures
            r@ == self.title_of(),
    ;
}

impl RenderableMetadata for GenericMeta {
    open spec fn renderable(&self) -> bool {
        true
    }

    open spec fn og_html(&self) -> Seq<char> {
        og_common(self.title@, opengraph_type_spec(self.section))
    }

    open spec fn image_html(&self) -> Option<Seq<char>> {
        None
    }

    open spec fn section_of(&self) -> Sections {
        self.section
    }

    open spec fn title_of(&self) -> Seq<char> {
        self.title@
    }

    fn render(&self) -> (r: String) {
        let mut out = empty_string();
        push_og_common(&mut out, self.title, self.section.opengraph_type());
        out
    }

    fn render_image_meta(&self) -> (r: Option<String>) {
        None
    }

    fn section(&self) -> (r: Sections) {
        self.section
    }

    fn title(&self) -> (r: &str) {
        self.title
    }
}

impl RenderableMetadata for AlbumMeta {
    open spec fn renderable(&self) -> bool {
        self.date.wf()
    }

    open spec fn og_html(&self) -> Seq<char> {
        og_common(self.title@, "music.album"@) + og_optional("og:description"@, self.short) + og_tags(
            "og:music:musician"@,
            views(self.authors@),
        ) + og_tag("og:music:release_date"@, date_text(self.date))
    }

    open spec fn image_html(&self) -> Option<Seq<char>> {
        Some(og_tag("og:image"@, self.thumbnail.image@))
    }

    open spec fn section_of(&self) -> Sections {
        Sections::AlbumPost
    }

    open spec fn title_of(&self) -> Seq<char> {
        self.title@
    }

    fn render(&self) -> (r: String) {
        let mut out = empty_string();
        push_og_common(&mut out, self.title.as_str(), Sections::AlbumPost.opengraph_type());
        push_og_optional(&mut out, "og:description", &self.short);
        push_og_tags(&mut out, "og:music:musician", &self.authors);
        let released = format_date(self.date);
        push_og_tag(&mut out, "og:music:release_date", released.as_str());
        out
    }

    fn render_image_meta(&self) -> (r: Option<String>) {
        let mut out = empty_string();
        push_og_tag(&mut out, "og:image", self.thumbnail.image.as_str());
        Some(out)
    }

    fn section(&self) -> (r: Sections) {
        Sections::AlbumPost
    }

    fn title(&self) -> (r: &str) {
        self.title.as_str()
    }
}

/// The icon path of a member.
pub open spec fn member_icon(ascii_name: Seq<char>) -> Seq<char> {
    "icon/"@ + ascii_name + ".jpg"@
}

impl RenderableMetadata for MemberMeta {
    open spec fn renderable(&self) -> bool {
        true
    }

    open spec fn og_html(&self) -> Seq<char> {
        og_common(self.name@, "profile"@) + og_tag("og:profile:username"@, self.ascii_name@) + og_tag(
            "og:description"@,
            self.short@,
        )
    }

    open spec fn image_html(&self) -> Option<Seq<char>> {
        Some(og_tag("og:image"@, member_icon(self.ascii_name@)))
    }

    open spec fn section_of(&self) -> Sections {
        Sections::MemberProfile
    }

    open spec fn title_of(&self) -> Seq<char> {
        self.name@
    }

    fn render(&self) -> (r: String) {
        let mut out = empty_string();
        push_og_common(&mut out, self.name.as_str(), Sections::MemberProfile.opengraph_type());
        push_og_tag(&mut out, "og:profile:username", self.ascii_name.as_str());
        push_og_tag(&mut out, "og:description", self.short.as_str());
        out
    }

    fn render_image_meta(&self) -> (r: Option<String>) {
        let icon = concat3("icon/", self.ascii_name.as_str(), ".jpg");
        let mut out = empty_string();
        push_og_tag(&mut out, "og:image", icon.as_str());
        Some(out)
    }

    fn section(&self) -> (r: Sections) {
        Sections::MemberProfile
    }

    fn title(&self) -> (r: &str) {
        self.name.as_str()
    }
}

impl RenderableMetadata for WorkMeta {
    open spec fn renderable(&self) -> bool {
        self.date.wf()
    }

    open spec fn og_html(&self) -> Seq<char> {
        og_common(self.title@, "music.song"@) + og_optional("og:description"@, self.short) + og_tags(
            "og:music:musician"@,
            views(self.authors@),
        ) + og_tag("og:music:release_date"@, date_text(self.date))
    }

    open spec fn image_html(&self) -> Option<Seq<char>> {
        Some(og_tag("og:image"@, "thumbnail.jpg"@))
    }

    open spec fn section_of(&self) -> Sections {
        Sections::WorksPost
    }

    open spec fn title_of(&self) -> Seq<char> {
        self.title@
    }

    fn render(&self) -> (r: String) {
        let mut out = empty_string();
        push_og_common(&mut out, self.title.as_str(), Sections::WorksPost.opengraph_type());
        push_og_optional(&mut out, "og:description", &self.short);
        push_og_tags(&mut out, "og:music:musician", &self.authors);
        let released = format_date(self.date);
        push_og_tag(&mut out, "og:music:release_date", released.as_str());
        out
    }

    fn render_image_meta(&self) -> (r: Option<String>) {
        let mut out = empty_string();
        push_og_tag(&mut out, "og:image", "thumbnail.jpg");
        Some(out)
    }

    fn section(&self) -> (r: Sections) {
        Sections::WorksPost
    }

    fn title(&self) -> (r: &str) {
        self.title.as_str()
    }
}

impl RenderableMetadata for NewsMeta {
    open spec fn renderable(&self) -> bool {
        true
    }

    open spec fn og_html(&self) -> Seq<char> {
        og_common(self.title@, "article"@) + og_optional("og:description"@, self.short) + og_optional(
            "og:article:author"@,
            self.author,
        )
    }

    open spec fn image_html(&self) -> Option<Seq<char>> {
        match self.thumbnail {
            Some(t) => Some(og_tag("og:image"@, t@)),
            None => None,
        }
    }

    open spec fn section_of(&self) -> Sections {
        Sections::NewsPost
    }

    open spec fn title_of(&self) -> Seq<char> {
        self.title@
    }

    fn render(&self) -> (r: String) {
        let mut out = empty_string();
        push_og_common(&mut out, self.title.as_str(), Sections::NewsPost.opengraph_type());
        push_og_optional(&mut out, "og:description", &self.short);
        push_og_optional(&mut out, "og:article:author", &self.author);
        out
    }

    fn render_image_meta(&self) -> (r: Option<String>) {
        match &self.thumbnail {
            Some(t) => {
                let mut out = empty_string();
                push_og_tag(&mut out, "og:image", t.as_str());
                Some(out)
            },
            None => None,
        }
    }

    fn section(&self) -> (r: Sections) {
        Sections::NewsPost
    }

    fn title(&self) -> (r: &str) {
        self.title.as_str()
    }
}

impl<T: RenderableMetadata> RenderableMetadata for Box<T> {
    open spec fn renderable(&self) -> bool {
        (**self).renderable()
    }

    open spec fn og_html(&self) -> Seq<char> {
        (**self).og_html()
    }

    open spec fn image_html(&self) -> Option<Seq<char>> {
        (**self).image_html()
    }

    open spec fn section_of(&self) -> Sections {
        (**self).section_of()
    }

    open spec fn title_of(&self) -> Seq<char> {
        (**self).title_of()
    }

    fn render(&self) -> (r: String) {
        (**self).render()
    }

    fn render_image_meta(&self) -> (r: Option<String>) {
        (**self).render_image_meta()
    }

    fn section(&self) -> (r: Sections) {
        (**self).section()
    }

    fn title(&self) -> (r: &str) {
        (**self).title()
    }
}

impl<'a, T: RenderableMetadata> RenderableMetadata for &'a T {
    open spec fn renderable(&self) -> bool {
        (**self).renderable()
    }

    open spec fn og_html(&self) -> Seq<char> {
        (**self).og_html()
    }

    open spec fn image_html(&self) -> Option<Seq<char>> {
        (**self).image_html()
    }

    open spec fn section_of(&self) -> Sections {
        (**self).section_of()
    }

    open spec fn title_of(&self) -> Seq<char> {
        (**self).title_of()
    }

    fn render(&self) -> (r: String) {
        (**self).render()
    }

    fn render_image_meta(&self) -> (r: Option<String>) {
        (**self).render_image_meta()
    }

    fn section(&self) -> (r: Sections) {
        (**self).section()
    }

    fn title(&self) -> (r: &str) {
        (**self).title()
    }
}

/// A work either by its source address or by its title.
#[derive(Clone, Debug, PartialEq, PartialOrd)]
pub enum WorkTitleOrSource {
    Source(String),
    Title(String),
}

} // verus!
