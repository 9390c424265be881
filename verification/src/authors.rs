//! Author credits as HTML: member references link to the member's page,
//! other names are shown as dead links, all separated by commas.

use vstd::prelude::*;

use crate::html::{escape_html, html_escape};
use crate::meta::MemberMeta;
use crate::sitemap::SiteMap;
use crate::tables::{find_member, has_key, lemma_lookup_has_key, lookup, member_entries};
use crate::text::concat3;

verus! {

/// A name shown as a link that leads nowhere.
pub open spec fn invalid_link_html(name: Seq<char>) -> Seq<char> {
    "<a class=\"invalid-link\" href=\".\">"@ + html_escape(name) + "</a>"@
}

/// A member reference linking to the page of the member stored under it.
pub open spec fn member_credit_html(e: Seq<(Seq<char>, MemberMeta)>, author: Seq<char>) -> Seq<char> {
    "<a class=\"member-role member-bio\" href=\""@ + html_escape(
        "/members/"@ + lookup(e, author).unwrap().name@ + ".html"@,
    ) + "\">"@ + html_escape(author) + "</a>"@
}

/// Pieces of text separated by `", "`.
pub open spec fn comma_joined(items: Seq<Seq<char>>) -> Seq<char>
    decreases items.len(),
{
    if items.len() == 0 {
        Seq::empty()
    } else if items.len() == 1 {
        items[0]
    } else {
        comma_joined(items.drop_last()) + ", "@ + items.last()
    }
}

/// The credits of the known authors (member references), then of the
/// unknown ones.
pub open spec fn author_list_html(
    e: Seq<(Seq<char>, MemberMeta)>,
    known: Seq<String>,
    unknown: Seq<String>,
) -> Seq<char> {
    comma_joined(
        known.map_values(|a: String| member_credit_html(e, a@)) + unknown.map_values(
            |a: String| invalid_link_html(a@),
        ),
    )
}

/// A name shown as a link that leads nowhere.
pub fn known_invalid_link(inner: &str) -> (r: String)
    ensures
        r@ == invalid_link_html(inner@),
{
    let escaped = escape_html(inner);
    concat3("<a class=\"invalid-link\" href=\".\">", escaped.as_str(), "</a>")
}

fn member_credit(site_map: &SiteMap, author: &str) -> (r: String)
    requires
        has_key(member_entries(site_map.members), author@),
    ensures
        r@ == member_credit_html(member_entries(site_map.members), author@),
{
    proof {
        lemma_lookup_has_key(member_entries(site_map.members), author@);
    }
    let member = find_member(&site_map.members, author).unwrap();
    let path = concat3("/members/", member.name.as_str(), ".html");
    let mut out = String::new();
    out.append("<a class=\"member-role member-bio\" href=\"");
    out.append(escape_html(path.as_str()).as_str());
    out.append("\">");
    out.append(escape_html(author).as_str());
    out.append("</a>");
    out
}

proof fn lemma_joined_push(items: Seq<Seq<char>>, x: Seq<char>)
    ensures
        comma_joined(items.push(x)) == if items.len() == 0 {
            x
        } else {
            comma_joined(items) + ", "@ + x
        },
{
    assert(items.push(x).drop_last() =~= items);
    if items.len() == 0 {
        assert(items.push(x)[0] == x);
    }
}

/// The authors of a work, album, track or illustration as HTML: each member
/// reference of `known_authors` links to the page of the member stored under
/// it, each name of `unknown_authors` is a dead link, in that order and
/// separated by `", "`. Every known author must be a member reference.
pub fn author_list(site_map: &SiteMap, known_authors: &[String], unknown_authors: &[String]) -> (r: String)
    requires
        forall|i: int|
            0 <= i < known_authors@.len() ==> has_key(
                member_entries(site_map.members),
                #[trigger] known_authors@[i]@,
            ),
    ensures
        r@ == author_list_html(member_entries(site_map.members), known_authors@, unknown_authors@),
{
    let ghost e = member_entries(site_map.members);
    let ghost ks = known_authors@.map_values(|a: String| member_credit_html(e, a@));
    let ghost us = unknown_authors@.map_values(|a: String| invalid_link_html(a@));
    let mut out = String::new();
    let mut i: usize = 0;
    while i < known_authors.len()
        invariant
            i <= known_authors@.len(),
            e == member_entries(site_map.members),
            ks == known_authors@.map_values(|a: String| member_credit_html(e, a@)),
            forall|j: int|
                0 <= j < known_authors@.len() ==> has_key(e, #[trigger] known_authors@[j]@),
            out@ == comma_joined(ks.subrange(0, i as int)),
        decreases known_authors@.len() - i,
    {
        let item = member_credit(site_map, known_authors[i].as_str());
        proof {
            lemma_joined_push(ks.subrange(0, i as int), item@);
            assert(ks.subrange(0, i as int).push(item@) =~= ks.subrange(0, i + 1));
        }
        if i > 0 {
            out.append(", ");
        }
        out.append(item.as_str());
        i = i + 1;
    }
    let ghost all = ks + us;
    assert(ks.subrange(0, ks.len() as int) =~= ks);
    assert(all.subrange(0, ks.len() as int) =~= ks);
    let mut j: usize = 0;
    while j < unknown_authors.len()
        invariant
            j <= unknown_authors@.len(),
            ks.len() == known_authors@.len(),
            us == unknown_authors@.map_values(|a: String| invalid_link_html(a@)),
            all == ks + us,
            out@ == comma_joined(all.subrange(0, ks.len() + j)),
        decreases unknown_authors@.len() - j,
    {
        let item = known_invalid_link(unknown_authors[j].as_str());
        proof {
            let before = all.subrange(0, ks.len() + j);
            lemma_joined_push(before, item@);
            assert(all[ks.len() + j] == us[j as int]);
            assert(before.push(item@) =~= all.subrange(0, ks.len() + j + 1));
        }
        if known_authors.len() > 0 || j > 0 {
            out.append(", ");
        }
        out.append(item.as_str());
        j = j + 1;
    }
    assert(all.subrange(0, all.len() as int) =~= all);
    out
}

} // verus!
