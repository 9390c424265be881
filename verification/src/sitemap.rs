//! The site map: every member, work, album and news post of a build, in the
//! order pages list them, checked so that every credited author is a member.

use indexmap::IndexMap;
use vstd::prelude::*;

use crate::listing::{lemma_newest_first_same_entries, newest_first, newest_first_of};
use crate::ranking::member_rank_order;
use crate::meta::{AlbumMeta, Illustration, MemberMeta, NewsMeta, Track, WorkMeta};
use crate::tables::{
    entries_with_key, has_key, has_member, illustration_at, illustration_count, lemma_lookup_has_key, lookup,
    illustration_entries, in_member_order, insert_member, keys_unique, member_at, member_count,
    member_entries, new_member_table, sort_member_table, track_at,
    track_count, track_entries,
};

verus! {

/// The member table entry for `m`: its ASCII name and itself.
pub open spec fn entry_of(m: MemberMeta) -> (Seq<char>, MemberMeta) {
    (m.ascii_name@, m)
}

/// The position of the entry with key `k` (meaningful when there is one).
pub open spec fn key_index(e: Seq<(Seq<char>, MemberMeta)>, k: Seq<char>) -> int {
    choose|j: int| 0 <= j < e.len() && e[j].0 == k
}

/// The member table after inserting `m` under its ASCII name, as indexmap
/// inserts: an existing reference keeps its place and takes the new member,
/// a new one goes last.
pub open spec fn table_insert(e: Seq<(Seq<char>, MemberMeta)>, m: MemberMeta) -> Seq<
    (Seq<char>, MemberMeta),
> {
    if has_key(e, m.ascii_name@) {
        e.update(key_index(e, m.ascii_name@), entry_of(m))
    } else {
        e.push(entry_of(m))
    }
}

/// The member table built from `ms` one member after another.
pub open spec fn collected(ms: Seq<MemberMeta>) -> Seq<(Seq<char>, MemberMeta)>
    decreases ms.len(),
{
    if ms.len() == 0 {
        Seq::empty()
    } else {
        table_insert(collected(ms.drop_last()), ms.last())
    }
}

/// Whether every entry is keyed by its member's ASCII name.
pub open spec fn keyed_by_ascii_name(e: Seq<(Seq<char>, MemberMeta)>) -> bool {
    forall|j: int| 0 <= j < e.len() ==> #[trigger] e[j].0 == e[j].1.ascii_name@
}

proof fn lemma_table_insert(e: Seq<(Seq<char>, MemberMeta)>, m: MemberMeta)
    requires
        keys_unique(e),
        keyed_by_ascii_name(e),
    ensures
        keys_unique(table_insert(e, m)),
        keyed_by_ascii_name(table_insert(e, m)),
{
    let k = m.ascii_name@;
    let t = table_insert(e, m);
    if has_key(e, k) {
        let j0 = key_index(e, k);
        assert(0 <= j0 < e.len() && e[j0].0 == k);
        assert forall|a: int, b: int|
            0 <= a < t.len() && 0 <= b < t.len() && a != b implies #[trigger] t[a].0
            != #[trigger] t[b].0 by {
            if a != j0 && b != j0 {
                assert(e[a].0 != e[b].0);
            } else if a == j0 {
                assert(e[b].0 != e[j0].0);
            } else {
                assert(e[a].0 != e[j0].0);
            }
        }
    } else {
        assert forall|a: int, b: int|
            0 <= a < t.len() && 0 <= b < t.len() && a != b implies #[trigger] t[a].0
            != #[trigger] t[b].0 by {
            if a < e.len() && b < e.len() {
                assert(e[a].0 != e[b].0);
            } else if a == e.len() {
                assert(t[b] == e[b]);
                assert(!(e[b].0 == k));
            } else {
                assert(t[a] == e[a]);
                assert(!(e[a].0 == k));
            }
        }
    }
}

proof fn lemma_insert_result(e: Seq<(Seq<char>, MemberMeta)>, m: MemberMeta, e2: Seq<(Seq<char>, MemberMeta)>)
    requires
        keys_unique(e),
        has_key(e, m.ascii_name@) ==> exists|j: int|
            0 <= j < e.len() && #[trigger] e[j].0 == m.ascii_name@ && e2 == e.update(
                j,
                (m.ascii_name@, m),
            ),
        !has_key(e, m.ascii_name@) ==> e2 == e.push((m.ascii_name@, m)),
    ensures
        e2 == table_insert(e, m),
{
    let k = m.ascii_name@;
    if has_key(e, k) {
        let j0 = key_index(e, k);
        assert(0 <= j0 < e.len() && e[j0].0 == k);
        let j = choose|j: int| 0 <= j < e.len() && #[trigger] e[j].0 == k && e2 == e.update(j, (k, m));
        if j != j0 {
            assert(e[j].0 != e[j0].0);
        }
    }
}

/// Builds the member table from the members read for a build, keyed by
/// ASCII name; a later member with a name already present replaces the
/// earlier one in its place.
pub fn collect_members(members: Vec<MemberMeta>) -> (r: IndexMap<String, MemberMeta>)
    ensures
        member_entries(r) == collected(members@),
        keys_unique(member_entries(r)),
        keyed_by_ascii_name(member_entries(r)),
{
    let ghost all = members@;
    let total = members.len();
    let mut rest = members;
    let mut table = new_member_table();
    let mut i: usize = 0;
    while rest.len() > 0
        invariant
            i <= all.len(),
            all.len() == total,
            rest@ == all.subrange(i as int, all.len() as int),
            member_entries(table) == collected(all.subrange(0, i as int)),
            keys_unique(member_entries(table)),
            keyed_by_ascii_name(member_entries(table)),
        decreases rest@.len(),
    {
        let m = rest.remove(0);
        let ghost before = member_entries(table);
        proof {
            lemma_table_insert(before, m);
        }
        let ghost mv = m;
        let key = m.ascii_name.clone();
        insert_member(&mut table, key, m);
        proof {
            lemma_insert_result(before, mv, member_entries(table));
            let next = all.subrange(0, i + 1);
            assert(next.drop_last() =~= all.subrange(0, i as int));
            assert(next.last() == all[i as int]);
            assert(rest@ =~= all.subrange(i + 1, all.len() as int));
        }
        i = i + 1;
    }
    assert(all.subrange(0, all.len() as int) =~= all);
    table
}

/// Where a name is credited.
#[derive(Debug, PartialEq, Eq)]
pub enum Credit {
    /// Among the authors of a work.
    Work { work: String },
    /// Among the authors of an album.
    Album { album: String },
    /// Among the authors of a track of an album.
    Track { album: String, track: String },
    /// Among the illustrators of an illustration of an album.
    Illustration { album: String, image: String },
    /// As the author of a news post.
    News { post: String },
}

/// A credited name that is not the reference of any member.
#[derive(Debug, PartialEq, Eq)]
pub struct AuthorProblem {
    pub credit: Credit,
    pub author: String,
}

/// Why a site map could not be built: every credited name that is not a
/// member, in the order the site map is checked in.
#[derive(Debug, PartialEq, Eq)]
pub struct SiteMapError {
    pub problems: Vec<AuthorProblem>,
}

/// The credited names that are not member references, in order.
pub open spec fn unknown_names(e: Seq<(Seq<char>, MemberMeta)>, names: Seq<String>) -> Seq<String>
    decreases names.len(),
{
    if names.len() == 0 {
        Seq::empty()
    } else if has_key(e, names.last()@) {
        unknown_names(e, names.drop_last())
    } else {
        unknown_names(e, names.drop_last()).push(names.last())
    }
}

/// One problem per name, all credited at `credit`.
pub open spec fn problems_at(credit: Credit, names: Seq<String>) -> Seq<AuthorProblem> {
    names.map_values(|n: String| AuthorProblem { credit: credit, author: n })
}

/// The problems of the names credited at `credit` that are not members.
pub open spec fn credit_problems(
    e: Seq<(Seq<char>, MemberMeta)>,
    credit: Credit,
    names: Seq<String>,
) -> Seq<AuthorProblem> {
    problems_at(credit, unknown_names(e, names))
}

/// The problems of the works' authors, work by work.
pub open spec fn work_problems(e: Seq<(Seq<char>, MemberMeta)>, ws: Seq<WorkMeta>) -> Seq<AuthorProblem>
    decreases ws.len(),
{
    if ws.len() == 0 {
        Seq::empty()
    } else {
        work_problems(e, ws.drop_last()) + credit_problems(
            e,
            Credit::Work { work: ws.last().title },
            ws.last().authors@,
        )
    }
}

/// The problems of the illustrators of an album's illustrations.
pub open spec fn illustration_problems(
    e: Seq<(Seq<char>, MemberMeta)>,
    album: String,
    ils: Seq<(String, Illustration)>,
) -> Seq<AuthorProblem>
    decreases ils.len(),
{
    if ils.len() == 0 {
        Seq::empty()
    } else {
        illustration_problems(e, album, ils.drop_last()) + credit_problems(
            e,
            Credit::Illustration { album: album, image: ils.last().1.image },
            ils.last().1.illustrators@,
        )
    }
}

/// The problems of an album's tracks. An external track is skipped; after
/// each other track's authors the illustrators of all the album's
/// illustrations are checked again.
pub open spec fn track_problems(
    e: Seq<(Seq<char>, MemberMeta)>,
    a: AlbumMeta,
    ts: Seq<(String, Track)>,
) -> Seq<AuthorProblem>
    decreases ts.len(),
{
    if ts.len() == 0 {
        Seq::empty()
    } else if ts.last().1.external {
        track_problems(e, a, ts.drop_last())
    } else {
        track_problems(e, a, ts.drop_last()) + credit_problems(
            e,
            Credit::Track { album: a.title, track: ts.last().0 },
            ts.last().1.authors@,
        ) + illustration_problems(e, a.title, illustration_entries(a.illustrations))
    }
}

/// The problems of one album: its authors, then its tracks.
pub open spec fn one_album_problems(e: Seq<(Seq<char>, MemberMeta)>, a: AlbumMeta) -> Seq<
    AuthorProblem,
> {
    credit_problems(e, Credit::Album { album: a.title }, a.authors@) + track_problems(
        e,
        a,
        track_entries(a.tracks),
    )
}

/// The problems of the albums, album by album.
pub open spec fn album_problems(e: Seq<(Seq<char>, MemberMeta)>, albums: Seq<AlbumMeta>) -> Seq<
    AuthorProblem,
>
    decreases albums.len(),
{
    if albums.len() == 0 {
        Seq::empty()
    } else {
        album_problems(e, albums.drop_last()) + one_album_problems(e, albums.last())
    }
}

/// The problem of a news post's author, if it has one that is not a member.
pub open spec fn one_post_problems(e: Seq<(Seq<char>, MemberMeta)>, p: NewsMeta) -> Seq<
    AuthorProblem,
> {
    match p.author {
        Some(a) => credit_problems(e, Credit::News { post: p.title }, seq![a]),
        None => Seq::empty(),
    }
}

/// The problems of the news posts, post by post.
pub open spec fn news_problems(e: Seq<(Seq<char>, MemberMeta)>, posts: Seq<NewsMeta>) -> Seq<
    AuthorProblem,
>
    decreases posts.len(),
{
    if posts.len() == 0 {
        Seq::empty()
    } else {
        news_problems(e, posts.drop_last()) + one_post_problems(e, posts.last())
    }
}

/// Every problem of a site: works, then albums, then news posts.
pub open spec fn site_problems(
    e: Seq<(Seq<char>, MemberMeta)>,
    works: Seq<WorkMeta>,
    albums: Seq<AlbumMeta>,
    news: Seq<NewsMeta>,
) -> Seq<AuthorProblem> {
    work_problems(e, works) + album_problems(e, albums) + news_problems(e, news)
}

/// A copy of a credit.
fn copy_credit(c: &Credit) -> (r: Credit)
    ensures
        r == *c,
{
    match c {
        Credit::Work { work } => Credit::Work { work: work.clone() },
        Credit::Album { album } => Credit::Album { album: album.clone() },
        Credit::Track { album, track } => Credit::Track { album: album.clone(), track: track.clone() },
        Credit::Illustration { album, image } => Credit::Illustration {
            album: album.clone(),
            image: image.clone(),
        },
        Credit::News { post } => Credit::News { post: post.clone() },
    }
}

/// Appends a problem for each name of `names` that is not a member.
fn push_unknown(
    out: &mut Vec<AuthorProblem>,
    table: &IndexMap<String, MemberMeta>,
    credit: &Credit,
    names: &Vec<String>,
)
    ensures
        final(out)@ == old(out)@ + credit_problems(member_entries(*table), *credit, names@),
{
    let ghost e = member_entries(*table);
    let mut i: usize = 0;
    while i < names.len()
        invariant
            i <= names@.len(),
            e == member_entries(*table),
            out@ == old(out)@ + credit_problems(e, *credit, names@.subrange(0, i as int)),
        decreases names@.len() - i,
    {
        let ghost before = out@;
        let ghost prefix = names@.subrange(0, i as int);
        let ghost next = names@.subrange(0, i + 1);
        proof {
            assert(next.drop_last() =~= prefix);
            assert(next.last() == names@[i as int]);
        }
        if !has_member(table, names[i].as_str()) {
            let p = AuthorProblem { credit: copy_credit(credit), author: names[i].clone() };
            out.push(p);
            proof {
                assert(unknown_names(e, next) == unknown_names(e, prefix).push(names@[i as int]));
                assert(problems_at(*credit, unknown_names(e, prefix).push(names@[i as int])) =~= problems_at(
                    *credit,
                    unknown_names(e, prefix),
                ).push(p));
                assert(out@ =~= old(out)@ + credit_problems(e, *credit, next));
            }
        } else {
            proof {
                assert(unknown_names(e, next) == unknown_names(e, prefix));
            }
        }
        i = i + 1;
    }
    assert(names@.subrange(0, names@.len() as int) =~= names@);
}

/// Appends the problems of the illustrators of an album's illustrations.
fn push_illustration_problems(
    out: &mut Vec<AuthorProblem>,
    table: &IndexMap<String, MemberMeta>,
    album: &AlbumMeta,
)
    ensures
        final(out)@ == old(out)@ + illustration_problems(
            member_entries(*table),
            album.title,
            illustration_entries(album.illustrations),
        ),
{
    let ghost e = member_entries(*table);
    let ghost ils = illustration_entries(album.illustrations);
    let n = illustration_count(&album.illustrations);
    let mut i: usize = 0;
    while i < n
        invariant
            i <= n,
            n == ils.len(),
            e == member_entries(*table),
            ils == illustration_entries(album.illustrations),
            out@ == old(out)@ + illustration_problems(e, album.title, ils.subrange(0, i as int)),
        decreases n - i,
    {
        let (_, illustration) = illustration_at(&album.illustrations, i);
        let credit = Credit::Illustration { album: album.title.clone(), image: illustration.image.clone() };
        push_unknown(out, table, &credit, &illustration.illustrators);
        proof {
            let next = ils.subrange(0, i + 1);
            assert(next.drop_last() =~= ils.subrange(0, i as int));
            assert(next.last() == ils[i as int]);
        }
        i = i + 1;
    }
    assert(ils.subrange(0, n as int) =~= ils);
}

/// Appends the problems of one album: its authors, then its tracks.
fn push_album_problems(
    out: &mut Vec<AuthorProblem>,
    table: &IndexMap<String, MemberMeta>,
    album: &AlbumMeta,
)
    ensures
        final(out)@ == old(out)@ + one_album_problems(member_entries(*table), *album),
{
    let ghost e = member_entries(*table);
    let ghost ts = track_entries(album.tracks);
    let credit = Credit::Album { album: album.title.clone() };
    push_unknown(out, table, &credit, &album.authors);
    let ghost start = out@;
    let n = track_count(&album.tracks);
    let mut i: usize = 0;
    while i < n
        invariant
            i <= n,
            n == ts.len(),
            e == member_entries(*table),
            ts == track_entries(album.tracks),
            out@ == start + track_problems(e, *album, ts.subrange(0, i as int)),
        decreases n - i,
    {
        let ghost before = out@;
        let (title, track) = track_at(&album.tracks, i);
        proof {
            let next = ts.subrange(0, i + 1);
            assert(next.drop_last() =~= ts.subrange(0, i as int));
            assert(next.last() == ts[i as int]);
        }
        if !track.external {
            let credit = Credit::Track { album: album.title.clone(), track: title.clone() };
            push_unknown(out, table, &credit, &track.authors);
            push_illustration_problems(out, table, album);
            proof {
                assert(out@ =~= start + track_problems(e, *album, ts.subrange(0, i + 1)));
            }
        }
        i = i + 1;
    }
    assert(ts.subrange(0, n as int) =~= ts);
    assert(out@ =~= old(out)@ + one_album_problems(e, *album));
}

/// Every credited name of the site that is not a member, in the order the
/// site map is checked in: the works' authors, then each album's authors,
/// track authors and illustrators, then the news posts' authors.
pub fn site_map_problems(
    table: &IndexMap<String, MemberMeta>,
    works: &Vec<WorkMeta>,
    albums: &Vec<AlbumMeta>,
    news: &Vec<NewsMeta>,
) -> (r: Vec<AuthorProblem>)
    ensures
        r@ == site_problems(member_entries(*table), works@, albums@, news@),
{
    let ghost e = member_entries(*table);
    let mut out: Vec<AuthorProblem> = Vec::new();
    let mut i: usize = 0;
    while i < works.len()
        invariant
            i <= works@.len(),
            e == member_entries(*table),
            out@ == work_problems(e, works@.subrange(0, i as int)),
        decreases works@.len() - i,
    {
        let credit = Credit::Work { work: works[i].title.clone() };
        push_unknown(&mut out, table, &credit, &works[i].authors);
        proof {
            let next = works@.subrange(0, i + 1);
            assert(next.drop_last() =~= works@.subrange(0, i as int));
        }
        i = i + 1;
    }
    assert(works@.subrange(0, works@.len() as int) =~= works@);
    let ghost after_works = out@;
    let mut i: usize = 0;
    while i < albums.len()
        invariant
            i <= albums@.len(),
            e == member_entries(*table),
            out@ == after_works + album_problems(e, albums@.subrange(0, i as int)),
        decreases albums@.len() - i,
    {
        push_album_problems(&mut out, table, &albums[i]);
        proof {
            let next = albums@.subrange(0, i + 1);
            assert(next.drop_last() =~= albums@.subrange(0, i as int));
            assert(out@ =~= after_works + album_problems(e, next));
        }
        i = i + 1;
    }
    assert(albums@.subrange(0, albums@.len() as int) =~= albums@);
    let ghost after_albums = out@;
    let mut i: usize = 0;
    while i < news.len()
        invariant
            i <= news@.len(),
            e == member_entries(*table),
            out@ == after_albums + news_problems(e, news@.subrange(0, i as int)),
        decreases news@.len() - i,
    {
        let post = &news[i];
        match &post.author {
            Some(author) => {
                let credit = Credit::News { post: post.title.clone() };
                let mut names: Vec<String> = Vec::new();
                names.push(author.clone());
                proof {
                    assert(names@ =~= seq![*author]);
                }
                push_unknown(&mut out, table, &credit, &names);
            },
            None => {},
        }
        proof {
            let next = news@.subrange(0, i + 1);
            assert(next.drop_last() =~= news@.subrange(0, i as int));
            assert(out@ =~= after_albums + news_problems(e, next));
        }
        i = i + 1;
    }
    assert(news@.subrange(0, news@.len() as int) =~= news@);
    assert(out@ =~= site_problems(e, works@, albums@, news@));
    out
}

/// Whether every name of `names` is a member reference.
pub open spec fn all_known(e: Seq<(Seq<char>, MemberMeta)>, names: Seq<String>) -> bool {
    forall|i: int| 0 <= i < names.len() ==> has_key(e, #[trigger] names[i]@)
}

/// Whether an album credits only members: its authors, the authors of each
/// track that is not external, and, when it has such a track, the
/// illustrators of its illustrations.
pub open spec fn album_consistent(e: Seq<(Seq<char>, MemberMeta)>, a: AlbumMeta) -> bool {
    let ts = track_entries(a.tracks);
    let ils = illustration_entries(a.illustrations);
    &&& all_known(e, a.authors@)
    &&& forall|t: int| 0 <= t < ts.len() && !ts[t].1.external ==> all_known(e, #[trigger] ts[t].1.authors@)
    &&& (exists|t: int| 0 <= t < ts.len() && !#[trigger] ts[t].1.external) ==> forall|k: int|
        0 <= k < ils.len() ==> all_known(e, #[trigger] ils[k].1.illustrators@)
}

/// Whether a news post's author, if it names one, is a member.
pub open spec fn post_consistent(e: Seq<(Seq<char>, MemberMeta)>, p: NewsMeta) -> bool {
    p.author matches Some(a) ==> has_key(e, a@)
}

/// Whether every name credited by the works, albums and news posts is a
/// member reference.
pub open spec fn site_consistent(
    e: Seq<(Seq<char>, MemberMeta)>,
    works: Seq<WorkMeta>,
    albums: Seq<AlbumMeta>,
    news: Seq<NewsMeta>,
) -> bool {
    &&& forall|w: WorkMeta| works.contains(w) ==> all_known(e, #[trigger] w.authors@)
    &&& forall|a: AlbumMeta| albums.contains(a) ==> #[trigger] album_consistent(e, a)
    &&& forall|p: NewsMeta| news.contains(p) ==> #[trigger] post_consistent(e, p)
}

proof fn lemma_unknown_empty(e: Seq<(Seq<char>, MemberMeta)>, names: Seq<String>)
    ensures
        (unknown_names(e, names).len() == 0) == all_known(e, names),
    decreases names.len(),
{
    if names.len() > 0 {
        lemma_unknown_empty(e, names.drop_last());
        if all_known(e, names) {
            assert forall|i: int| 0 <= i < names.drop_last().len() implies has_key(
                e,
                #[trigger] names.drop_last()[i]@,
            ) by {
                assert(names.drop_last()[i] == names[i]);
            }
            assert(has_key(e, names[names.len() - 1]@));
        } else if has_key(e, names.last()@) {
            let i = choose|i: int| 0 <= i < names.len() && !has_key(e, #[trigger] names[i]@);
            assert(names.drop_last()[i] == names[i]);
        }
    }
}

proof fn lemma_credit_empty(e: Seq<(Seq<char>, MemberMeta)>, c: Credit, names: Seq<String>)
    ensures
        (credit_problems(e, c, names).len() == 0) == all_known(e, names),
{
    lemma_unknown_empty(e, names);
}

proof fn lemma_work_problems_empty(e: Seq<(Seq<char>, MemberMeta)>, ws: Seq<WorkMeta>)
    ensures
        (work_problems(e, ws).len() == 0) == (forall|i: int|
            0 <= i < ws.len() ==> all_known(e, #[trigger] ws[i].authors@)),
    decreases ws.len(),
{
    if ws.len() > 0 {
        lemma_work_problems_empty(e, ws.drop_last());
        lemma_credit_empty(e, Credit::Work { work: ws.last().title }, ws.last().authors@);
        assert forall|i: int| 0 <= i < ws.len() - 1 implies ws.drop_last()[i] == ws[i] by {}
        if work_problems(e, ws).len() != 0 && forall|i: int|
            0 <= i < ws.len() ==> all_known(e, #[trigger] ws[i].authors@) {
            assert(all_known(e, ws[ws.len() - 1].authors@));
            assert forall|i: int| 0 <= i < ws.drop_last().len() implies all_known(
                e,
                #[trigger] ws.drop_last()[i].authors@,
            ) by {
                assert(all_known(e, ws[i].authors@));
            }
        }
        if work_problems(e, ws).len() == 0 {
            assert forall|i: int| 0 <= i < ws.len() implies all_known(e, #[trigger] ws[i].authors@) by {
                if i < ws.len() - 1 {
                    assert(all_known(e, ws.drop_last()[i].authors@));
                }
            }
        }
    }
}

proof fn lemma_illustration_problems_empty(
    e: Seq<(Seq<char>, MemberMeta)>,
    album: String,
    ils: Seq<(String, Illustration)>,
)
    ensures
        (illustration_problems(e, album, ils).len() == 0) == (forall|k: int|
            0 <= k < ils.len() ==> all_known(e, #[trigger] ils[k].1.illustrators@)),
    decreases ils.len(),
{
    if ils.len() > 0 {
        lemma_illustration_problems_empty(e, album, ils.drop_last());
        lemma_credit_empty(
            e,
            Credit::Illustration { album: album, image: ils.last().1.image },
            ils.last().1.illustrators@,
        );
        if illustration_problems(e, album, ils).len() != 0 && forall|k: int|
            0 <= k < ils.len() ==> all_known(e, #[trigger] ils[k].1.illustrators@) {
            assert(all_known(e, ils[ils.len() - 1].1.illustrators@));
            assert forall|k: int| 0 <= k < ils.drop_last().len() implies all_known(
                e,
                #[trigger] ils.drop_last()[k].1.illustrators@,
            ) by {
                assert(all_known(e, ils[k].1.illustrators@));
            }
        }
        if illustration_problems(e, album, ils).len() == 0 {
            assert forall|k: int| 0 <= k < ils.len() implies all_known(
                e,
                #[trigger] ils[k].1.illustrators@,
            ) by {
                if k < ils.len() - 1 {
                    assert(all_known(e, ils.drop_last()[k].1.illustrators@));
                }
            }
        }
    }
}

/// Whether all the track authors of the non-external tracks are members.
pub open spec fn tracks_known(e: Seq<(Seq<char>, MemberMeta)>, ts: Seq<(String, Track)>) -> bool {
    forall|t: int| 0 <= t < ts.len() && !ts[t].1.external ==> all_known(e, #[trigger] ts[t].1.authors@)
}

/// Whether some track is not external.
pub open spec fn has_own_track(ts: Seq<(String, Track)>) -> bool {
    exists|t: int| 0 <= t < ts.len() && !#[trigger] ts[t].1.external
}

proof fn lemma_track_problems_empty(
    e: Seq<(Seq<char>, MemberMeta)>,
    a: AlbumMeta,
    ts: Seq<(String, Track)>,
)
    ensures
        (track_problems(e, a, ts).len() == 0) == (tracks_known(e, ts) && (has_own_track(ts)
            ==> illustration_problems(e, a.title, illustration_entries(a.illustrations)).len()
            == 0)),
    decreases ts.len(),
{
    let ip = illustration_problems(e, a.title, illustration_entries(a.illustrations));
    if ts.len() > 0 {
        let d = ts.drop_last();
        let l = ts.last();
        lemma_track_problems_empty(e, a, d);
        lemma_credit_empty(e, Credit::Track { album: a.title, track: l.0 }, l.1.authors@);
        assert forall|t: int| 0 <= t < d.len() implies d[t] == ts[t] by {}
        assert(ts[ts.len() - 1] == l);
        if tracks_known(e, ts) {
            assert forall|t: int| 0 <= t < d.len() && !d[t].1.external implies all_known(
                e,
                #[trigger] d[t].1.authors@,
            ) by {
                assert(all_known(e, ts[t].1.authors@));
            }
        }
        if has_own_track(d) {
            let t = choose|t: int| 0 <= t < d.len() && !#[trigger] d[t].1.external;
            assert(!ts[t].1.external);
        }
        if l.1.external {
            if tracks_known(e, d) {
                assert forall|t: int| 0 <= t < ts.len() && !ts[t].1.external implies all_known(
                    e,
                    #[trigger] ts[t].1.authors@,
                ) by {
                    assert(t < d.len());
                    assert(all_known(e, d[t].1.authors@));
                }
            }
            if has_own_track(ts) {
                let t = choose|t: int| 0 <= t < ts.len() && !#[trigger] ts[t].1.external;
                assert(t < d.len() && !d[t].1.external);
            }
        } else {
            assert(has_own_track(ts)) by {
                assert(!ts[ts.len() - 1].1.external);
            }
            if tracks_known(e, ts) {
                assert(all_known(e, ts[ts.len() - 1].1.authors@));
            }
            if tracks_known(e, d) && all_known(e, l.1.authors@) {
                assert forall|t: int| 0 <= t < ts.len() && !ts[t].1.external implies all_known(
                    e,
                    #[trigger] ts[t].1.authors@,
                ) by {
                    if t < d.len() {
                        assert(all_known(e, d[t].1.authors@));
                    }
                }
            }
        }
    }
}

/// A site map has no problems exactly when every name its works, albums and
/// news posts credit is a member reference.
pub proof fn law_no_problems_iff_consistent(
    e: Seq<(Seq<char>, MemberMeta)>,
    works: Seq<WorkMeta>,
    albums: Seq<AlbumMeta>,
    news: Seq<NewsMeta>,
)
    ensures
        (site_problems(e, works, albums, news).len() == 0) == site_consistent(e, works, albums, news),
{
    lemma_work_problems_empty(e, works);
    lemma_album_problems_empty(e, albums);
    lemma_news_problems_empty(e, news);
    if site_consistent(e, works, albums, news) {
        assert forall|i: int| 0 <= i < works.len() implies all_known(e, #[trigger] works[i].authors@) by {
            assert(works.contains(works[i]));
        }
        assert forall|i: int| 0 <= i < albums.len() implies #[trigger] album_consistent(e, albums[i]) by {
            assert(albums.contains(albums[i]));
        }
        assert forall|i: int| 0 <= i < news.len() implies #[trigger] post_consistent(e, news[i]) by {
            assert(news.contains(news[i]));
        }
    }
}

proof fn lemma_album_problems_empty(e: Seq<(Seq<char>, MemberMeta)>, albums: Seq<AlbumMeta>)
    ensures
        (album_problems(e, albums).len() == 0) == (forall|i: int|
            0 <= i < albums.len() ==> #[trigger] album_consistent(e, albums[i])),
    decreases albums.len(),
{
    if albums.len() > 0 {
        let d = albums.drop_last();
        let a = albums.last();
        lemma_album_problems_empty(e, d);
        lemma_credit_empty(e, Credit::Album { album: a.title }, a.authors@);
        lemma_track_problems_empty(e, a, track_entries(a.tracks));
        lemma_illustration_problems_empty(e, a.title, illustration_entries(a.illustrations));
        assert(albums[albums.len() - 1] == a);
        assert forall|i: int| 0 <= i < d.len() implies d[i] == albums[i] by {}
        assert((one_album_problems(e, a).len() == 0) == album_consistent(e, a));
        if forall|i: int| 0 <= i < albums.len() ==> #[trigger] album_consistent(e, albums[i]) {
            assert(album_consistent(e, albums[albums.len() - 1]));
            assert forall|i: int| 0 <= i < d.len() implies #[trigger] album_consistent(e, d[i]) by {
                assert(album_consistent(e, albums[i]));
            }
        }
        if album_problems(e, albums).len() == 0 {
            assert forall|i: int| 0 <= i < albums.len() implies #[trigger] album_consistent(
                e,
                albums[i],
            ) by {
                if i < d.len() {
                    assert(album_consistent(e, d[i]));
                }
            }
        }
    }
}

proof fn lemma_news_problems_empty(e: Seq<(Seq<char>, MemberMeta)>, posts: Seq<NewsMeta>)
    ensures
        (news_problems(e, posts).len() == 0) == (forall|i: int|
            0 <= i < posts.len() ==> #[trigger] post_consistent(e, posts[i])),
    decreases posts.len(),
{
    if posts.len() > 0 {
        let d = posts.drop_last();
        let p = posts.last();
        lemma_news_problems_empty(e, d);
        match p.author {
            Some(a) => {
                lemma_credit_empty(e, Credit::News { post: p.title }, seq![a]);
                assert(all_known(e, seq![a]) == has_key(e, a@)) by {
                    assert(seq![a][0] == a);
                }
            },
            None => {},
        }
        assert(posts[posts.len() - 1] == p);
        assert forall|i: int| 0 <= i < d.len() implies d[i] == posts[i] by {}
        if forall|i: int| 0 <= i < posts.len() ==> #[trigger] post_consistent(e, posts[i]) {
            assert(post_consistent(e, posts[posts.len() - 1]));
            assert forall|i: int| 0 <= i < d.len() implies #[trigger] post_consistent(e, d[i]) by {
                assert(post_consistent(e, posts[i]));
            }
        }
        if news_problems(e, posts).len() == 0 {
            assert forall|i: int| 0 <= i < posts.len() implies #[trigger] post_consistent(e, posts[i]) by {
                if i < d.len() {
                    assert(post_consistent(e, d[i]));
                }
            }
        }
    }
}

/// The display names of the members, by reference.
#[derive(Debug)]
pub struct NameMap {
    pub members: IndexMap<String, String>,
}

/// The members, works, albums and news posts of a build, in the order the
/// site lists them.
#[derive(Debug)]
pub struct SiteMap {
    pub members: IndexMap<String, MemberMeta>,
    pub news: Vec<NewsMeta>,
    pub works: Vec<WorkMeta>,
    pub albums: Vec<AlbumMeta>,
}

/// Whether `m` holds the given member table and lists in the site's order:
/// the members stably sorted by `member_rank_order`, the works, albums and
/// news posts newest first.
pub open spec fn arranged(
    m: SiteMap,
    members: Seq<(Seq<char>, MemberMeta)>,
    works: Seq<WorkMeta>,
    albums: Seq<AlbumMeta>,
    news: Seq<NewsMeta>,
) -> bool {
    let e = member_entries(m.members);
    &&& e.to_multiset() == members.to_multiset()
    &&& in_member_order(e)
    &&& forall|k: (int, Seq<char>)| #[trigger] entries_with_key(e, k) == entries_with_key(members, k)
    &&& newest_first_of(m.works@, works)
    &&& newest_first_of(m.albums@, albums)
    &&& newest_first_of(m.news@, news)
}

proof fn lemma_has_key_permuted(e1: Seq<(Seq<char>, MemberMeta)>, e2: Seq<(Seq<char>, MemberMeta)>, k: Seq<char>)
    requires
        e1.to_multiset() == e2.to_multiset(),
    ensures
        has_key(e1, k) == has_key(e2, k),
{
    broadcast use vstd::seq_lib::group_to_multiset_ensures;
    if has_key(e1, k) {
        let j = choose|j: int| 0 <= j < e1.len() && #[trigger] e1[j].0 == k;
        assert(e1.contains(e1[j]));
        assert(e1.to_multiset().count(e1[j]) > 0);
        assert(e2.to_multiset().count(e1[j]) > 0);
        assert(e2.contains(e1[j]));
        let j2 = choose|j2: int| 0 <= j2 < e2.len() && e2[j2] == e1[j];
        assert(e2[j2].0 == k);
    }
    if has_key(e2, k) {
        let j = choose|j: int| 0 <= j < e2.len() && #[trigger] e2[j].0 == k;
        assert(e2.contains(e2[j]));
        assert(e2.to_multiset().count(e2[j]) > 0);
        assert(e1.to_multiset().count(e2[j]) > 0);
        assert(e1.contains(e2[j]));
        let j1 = choose|j1: int| 0 <= j1 < e1.len() && e1[j1] == e2[j];
        assert(e1[j1].0 == k);
    }
}

proof fn lemma_all_known_permuted(
    e1: Seq<(Seq<char>, MemberMeta)>,
    e2: Seq<(Seq<char>, MemberMeta)>,
    names: Seq<String>,
)
    requires
        e1.to_multiset() == e2.to_multiset(),
    ensures
        all_known(e1, names) == all_known(e2, names),
{
    assert forall|i: int| 0 <= i < names.len() implies has_key(e1, #[trigger] names[i]@) == has_key(
        e2,
        names[i]@,
    ) by {
        lemma_has_key_permuted(e1, e2, names[i]@);
    }
}

proof fn lemma_album_consistent_permuted(
    e1: Seq<(Seq<char>, MemberMeta)>,
    e2: Seq<(Seq<char>, MemberMeta)>,
    a: AlbumMeta,
)
    requires
        e1.to_multiset() == e2.to_multiset(),
    ensures
        album_consistent(e1, a) == album_consistent(e2, a),
{
    let ts = track_entries(a.tracks);
    let ils = illustration_entries(a.illustrations);
    lemma_all_known_permuted(e1, e2, a.authors@);
    assert forall|t: int| 0 <= t < ts.len() implies all_known(e1, #[trigger] ts[t].1.authors@) == all_known(
        e2,
        ts[t].1.authors@,
    ) by {
        lemma_all_known_permuted(e1, e2, ts[t].1.authors@);
    }
    assert forall|k: int| 0 <= k < ils.len() implies all_known(e1, #[trigger] ils[k].1.illustrators@)
        == all_known(e2, ils[k].1.illustrators@) by {
        lemma_all_known_permuted(e1, e2, ils[k].1.illustrators@);
    }
}

/// Whether every credited name is a member does not depend on the order of
/// the member table or of the lists.
proof fn lemma_consistent_arranged(m: SiteMap, members: Seq<(Seq<char>, MemberMeta)>, works: Seq<WorkMeta>, albums: Seq<AlbumMeta>, news: Seq<NewsMeta>)
    requires
        arranged(m, members, works, albums, news),
    ensures
        site_consistent(member_entries(m.members), m.works@, m.albums@, m.news@)
            == site_consistent(members, works, albums, news),
{
    let e = member_entries(m.members);
    assert forall|w: WorkMeta| m.works@.contains(w) == works.contains(w) by {
        lemma_newest_first_same_entries(m.works@, works, w);
    }
    assert forall|a: AlbumMeta| m.albums@.contains(a) == albums.contains(a) by {
        lemma_newest_first_same_entries(m.albums@, albums, a);
    }
    assert forall|p: NewsMeta| m.news@.contains(p) == news.contains(p) by {
        lemma_newest_first_same_entries(m.news@, news, p);
    }
    assert forall|w: WorkMeta| all_known(e, #[trigger] w.authors@) == all_known(members, w.authors@) by {
        lemma_all_known_permuted(e, members, w.authors@);
    }
    assert forall|a: AlbumMeta| #[trigger] album_consistent(e, a) == album_consistent(members, a) by {
        lemma_album_consistent_permuted(e, members, a);
    }
    assert forall|p: NewsMeta| #[trigger] post_consistent(e, p) == post_consistent(members, p) by {
        if let Some(x) = p.author {
            lemma_has_key_permuted(e, members, x@);
        }
    }
    if site_consistent(members, works, albums, news) {
        assert forall|w: WorkMeta| m.works@.contains(w) implies all_known(e, #[trigger] w.authors@) by {
            assert(works.contains(w));
            assert(all_known(members, w.authors@));
        }
        assert forall|a: AlbumMeta| m.albums@.contains(a) implies #[trigger] album_consistent(e, a) by {
            assert(albums.contains(a));
            assert(album_consistent(members, a));
        }
        assert forall|p: NewsMeta| m.news@.contains(p) implies #[trigger] post_consistent(e, p) by {
            assert(news.contains(p));
            assert(post_consistent(members, p));
        }
    }
    if site_consistent(e, m.works@, m.albums@, m.news@) {
        assert forall|w: WorkMeta| works.contains(w) implies all_known(members, #[trigger] w.authors@) by {
            assert(m.works@.contains(w));
            assert(all_known(e, w.authors@));
        }
        assert forall|a: AlbumMeta| albums.contains(a) implies #[trigger] album_consistent(members, a) by {
            assert(m.albums@.contains(a));
            assert(album_consistent(e, a));
        }
        assert forall|p: NewsMeta| news.contains(p) implies #[trigger] post_consistent(members, p) by {
            assert(m.news@.contains(p));
            assert(post_consistent(e, p));
        }
    }
}

/// Builds the site map: the member table sorted into the member list's
/// order, the works, albums and news posts newest first, and checks that
/// every name credited as an author or illustrator is a member reference.
/// When one is not, the error lists every such name where it is credited.
pub fn build_site_map(
    members: IndexMap<String, MemberMeta>,
    works: Vec<WorkMeta>,
    albums: Vec<AlbumMeta>,
    news: Vec<NewsMeta>,
) -> (r: Result<SiteMap, SiteMapError>)
    ensures
        r is Ok <==> site_consistent(member_entries(members), works@, albums@, news@),
        r matches Ok(m) ==> arranged(m, member_entries(members), works@, albums@, news@),
        r matches Err(err) ==> err.problems@.len() > 0 && exists|m: SiteMap|
            #[trigger] arranged(m, member_entries(members), works@, albums@, news@)
                && err.problems@ == site_problems(member_entries(m.members), m.works@, m.albums@, m.news@),
{
    let ghost input = member_entries(members);
    let ghost (w0, a0, n0) = (works@, albums@, news@);
    let mut table = members;
    sort_member_table(&mut table);
    let works = newest_first(works);
    let albums = newest_first(albums);
    let news = newest_first(news);
    let problems = site_map_problems(&table, &works, &albums, &news);
    let map = SiteMap { members: table, news, works, albums };
    proof {
        assert(arranged(map, input, w0, a0, n0));
        lemma_consistent_arranged(map, input, w0, a0, n0);
        law_no_problems_iff_consistent(member_entries(map.members), map.works@, map.albums@, map.news@);
    }
    if problems.len() == 0 {
        Ok(map)
    } else {
        Err(SiteMapError { problems })
    }
}

/// Whether `names` holds the name `m`.
pub open spec fn credits(names: Seq<String>, m: Seq<char>) -> bool {
    exists|i: int| 0 <= i < names.len() && #[trigger] names[i]@ == m
}

/// The works among `ws` that credit the member `m` as an author, in order.
pub open spec fn works_of(ws: Seq<WorkMeta>, m: Seq<char>) -> Seq<WorkMeta>
    decreases ws.len(),
{
    if ws.len() == 0 {
        Seq::empty()
    } else if credits(ws.last().authors@, m) {
        works_of(ws.drop_last(), m).push(ws.last())
    } else {
        works_of(ws.drop_last(), m)
    }
}

/// The albums among `albums` that credit the member `m` as an author.
pub open spec fn albums_of(albums: Seq<AlbumMeta>, m: Seq<char>) -> Seq<AlbumMeta>
    decreases albums.len(),
{
    if albums.len() == 0 {
        Seq::empty()
    } else if credits(albums.last().authors@, m) {
        albums_of(albums.drop_last(), m).push(albums.last())
    } else {
        albums_of(albums.drop_last(), m)
    }
}

/// The news posts among `posts` written by the member `m`.
pub open spec fn posts_of(posts: Seq<NewsMeta>, m: Seq<char>) -> Seq<NewsMeta>
    decreases posts.len(),
{
    if posts.len() == 0 {
        Seq::empty()
    } else if posts.last().author matches Some(a) && a@ == m {
        posts_of(posts.drop_last(), m).push(posts.last())
    } else {
        posts_of(posts.drop_last(), m)
    }
}

/// At most the first five entries of `s`.
pub open spec fn first_five<T>(s: Seq<T>) -> Seq<T> {
    if s.len() <= 5 {
        s
    } else {
        s.take(5)
    }
}

/// Whether the references of `r` point at the entries of `s`, in order.
pub open spec fn refs_to<T>(r: Seq<&T>, s: Seq<T>) -> bool {
    &&& r.len() == s.len()
    &&& forall|i: int| 0 <= i < r.len() ==> *#[trigger] r[i] == s[i]
}

fn has_name(names: &Vec<String>, m: &str) -> (r: bool)
    ensures
        r == credits(names@, m@),
{
    let mut i: usize = 0;
    while i < names.len()
        invariant
            i <= names@.len(),
            forall|j: int| 0 <= j < i ==> #[trigger] names@[j]@ != m@,
        decreases names@.len() - i,
    {
        if crate::text::str_eq(names[i].as_str(), m) {
            return true;
        }
        i = i + 1;
    }
    false
}

impl SiteMap {
    /// The last work titled `title`, if there is one.
    pub fn find_work_by_title(&self, title: &str) -> (r: Option<&WorkMeta>)
        ensures
            match r {
                Some(w) => exists|k: int|
                    0 <= k < self.works@.len() && self.works@[k] == *w && #[trigger] self.works@[k].title@
                        == title@ && forall|j: int|
                        k < j < self.works@.len() ==> #[trigger] self.works@[j].title@ != title@,
                None => forall|j: int|
                    0 <= j < self.works@.len() ==> #[trigger] self.works@[j].title@ != title@,
            },
    {
        let mut i: usize = self.works.len();
        while i > 0
            invariant
                i <= self.works@.len(),
                forall|j: int| i <= j < self.works@.len() ==> #[trigger] self.works@[j].title@ != title@,
            decreases i,
        {
            if crate::text::str_eq(self.works[i - 1].title.as_str(), title) {
                return Some(&self.works[i - 1]);
            }
            i = i - 1;
        }
        None
    }

    /// The first five works (newest first) that credit the member `member`.
    pub fn recent_works(&self, member: &str) -> (r: Vec<&WorkMeta>)
        ensures
            refs_to(r@, first_five(works_of(self.works@, member@))),
    {
        let mut out: Vec<&WorkMeta> = Vec::new();
        let mut i: usize = 0;
        while i < self.works.len() && out.len() < 5
            invariant
                i <= self.works@.len(),
                out@.len() <= 5,
                refs_to(out@, works_of(self.works@.subrange(0, i as int), member@)),
            decreases self.works@.len() - i,
        {
            let ghost prefix = self.works@.subrange(0, i as int);
            let ghost next = self.works@.subrange(0, i + 1);
            proof {
                assert(next.drop_last() =~= prefix);
                assert(next.last() == self.works@[i as int]);
            }
            if has_name(&self.works[i].authors, member) {
                out.push(&self.works[i]);
            }
            i = i + 1;
        }
        proof {
            lemma_works_of_prefix(self.works@, i as int, member@);
        }
        out
    }

    /// The first five albums (newest first) that credit the member `member`.
    pub fn recent_albums(&self, member: &str) -> (r: Vec<&AlbumMeta>)
        ensures
            refs_to(r@, first_five(albums_of(self.albums@, member@))),
    {
        let mut out: Vec<&AlbumMeta> = Vec::new();
        let mut i: usize = 0;
        while i < self.albums.len() && out.len() < 5
            invariant
                i <= self.albums@.len(),
                out@.len() <= 5,
                refs_to(out@, albums_of(self.albums@.subrange(0, i as int), member@)),
            decreases self.albums@.len() - i,
        {
            let ghost prefix = self.albums@.subrange(0, i as int);
            let ghost next = self.albums@.subrange(0, i + 1);
            proof {
                assert(next.drop_last() =~= prefix);
                assert(next.last() == self.albums@[i as int]);
            }
            if has_name(&self.albums[i].authors, member) {
                out.push(&self.albums[i]);
            }
            i = i + 1;
        }
        proof {
            lemma_albums_of_prefix(self.albums@, i as int, member@);
        }
        out
    }

    /// The first five news posts (newest first) written by the member
    /// `member`.
    pub fn recent_news(&self, member: &str) -> (r: Vec<&NewsMeta>)
        ensures
            refs_to(r@, first_five(posts_of(self.news@, member@))),
    {
        let mut out: Vec<&NewsMeta> = Vec::new();
        let mut i: usize = 0;
        while i < self.news.len() && out.len() < 5
            invariant
                i <= self.news@.len(),
                out@.len() <= 5,
                refs_to(out@, posts_of(self.news@.subrange(0, i as int), member@)),
            decreases self.news@.len() - i,
        {
            let ghost prefix = self.news@.subrange(0, i as int);
            let ghost next = self.news@.subrange(0, i + 1);
            proof {
                assert(next.drop_last() =~= prefix);
                assert(next.last() == self.news@[i as int]);
            }
            let by_member = match &self.news[i].author {
                Some(a) => crate::text::str_eq(a.as_str(), member),
                None => false,
            };
            if by_member {
                out.push(&self.news[i]);
            }
            i = i + 1;
        }
        proof {
            lemma_posts_of_prefix(self.news@, i as int, member@);
        }
        out
    }
}

proof fn lemma_works_of_prefix(ws: Seq<WorkMeta>, i: int, m: Seq<char>)
    requires
        0 <= i <= ws.len(),
        i == ws.len() || works_of(ws.subrange(0, i), m).len() >= 5,
    ensures
        first_five(works_of(ws, m)) == first_five(works_of(ws.subrange(0, i), m)),
    decreases ws.len() - i,
{
    if i < ws.len() {
        let next = ws.subrange(0, i + 1);
        assert(next.drop_last() =~= ws.subrange(0, i));
        lemma_works_of_prefix(ws, i + 1, m);
        let a = works_of(ws.subrange(0, i), m);
        assert(first_five(a.push(ws[i])) =~= first_five(a));
    } else {
        assert(ws.subrange(0, i) =~= ws);
    }
}

proof fn lemma_albums_of_prefix(s: Seq<AlbumMeta>, i: int, m: Seq<char>)
    requires
        0 <= i <= s.len(),
        i == s.len() || albums_of(s.subrange(0, i), m).len() >= 5,
    ensures
        first_five(albums_of(s, m)) == first_five(albums_of(s.subrange(0, i), m)),
    decreases s.len() - i,
{
    if i < s.len() {
        let next = s.subrange(0, i + 1);
        assert(next.drop_last() =~= s.subrange(0, i));
        lemma_albums_of_prefix(s, i + 1, m);
        let a = albums_of(s.subrange(0, i), m);
        assert(first_five(a.push(s[i])) =~= first_five(a));
    } else {
        assert(s.subrange(0, i) =~= s);
    }
}

proof fn lemma_posts_of_prefix(s: Seq<NewsMeta>, i: int, m: Seq<char>)
    requires
        0 <= i <= s.len(),
        i == s.len() || posts_of(s.subrange(0, i), m).len() >= 5,
    ensures
        first_five(posts_of(s, m)) == first_five(posts_of(s.subrange(0, i), m)),
    decreases s.len() - i,
{
    if i < s.len() {
        let next = s.subrange(0, i + 1);
        assert(next.drop_last() =~= s.subrange(0, i));
        lemma_posts_of_prefix(s, i + 1, m);
        let a = posts_of(s.subrange(0, i), m);
        assert(first_five(a.push(s[i])) =~= first_five(a));
    } else {
        assert(s.subrange(0, i) =~= s);
    }
}

/// The site map lists its members in the member list's order: no member is
/// listed after one that comes after it, that is, by rank group (代表, 副代表,
/// 広報, other positions, none) and by name within a group.
pub proof fn law_site_members_in_rank_order(
    m: SiteMap,
    members: Seq<(Seq<char>, MemberMeta)>,
    works: Seq<WorkMeta>,
    albums: Seq<AlbumMeta>,
    news: Seq<NewsMeta>,
    i: int,
    j: int,
)
    requires
        arranged(m, members, works, albums, news),
        0 <= i < j < member_entries(m.members).len(),
    ensures
        member_rank_order(member_entries(m.members)[i].1, member_entries(m.members)[j].1) <= 0,
{
    let e = member_entries(m.members);
    assert(member_rank_order(e[j].1, e[i].1) != -1);
    crate::ranking::law_member_order_antisymmetric(e[i].1, e[j].1);
}

/// The last member of `ms` whose ASCII name is `k`, if any.
pub open spec fn last_named(ms: Seq<MemberMeta>, k: Seq<char>) -> Option<MemberMeta>
    decreases ms.len(),
{
    if ms.len() == 0 {
        None
    } else if ms.last().ascii_name@ == k {
        Some(ms.last())
    } else {
        last_named(ms.drop_last(), k)
    }
}

proof fn lemma_collected_wf(ms: Seq<MemberMeta>)
    ensures
        keys_unique(collected(ms)),
        keyed_by_ascii_name(collected(ms)),
    decreases ms.len(),
{
    if ms.len() > 0 {
        lemma_collected_wf(ms.drop_last());
        lemma_table_insert(collected(ms.drop_last()), ms.last());
    }
}

proof fn lemma_lookup_push(e: Seq<(Seq<char>, MemberMeta)>, x: (Seq<char>, MemberMeta), k: Seq<char>)
    ensures
        lookup(e.push(x), k) == match lookup(e, k) {
            Some(m) => Some(m),
            None => if x.0 == k {
                Some(x.1)
            } else {
                None
            },
        },
{
    assert(e.push(x).drop_last() =~= e);
}

proof fn lemma_lookup_unique(e: Seq<(Seq<char>, MemberMeta)>, j: int)
    requires
        keys_unique(e),
        0 <= j < e.len(),
    ensures
        lookup(e, e[j].0) == Some(e[j].1),
    decreases e.len(),
{
    let d = e.drop_last();
    if j < e.len() - 1 {
        assert(keys_unique(d)) by {
            assert forall|a: int, b: int|
                0 <= a < d.len() && 0 <= b < d.len() && a != b implies #[trigger] d[a].0
                != #[trigger] d[b].0 by {
                assert(d[a] == e[a] && d[b] == e[b]);
            }
        }
        assert(d[j] == e[j]);
        lemma_lookup_unique(d, j);
    } else {
        lemma_lookup_has_key(d, e[j].0);
        if has_key(d, e[j].0) {
            let i = choose|i: int| 0 <= i < d.len() && #[trigger] d[i].0 == e[j].0;
            assert(e[i].0 == e[j].0);
        }
    }
}

proof fn lemma_lookup_update_other(
    e: Seq<(Seq<char>, MemberMeta)>,
    j: int,
    x: (Seq<char>, MemberMeta),
    k: Seq<char>,
)
    requires
        0 <= j < e.len(),
        e[j].0 != k,
        x.0 != k,
    ensures
        lookup(e.update(j, x), k) == lookup(e, k),
    decreases e.len(),
{
    let u = e.update(j, x);
    if j < e.len() - 1 {
        assert(u.drop_last() =~= e.drop_last().update(j, x));
        lemma_lookup_update_other(e.drop_last(), j, x, k);
        assert(u.last() == e.last());
    } else {
        assert(u.drop_last() =~= e.drop_last());
    }
}

/// A member read for a build is found in the member table under its ASCII
/// name; when several carry one name, the last one read is the one stored.
pub proof fn law_table_keeps_last_member(ms: Seq<MemberMeta>, k: Seq<char>)
    ensures
        lookup(collected(ms), k) == last_named(ms, k),
    decreases ms.len(),
{
    if ms.len() > 0 {
        let d = ms.drop_last();
        let m = ms.last();
        let e = collected(d);
        law_table_keeps_last_member(d, k);
        lemma_collected_wf(d);
        lemma_lookup_has_key(e, k);
        if has_key(e, m.ascii_name@) {
            let j = key_index(e, m.ascii_name@);
            assert(0 <= j < e.len() && e[j].0 == m.ascii_name@);
            let u = e.update(j, entry_of(m));
            if m.ascii_name@ == k {
                lemma_table_insert(e, m);
                assert(u[j] == entry_of(m));
                lemma_lookup_unique(u, j);
            } else {
                lemma_lookup_update_other(e, j, entry_of(m), k);
            }
        } else {
            lemma_lookup_push(e, entry_of(m), k);
            if m.ascii_name@ == k {
                lemma_lookup_has_key(e, k);
            }
        }
    }
}

} // verus!
