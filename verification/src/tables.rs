//! The insertion-ordered maps (indexmap's `IndexMap`) that hold members by
//! reference and an album's illustrations and tracks by title.

use indexmap::IndexMap;
use vstd::prelude::*;

use crate::meta::{Illustration, MemberMeta, Track};
use crate::ranking::{member_ordering, member_rank_order, rank_class};

verus! {

/// indexmap's insertion-ordered hash map.
#[verifier::external_type_specification]
#[verifier::external_body]
#[verifier::reject_recursive_types(K)]
#[verifier::reject_recursive_types(V)]
#[verifier::reject_recursive_types(S)]
pub struct ExIndexMap<K, V, S>(IndexMap<K, V, S>);

/// The entries of a member table, in the map's order: reference and member.
pub uninterp spec fn member_entries(m: IndexMap<String, MemberMeta>) -> Seq<(Seq<char>, MemberMeta)>;

/// The entries of an album's illustration table, in order: title and
/// illustration.
pub uninterp spec fn illustration_entries(m: IndexMap<String, Illustration>) -> Seq<
    (String, Illustration),
>;

/// The entries of an album's track list, in order: title and track.
pub uninterp spec fn track_entries(m: IndexMap<String, Track>) -> Seq<(String, Track)>;

/// Whether some entry has the key `k`.
pub open spec fn has_key<V>(entries: Seq<(Seq<char>, V)>, k: Seq<char>) -> bool {
    exists|j: int| 0 <= j < entries.len() && #[trigger] entries[j].0 == k
}

/// Whether no two entries share a key.
pub open spec fn keys_unique<V>(entries: Seq<(Seq<char>, V)>) -> bool {
    forall|i: int, j: int|
        0 <= i < entries.len() && 0 <= j < entries.len() && i != j ==> #[trigger] entries[i].0
            != #[trigger] entries[j].0
}

/// `IndexMap::new`: an empty member table.
#[verifier::external_body]
pub(crate) fn new_member_table() -> (r: IndexMap<String, MemberMeta>)
    ensures
        member_entries(r) == Seq::<(Seq<char>, MemberMeta)>::empty(),
{
    IndexMap::new()
}

/// `IndexMap::len` of a member table.
#[verifier::external_body]
pub(crate) fn member_count(m: &IndexMap<String, MemberMeta>) -> (r: usize)
    ensures
        r == member_entries(*m).len(),
{
    m.len()
}

/// `IndexMap::get_index`: the entry at position `i` of a member table.
#[verifier::external_body]
pub(crate) fn member_at(m: &IndexMap<String, MemberMeta>, i: usize) -> (r: (&String, &MemberMeta))
    requires
        i < member_entries(*m).len(),
    ensures
        r.0@ == member_entries(*m)[i as int].0,
        *r.1 == member_entries(*m)[i as int].1,
{
    m.get_index(i).unwrap()
}

/// `IndexMap::insert` into a member table. indexmap documents that an
/// existing key keeps its place and gets the new value, and that a new key is
/// placed last.
#[verifier::external_body]
pub(crate) fn insert_member(m: &mut IndexMap<String, MemberMeta>, key: String, value: MemberMeta)
    ensures
        has_key(member_entries(*old(m)), key@) ==> exists|j: int|
            0 <= j < member_entries(*old(m)).len() && #[trigger] member_entries(*old(m))[j].0
                == key@ && member_entries(*final(m)) == member_entries(*old(m)).update(
                j,
                (key@, value),
            ),
        !has_key(member_entries(*old(m)), key@) ==> member_entries(*final(m)) == member_entries(
            *old(m),
        ).push((key@, value)),
{
    m.insert(key, value);
}

/// Where a member stands in the member list's order: rank group and name.
pub open spec fn member_sort_key(m: MemberMeta) -> (int, Seq<char>) {
    (rank_class(m), m.name@)
}

/// The entries whose member has the sort key `k`, in order.
pub open spec fn entries_with_key(e: Seq<(Seq<char>, MemberMeta)>, k: (int, Seq<char>)) -> Seq<
    (Seq<char>, MemberMeta),
>
    decreases e.len(),
{
    if e.len() == 0 {
        Seq::empty()
    } else if member_sort_key(e.last().1) == k {
        entries_with_key(e.drop_last(), k).push(e.last())
    } else {
        entries_with_key(e.drop_last(), k)
    }
}

/// Whether no entry's member comes strictly before an earlier entry's.
pub open spec fn in_member_order(e: Seq<(Seq<char>, MemberMeta)>) -> bool {
    forall|i: int, j: int|
        0 <= i < j < e.len() ==> member_rank_order(#[trigger] e[j].1, #[trigger] e[i].1) != -1
}

/// `IndexMap::sort_by` on a member table, comparing members with
/// `member_ordering`. indexmap sorts its entries with the standard library's
/// `slice::sort_by`, documented as stable and as keeping every element when
/// the comparison is a total order; `member_ordering` is one (rank group,
/// then name: see the laws in `ranking`). The result keeps the entries, is
/// sorted, and entries whose members compare equal (same rank group and
/// name) keep their order.
#[verifier::external_body]
pub(crate) fn sort_member_table(m: &mut IndexMap<String, MemberMeta>)
    ensures
        member_entries(*final(m)).to_multiset() == member_entries(*old(m)).to_multiset(),
        in_member_order(member_entries(*final(m))),
        forall|k: (int, Seq<char>)|
            #[trigger] entries_with_key(member_entries(*final(m)), k) == entries_with_key(
                member_entries(*old(m)),
                k,
            ),
{
    m.sort_by(|_, a, _, b| member_ordering(a, b));
}

/// `IndexMap::contains_key` on a member table.
#[verifier::external_body]
pub(crate) fn has_member(m: &IndexMap<String, MemberMeta>, key: &str) -> (r: bool)
    ensures
        r == has_key(member_entries(*m), key@),
{
    m.contains_key(key)
}

/// The member stored under `k`: the first entry with that key (a table holds
/// at most one).
pub open spec fn lookup(e: Seq<(Seq<char>, MemberMeta)>, k: Seq<char>) -> Option<MemberMeta>
    decreases e.len(),
{
    if e.len() == 0 {
        None
    } else {
        match lookup(e.drop_last(), k) {
            Some(m) => Some(m),
            None => if e.last().0 == k {
                Some(e.last().1)
            } else {
                None
            },
        }
    }
}

/// `IndexMap::get` on a member table: the member stored under `key`, if any.
#[verifier::external_body]
pub(crate) fn find_member<'a>(m: &'a IndexMap<String, MemberMeta>, key: &str) -> (r: Option<&'a MemberMeta>)
    ensures
        match r {
            Some(v) => lookup(member_entries(*m), key@) == Some(*v),
            None => lookup(member_entries(*m), key@) is None,
        },
{
    m.get(key)
}

/// A key is stored exactly when some entry has it.
pub proof fn lemma_lookup_has_key(e: Seq<(Seq<char>, MemberMeta)>, k: Seq<char>)
    ensures
        lookup(e, k) is Some <==> has_key(e, k),
    decreases e.len(),
{
    if e.len() > 0 {
        lemma_lookup_has_key(e.drop_last(), k);
        if has_key(e.drop_last(), k) {
            let j = choose|j: int| 0 <= j < e.drop_last().len() && #[trigger] e.drop_last()[j].0 == k;
            assert(e[j].0 == k);
        }
        if has_key(e, k) && e.last().0 != k {
            let j = choose|j: int| 0 <= j < e.len() && #[trigger] e[j].0 == k;
            assert(e.drop_last()[j].0 == k);
        }
        if e.last().0 == k {
            assert(e[e.len() - 1].0 == k);
        }
    }
}

/// `IndexMap::len` of an illustration table.
#[verifier::external_body]
pub(crate) fn illustration_count(m: &IndexMap<String, Illustration>) -> (r: usize)
    ensures
        r == illustration_entries(*m).len(),
{
    m.len()
}

/// `IndexMap::get_index`: the entry at position `i` of an illustration table.
#[verifier::external_body]
pub(crate) fn illustration_at(m: &IndexMap<String, Illustration>, i: usize) -> (r: (&String, &Illustration))
    requires
        i < illustration_entries(*m).len(),
    ensures
        *r.0 == illustration_entries(*m)[i as int].0,
        *r.1 == illustration_entries(*m)[i as int].1,
{
    m.get_index(i).unwrap()
}

/// `IndexMap::len` of a track list.
#[verifier::external_body]
pub(crate) fn track_count(m: &IndexMap<String, Track>) -> (r: usize)
    ensures
        r == track_entries(*m).len(),
{
    m.len()
}

/// `IndexMap::get_index`: the entry at position `i` of a track list.
#[verifier::external_body]
pub(crate) fn track_at(m: &IndexMap<String, Track>, i: usize) -> (r: (&String, &Track))
    requires
        i < track_entries(*m).len(),
    ensures
        *r.0 == track_entries(*m)[i as int].0,
        *r.1 == track_entries(*m)[i as int].1,
{
    m.get_index(i).unwrap()
}

} // verus!
