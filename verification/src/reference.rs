//! Stable page references: a title followed by a short digest of the title
//! and the names of its authors.

use vstd::prelude::*;
use vstd::utf8::encode_utf8;

use crate::encoding::{base64_url_nopad, encode_base64_url, url_safe_char, le_bytes, sea_digest, sea_hash_bytes, u64_le_bytes};

verus! {

/// The UTF-8 bytes of the names, one after another.
pub open spec fn names_bytes(names: Seq<Seq<char>>) -> Seq<u8>
    decreases names.len(),
{
    if names.len() == 0 {
        Seq::empty()
    } else {
        names_bytes(names.drop_last()) + encode_utf8(names.last())
    }
}

/// The characters of each string of a list.
pub open spec fn texts(v: Seq<String>) -> Seq<Seq<char>> {
    v.map_values(|s: String| s@)
}

/// The bytes that are digested for a reference: the title's bytes, then
/// those of the known authors, then those of the other authors.
pub open spec fn reference_bytes(
    title: Seq<char>,
    known: Seq<Seq<char>>,
    unknown: Seq<Seq<char>>,
) -> Seq<u8> {
    encode_utf8(title) + names_bytes(known + unknown)
}

/// The reference of an item: its title, a dash, and the URL-safe base64 of
/// the little-endian SeaHash digest of the reference bytes.
pub open spec fn reference_spec(
    title: Seq<char>,
    known: Seq<Seq<char>>,
    unknown: Seq<Seq<char>>,
) -> Seq<char> {
    title + "-"@ + base64_url_nopad(
        le_bytes(sea_digest(reference_bytes(title, known, unknown)) as nat, 8),
    )
}

fn append_bytes(v: &mut Vec<u8>, b: &[u8])
    ensures
        final(v)@ == old(v)@ + b@,
{
    let mut i: usize = 0;
    while i < b.len()
        invariant
            i <= b@.len(),
            v@ == old(v)@ + b@.subrange(0, i as int),
        decreases b@.len() - i,
    {
        v.push(b[i]);
        assert(b@.subrange(0, i + 1) =~= b@.subrange(0, i as int).push(b@[i as int]));
        i = i + 1;
    }
    assert(b@.subrange(0, b@.len() as int) =~= b@);
}

fn append_names(v: &mut Vec<u8>, names: &[String])
    ensures
        final(v)@ == old(v)@ + names_bytes(texts(names@)),
{
    let mut i: usize = 0;
    while i < names.len()
        invariant
            i <= names@.len(),
            v@ == old(v)@ + names_bytes(texts(names@.subrange(0, i as int))),
        decreases names@.len() - i,
    {
        append_bytes(v, names[i].as_str().as_bytes());
        proof {
            let next = texts(names@.subrange(0, i + 1));
            assert(next.drop_last() =~= texts(names@.subrange(0, i as int)));
            assert(next.last() == names@[i as int]@);
            assert(v@ =~= old(v)@ + names_bytes(next));
        }
        i = i + 1;
    }
    assert(names@.subrange(0, names@.len() as int) =~= names@);
}

proof fn lemma_names_bytes_concat(a: Seq<Seq<char>>, b: Seq<Seq<char>>)
    ensures
        names_bytes(a + b) == names_bytes(a) + names_bytes(b),
    decreases b.len(),
{
    if b.len() == 0 {
        assert(a + b =~= a);
        assert(names_bytes(a) + names_bytes(b) =~= names_bytes(a));
    } else {
        lemma_names_bytes_concat(a, b.drop_last());
        assert((a + b).drop_last() =~= a + b.drop_last());
        assert((a + b).last() == b.last());
        assert(names_bytes(a + b) =~= names_bytes(a) + names_bytes(b));
    }
}

/// The reference naming an item: its title followed by a digest of the title
/// and its authors, so that items sharing a title stay apart.
pub fn reference(title: &str, known_authors: &[String], unknown_authors: &[String]) -> (r: String)
    ensures
        r@ == reference_spec(title@, texts(known_authors@), texts(unknown_authors@)),
        r@.len() == title@.len() + 12,
        r@.subrange(0, title@.len() as int) == title@,
        r@[title@.len() as int] == '-',
        forall|i: int| title@.len() < i < r@.len() ==> url_safe_char(#[trigger] r@[i]),
{
    let mut bytes: Vec<u8> = Vec::new();
    append_bytes(&mut bytes, title.as_bytes());
    append_names(&mut bytes, known_authors);
    append_names(&mut bytes, unknown_authors);
    proof {
        lemma_names_bytes_concat(texts(known_authors@), texts(unknown_authors@));
        assert(bytes@ =~= reference_bytes(title@, texts(known_authors@), texts(unknown_authors@)));
    }
    let digest = sea_hash_bytes(bytes.as_slice());
    let le = u64_le_bytes(digest);
    let tag = encode_base64_url(le.as_slice());
    let mut out = crate::text::concat2(title, "-");
    out.append(tag.as_str());
    proof {
        reveal_strlit("-");
        assert(out@ == title@ + "-"@ + tag@);
        assert(out@.subrange(0, title@.len() as int) =~= title@);
        assert forall|i: int| title@.len() < i < out@.len() implies url_safe_char(#[trigger] out@[i]) by {
            assert(out@[i] == tag@[i - title@.len() - 1]);
        }
    }
    out
}

/// Only the sequence of author names counts for a reference, not how it is
/// split between known and other authors.
pub proof fn law_reference_split(title: Seq<char>, known: Seq<Seq<char>>, unknown: Seq<Seq<char>>)
    ensures
        reference_spec(title, known, unknown) == reference_spec(title, known + unknown, Seq::empty()),
        reference_spec(title, known, unknown) == reference_spec(title, Seq::empty(), known + unknown),
{
    assert(known + unknown + Seq::<Seq<char>>::empty() =~= known + unknown);
    assert(Seq::<Seq<char>>::empty() + (known + unknown) =~= known + unknown);
}

} // verus!
