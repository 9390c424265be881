//! Equality and order of album tracks: tracks are equal when their authors,
//! additional authors, length and external flag are; they are ordered by
//! authors, then additional authors, then the external flag (a track's
//! length does not take part in the order).

use std::cmp::Ordering;

use vstd::prelude::*;
use vstd::std_specs::cmp::{PartialEqSpecImpl, PartialOrdSpecImpl};

use crate::meta::Track;
use crate::reference::texts;
use crate::text::{compare_chars, lex_order, str_eq};

verus! {

/// The lexicographic order of two lists of names (-1, 0 or 1), names being
/// compared character by character.
pub open spec fn names_order(a: Seq<Seq<char>>, b: Seq<Seq<char>>) -> int
    decreases a.len(),
{
    if a.len() == 0 {
        if b.len() == 0 {
            0
        } else {
            -1
        }
    } else if b.len() == 0 {
        1
    } else if lex_order(a[0], b[0]) != 0 {
        lex_order(a[0], b[0])
    } else {
        names_order(a.drop_first(), b.drop_first())
    }
}

/// The order of two flags: false before true.
pub open spec fn flag_order(a: bool, b: bool) -> int {
    if a == b {
        0
    } else if !a {
        -1
    } else {
        1
    }
}

/// The order of two tracks (-1, 0 or 1).
pub open spec fn track_order(a: Track, b: Track) -> int {
    if names_order(texts(a.authors@), texts(b.authors@)) != 0 {
        names_order(texts(a.authors@), texts(b.authors@))
    } else if names_order(texts(a.additional_authors@), texts(b.additional_authors@)) != 0 {
        names_order(texts(a.additional_authors@), texts(b.additional_authors@))
    } else {
        flag_order(a.external, b.external)
    }
}

/// Whether two tracks are equal.
pub open spec fn tracks_equal(a: Track, b: Track) -> bool {
    &&& texts(a.authors@) == texts(b.authors@)
    &&& texts(a.additional_authors@) == texts(b.additional_authors@)
    &&& a.duration_secs == b.duration_secs
    &&& a.duration_nanos == b.duration_nanos
    &&& a.external == b.external
}

/// The comparison result a number stands for.
pub open spec fn ordering_of(v: int) -> Ordering {
    if v < 0 {
        Ordering::Less
    } else if v > 0 {
        Ordering::Greater
    } else {
        Ordering::Equal
    }
}

fn same_names(a: &Vec<String>, b: &Vec<String>) -> (r: bool)
    ensures
        r == (texts(a@) == texts(b@)),
{
    if a.len() != b.len() {
        proof {
            assert(texts(a@).len() != texts(b@).len());
        }
        return false;
    }
    let mut i: usize = 0;
    while i < a.len()
        invariant
            a@.len() == b@.len(),
            i <= a@.len(),
            forall|j: int| 0 <= j < i ==> #[trigger] a@[j]@ == b@[j]@,
        decreases a@.len() - i,
    {
        if !str_eq(a[i].as_str(), b[i].as_str()) {
            proof {
                assert(texts(a@)[i as int] != texts(b@)[i as int]);
            }
            return false;
        }
        i = i + 1;
    }
    proof {
        assert(texts(a@) =~= texts(b@));
    }
    true
}

fn compare_names(a: &Vec<String>, b: &Vec<String>) -> (r: i8)
    ensures
        r == names_order(texts(a@), texts(b@)),
{
    let mut i: usize = 0;
    proof {
        assert(texts(a@).skip(0) =~= texts(a@));
        assert(texts(b@).skip(0) =~= texts(b@));
    }
    while i < a.len() && i < b.len()
        invariant
            i <= a@.len(),
            i <= b@.len(),
            names_order(texts(a@), texts(b@)) == names_order(
                texts(a@).skip(i as int),
                texts(b@).skip(i as int),
            ),
        decreases a@.len() - i,
    {
        let c = compare_chars(a[i].as_str(), b[i].as_str());
        proof {
            assert(texts(a@).skip(i as int)[0] == a@[i as int]@);
            assert(texts(b@).skip(i as int)[0] == b@[i as int]@);
        }
        if c != 0 {
            return c;
        }
        proof {
            assert(texts(a@).skip(i as int).drop_first() =~= texts(a@).skip(i + 1));
            assert(texts(b@).skip(i as int).drop_first() =~= texts(b@).skip(i + 1));
        }
        i = i + 1;
    }
    if i < a.len() {
        1
    } else if i < b.len() {
        -1
    } else {
        0
    }
}

impl PartialEq for Track {
    fn eq(&self, other: &Self) -> (r: bool) {
        same_names(&self.authors, &other.authors) && same_names(
            &self.additional_authors,
            &other.additional_authors,
        ) && self.duration_secs == other.duration_secs && self.duration_nanos
            == other.duration_nanos && self.external == other.external
    }
}

impl PartialEqSpecImpl for Track {
    open spec fn obeys_eq_spec() -> bool {
        true
    }

    open spec fn eq_spec(&self, other: &Self) -> bool {
        tracks_equal(*self, *other)
    }
}

impl PartialOrd for Track {
    fn partial_cmp(&self, other: &Self) -> (r: Option<Ordering>) {
        let a = compare_names(&self.authors, &other.authors);
        if a != 0 {
            return Some(if a < 0 { Ordering::Less } else { Ordering::Greater });
        }
        let b = compare_names(&self.additional_authors, &other.additional_authors);
        if b != 0 {
            return Some(if b < 0 { Ordering::Less } else { Ordering::Greater });
        }
        if self.external == other.external {
            Some(Ordering::Equal)
        } else if !self.external {
            Some(Ordering::Less)
        } else {
            Some(Ordering::Greater)
        }
    }
}

impl PartialOrdSpecImpl for Track {
    open spec fn obeys_partial_cmp_spec() -> bool {
        true
    }

    open spec fn partial_cmp_spec(&self, other: &Self) -> Option<Ordering> {
        Some(ordering_of(track_order(*self, *other)))
    }
}

/// Two lists of names compare equal exactly when they hold the same names.
pub proof fn lemma_names_order_equal(a: Seq<Seq<char>>, b: Seq<Seq<char>>)
    ensures
        (names_order(a, b) == 0) == (a == b),
    decreases a.len(),
{
    if a.len() > 0 && b.len() > 0 {
        crate::text::lemma_lex_order_equal(a[0], b[0]);
        if lex_order(a[0], b[0]) == 0 {
            lemma_names_order_equal(a.drop_first(), b.drop_first());
            if a.drop_first() == b.drop_first() {
                assert(a =~= seq![a[0]] + a.drop_first());
                assert(b =~= seq![b[0]] + b.drop_first());
            }
            if a == b {
                assert(a.drop_first() == b.drop_first());
            }
        }
    } else if a.len() == 0 && b.len() == 0 {
        assert(a =~= b);
    }
}

/// The track order agrees with track equality except on the length: two
/// tracks compare equal exactly when their authors, additional authors and
/// external flag are equal, so for tracks of the same length (and only for
/// them) `partial_cmp` gives `Equal` exactly when `==` holds. When the
/// authors differ, the order is that of the authors.
pub proof fn law_track_order_agrees_with_eq(a: Track, b: Track)
    ensures
        (track_order(a, b) == 0) == (texts(a.authors@) == texts(b.authors@) && texts(
            a.additional_authors@,
        ) == texts(b.additional_authors@) && a.external == b.external),
        (a.duration_secs == b.duration_secs && a.duration_nanos == b.duration_nanos) ==> ((
        track_order(a, b) == 0) == tracks_equal(a, b)),
        texts(a.authors@) != texts(b.authors@) ==> track_order(a, b) == names_order(
            texts(a.authors@),
            texts(b.authors@),
        ),
{
    lemma_names_order_equal(texts(a.authors@), texts(b.authors@));
    lemma_names_order_equal(texts(a.additional_authors@), texts(b.additional_authors@));
}

} // verus!
