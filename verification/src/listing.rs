//! Newest-first listings of dated entries (works, albums, news posts): the
//! entries are sorted by date with the standard library's stable sort and the
//! result is turned round, so the newest come first and entries of one day
//! appear in the reverse of the order they were read in.

use std::cmp::Ordering;

use vstd::prelude::*;

use crate::date::{date_before, Date};
use crate::meta::{AlbumMeta, NewsMeta, WorkMeta};
use crate::ranking::ordering_value;

verus! {

/// An entry that carries a release or posting date.
pub trait Dated {
    /// The entry's date.
    spec fn date_of(&self) -> Date;

    /// The entry's date.
    fn date(&self) -> (r: &Date)
        ensures
            *r == self.date_of(),
    ;
}

impl Dated for WorkMeta {
    open spec fn date_of(&self) -> Date {
        self.date
    }

    fn date(&self) -> (r: &Date) {
        &self.date
    }
}

impl Dated for AlbumMeta {
    open spec fn date_of(&self) -> Date {
        self.date
    }

    fn date(&self) -> (r: &Date) {
        &self.date
    }
}

impl Dated for NewsMeta {
    open spec fn date_of(&self) -> Date {
        self.date
    }

    fn date(&self) -> (r: &Date) {
        &self.date
    }
}

impl<'a, T: Dated> Dated for &'a T {
    open spec fn date_of(&self) -> Date {
        (**self).date_of()
    }

    fn date(&self) -> (r: &Date) {
        (**self).date()
    }
}

/// The entries behind a sequence of references.
pub open spec fn derefs<T>(s: Seq<&T>) -> Seq<T> {
    s.map_values(|x: &T| *x)
}

/// Listing references newest first lists the entries behind them newest
/// first.
pub proof fn lemma_newest_first_derefs<T: Dated>(r: Seq<&T>, v: Seq<&T>)
    requires
        newest_first_of(r, v),
    ensures
        newest_first_of(derefs(r), derefs(v)),
{
    assert forall|i: int, j: int| 0 <= i < j < derefs(r).len() implies !date_before(
        #[trigger] derefs(r)[i].date_of(),
        #[trigger] derefs(r)[j].date_of(),
    ) by {
        assert(derefs(r)[i] == *r[i] && derefs(r)[j] == *r[j]);
        assert(!date_before((&r[i]).date_of(), (&r[j]).date_of()));
    }
    assert forall|d: Date| #[trigger] on_day(derefs(r), d) == on_day(derefs(v), d).reverse() by {
        lemma_on_day_derefs(r, d);
        lemma_on_day_derefs(v, d);
        assert(on_day(r, d) == on_day(v, d).reverse());
        assert(derefs(on_day(v, d).reverse()) =~= derefs(on_day(v, d)).reverse());
    }
}

proof fn lemma_on_day_derefs<T: Dated>(s: Seq<&T>, d: Date)
    ensures
        on_day(derefs(s), d) == derefs(on_day(s, d)),
    decreases s.len(),
{
    if s.len() > 0 {
        lemma_on_day_derefs(s.drop_last(), d);
        assert(derefs(s).drop_last() =~= derefs(s.drop_last()));
        assert(derefs(s).last() == *s.last());
        if s.last().date_of() == d {
            assert(derefs(on_day(s.drop_last(), d).push(s.last())) =~= derefs(
                on_day(s.drop_last(), d),
            ).push(*s.last()));
        }
    } else {
        assert(derefs(s) =~= Seq::<T>::empty());
        assert(derefs(on_day(s, d)) =~= Seq::<T>::empty());
    }
}

/// The chronological comparison of two dates: -1, 0 or 1.
pub open spec fn date_order(a: Date, b: Date) -> int {
    if date_before(a, b) {
        -1
    } else if date_before(b, a) {
        1
    } else {
        0
    }
}

/// Compares two dates chronologically.
pub fn compare_dates(a: &Date, b: &Date) -> (r: Ordering)
    ensures
        ordering_value(r) == date_order(*a, *b),
{
    if a.is_before(b) {
        Ordering::Less
    } else if b.is_before(a) {
        Ordering::Greater
    } else {
        Ordering::Equal
    }
}

/// The entries of `s` dated `d`, in their order.
pub open spec fn on_day<T: Dated>(s: Seq<T>, d: Date) -> Seq<T>
    decreases s.len(),
{
    if s.len() == 0 {
        Seq::empty()
    } else if s.last().date_of() == d {
        on_day(s.drop_last(), d).push(s.last())
    } else {
        on_day(s.drop_last(), d)
    }
}

/// Whether no entry is dated after a later one.
pub open spec fn oldest_first<T: Dated>(s: Seq<T>) -> bool {
    forall|i: int, j: int| 0 <= i < j < s.len() ==> !date_before(#[trigger] s[j].date_of(), #[trigger] s[i].date_of())
}

/// Whether no entry is dated before a later one.
pub open spec fn newest_first_order<T: Dated>(s: Seq<T>) -> bool {
    forall|i: int, j: int| 0 <= i < j < s.len() ==> !date_before(#[trigger] s[i].date_of(), #[trigger] s[j].date_of())
}

/// `slice::sort_by` with the chronological comparison of the entries'
/// dates. The standard library documents the sort as stable and the
/// comparison is a total order, so the result is sorted oldest first and the
/// entries of each day keep their order.
#[verifier::external_body]
fn sort_by_date<T: Dated>(v: &mut Vec<T>)
    ensures
        oldest_first(final(v)@),
        forall|d: Date| #[trigger] on_day(final(v)@, d) == on_day(old(v)@, d),
{
    v.sort_by(|a, b| compare_dates(a.date(), b.date()));
}

proof fn lemma_on_day_prepend<T: Dated>(x: T, s: Seq<T>, d: Date)
    ensures
        on_day(seq![x] + s, d) == if x.date_of() == d {
            seq![x] + on_day(s, d)
        } else {
            on_day(s, d)
        },
    decreases s.len(),
{
    let t = seq![x] + s;
    if s.len() == 0 {
        assert(t =~= seq![x]);
        assert(t.drop_last() =~= Seq::<T>::empty());
        assert(on_day(t.drop_last(), d) =~= Seq::<T>::empty());
        assert(on_day(s, d) =~= Seq::<T>::empty());
        assert(Seq::<T>::empty().push(x) =~= seq![x] + Seq::<T>::empty());
        assert(seq![x] + s =~= seq![x]);
    } else {
        lemma_on_day_prepend(x, s.drop_last(), d);
        assert(t.drop_last() =~= seq![x] + s.drop_last());
        assert(t.last() == s.last());
        let inner = on_day(s.drop_last(), d);
        if x.date_of() == d {
            assert((seq![x] + inner).push(s.last()) =~= seq![x] + inner.push(s.last()));
        }
    }
}

/// Turning a list round turns round the entries of each day.
proof fn lemma_on_day_reverse<T: Dated>(s: Seq<T>, d: Date)
    ensures
        on_day(s.reverse(), d) == on_day(s, d).reverse(),
    decreases s.len(),
{
    if s.len() == 0 {
        assert(s.reverse() =~= s);
    } else {
        lemma_on_day_reverse(s.drop_last(), d);
        assert(s.reverse() =~= seq![s.last()] + s.drop_last().reverse());
        lemma_on_day_prepend(s.last(), s.drop_last().reverse(), d);
        if s.last().date_of() == d {
            assert(on_day(s, d).reverse() =~= seq![s.last()] + on_day(s.drop_last(), d).reverse());
        }
    }
}

proof fn lemma_on_day_contains<T: Dated>(s: Seq<T>, x: T)
    ensures
        s.contains(x) == on_day(s, x.date_of()).contains(x),
    decreases s.len(),
{
    if s.len() > 0 {
        let d = s.drop_last();
        lemma_on_day_contains(d, x);
        let o = on_day(d, x.date_of());
        if s.contains(x) && !d.contains(x) {
            let i = choose|i: int| 0 <= i < s.len() && s[i] == x;
            if i < d.len() {
                assert(d[i] == x);
            }
            assert(on_day(s, x.date_of()) == o.push(x));
            assert(o.push(x)[o.len() as int] == x);
        }
        if d.contains(x) {
            let i = choose|i: int| 0 <= i < d.len() && d[i] == x;
            assert(s[i] == x);
            let j = choose|j: int| 0 <= j < o.len() && o[j] == x;
            if s.last().date_of() == x.date_of() {
                assert(o.push(s.last())[j] == x);
            }
        }
        if on_day(s, x.date_of()).contains(x) && !o.contains(x) {
            assert(s.last().date_of() == x.date_of());
            let j = choose|j: int| 0 <= j < o.len() + 1 && o.push(s.last())[j] == x;
            assert(j == o.len());
            assert(s[s.len() - 1] == x);
        }
        if o.contains(x) {
            let j = choose|j: int| 0 <= j < o.len() && o[j] == x;
            if s.last().date_of() == x.date_of() {
                assert(o.push(s.last())[j] == x);
            }
            let i = choose|i: int| 0 <= i < d.len() && d[i] == x;
            assert(s[i] == x);
        }
    }
}

/// A newest-first listing holds the same entries as the list it was made
/// from.
pub proof fn lemma_newest_first_same_entries<T: Dated>(r: Seq<T>, v: Seq<T>, x: T)
    requires
        newest_first_of(r, v),
    ensures
        r.contains(x) == v.contains(x),
{
    let d = x.date_of();
    lemma_on_day_contains(r, x);
    lemma_on_day_contains(v, x);
    let o = on_day(v, d);
    assert(on_day(r, d) == o.reverse());
    if o.contains(x) {
        let j = choose|j: int| 0 <= j < o.len() && o[j] == x;
        assert(o.reverse()[o.len() - 1 - j] == x);
    }
    if o.reverse().contains(x) {
        let j = choose|j: int| 0 <= j < o.len() && o.reverse()[j] == x;
        assert(o[o.len() - 1 - j] == x);
    }
}

/// The entries of `v` in the opposite order.
pub fn reversed<T>(v: Vec<T>) -> (r: Vec<T>)
    ensures
        r@ == v@.reverse(),
{
    let ghost orig = v@;
    let mut rest = v;
    let mut r: Vec<T> = Vec::new();
    while rest.len() > 0
        invariant
            rest@.len() <= orig.len(),
            rest@ == orig.subrange(0, rest@.len() as int),
            r@ == orig.subrange(rest@.len() as int, orig.len() as int).reverse(),
        decreases rest@.len(),
    {
        let ghost n = rest@.len();
        let x = rest.pop().unwrap();
        proof {
            assert(x == orig[n - 1]);
            assert(orig.subrange(n - 1, orig.len() as int) =~= seq![x] + orig.subrange(
                n as int,
                orig.len() as int,
            ));
            assert(orig.subrange(n - 1, orig.len() as int).reverse() =~= orig.subrange(
                n as int,
                orig.len() as int,
            ).reverse().push(x));
        }
        r.push(x);
        proof {
            assert(rest@ =~= orig.subrange(0, rest@.len() as int));
        }
    }
    assert(orig.subrange(0, orig.len() as int) =~= orig);
    r
}

/// Whether `r` lists the entries of `v` newest first, the entries of one day
/// in the reverse of their order in `v`.
pub open spec fn newest_first_of<T: Dated>(r: Seq<T>, v: Seq<T>) -> bool {
    &&& newest_first_order(r)
    &&& forall|d: Date| #[trigger] on_day(r, d) == on_day(v, d).reverse()
}

/// Orders entries newest first: sorted by date (stably), then turned round.
/// Entries of the same day come in the reverse of their order in `v`.
pub fn newest_first<T: Dated>(v: Vec<T>) -> (r: Vec<T>)
    ensures
        newest_first_of(r@, v@),
{
    let mut sorted = v;
    sort_by_date(&mut sorted);
    let r = reversed(sorted);
    proof {
        let s = sorted@;
        assert forall|i: int, j: int| 0 <= i < j < r@.len() implies !date_before(
            #[trigger] r@[i].date_of(),
            #[trigger] r@[j].date_of(),
        ) by {
            let n = s.len() as int;
            assert(r@[i] == s[n - 1 - i] && r@[j] == s[n - 1 - j]);
            assert(!date_before(s[n - 1 - i].date_of(), s[n - 1 - j].date_of()));
        }
        assert forall|d: Date| #[trigger] on_day(r@, d) == on_day(v@, d).reverse() by {
            lemma_on_day_reverse(s, d);
        }
    }
    r
}

proof fn lemma_on_day_none<T: Dated>(s: Seq<T>, d: Date)
    requires
        forall|i: int| 0 <= i < s.len() ==> #[trigger] s[i].date_of() != d,
    ensures
        on_day(s, d).len() == 0,
    decreases s.len(),
{
    if s.len() > 0 {
        assert(s.last() == s[s.len() - 1]);
        assert forall|i: int| 0 <= i < s.drop_last().len() implies #[trigger] s.drop_last()[i].date_of() != d by {
            assert(s.drop_last()[i] == s[i]);
        }
        lemma_on_day_none(s.drop_last(), d);
    }
}

proof fn lemma_sorted_days_determine<T: Dated>(r1: Seq<T>, r2: Seq<T>)
    requires
        newest_first_order(r1),
        newest_first_order(r2),
        forall|d: Date| #[trigger] on_day(r1, d) == on_day(r2, d),
    ensures
        r1 == r2,
    decreases r1.len() + r2.len(),
{
    if r1.len() == 0 && r2.len() == 0 {
        assert(r1 =~= r2);
    } else if r1.len() == 0 {
        let d = r2.last().date_of();
        assert(on_day(r1, d) == on_day(r2, d));
        assert(on_day(r2, d).len() > 0);
    } else if r2.len() == 0 {
        let d = r1.last().date_of();
        assert(on_day(r1, d) == on_day(r2, d));
        assert(on_day(r1, d).len() > 0);
    } else {
        let d1 = r1.last().date_of();
        let d2 = r2.last().date_of();
        if date_before(d1, d2) {
            assert forall|i: int| 0 <= i < r2.len() implies #[trigger] r2[i].date_of() != d1 by {
                if i < r2.len() - 1 {
                    assert(!date_before(r2[i].date_of(), r2[r2.len() - 1].date_of()));
                }
            }
            lemma_on_day_none(r2, d1);
            assert(on_day(r1, d1) == on_day(r2, d1));
            assert(on_day(r1, d1).len() > 0);
        } else if date_before(d2, d1) {
            assert forall|i: int| 0 <= i < r1.len() implies #[trigger] r1[i].date_of() != d2 by {
                if i < r1.len() - 1 {
                    assert(!date_before(r1[i].date_of(), r1[r1.len() - 1].date_of()));
                }
            }
            lemma_on_day_none(r1, d2);
            assert(on_day(r1, d2) == on_day(r2, d2));
            assert(on_day(r2, d2).len() > 0);
        } else {
            assert(d1 == d2);
            let d = d1;
            assert(on_day(r1, d) == on_day(r2, d));
            assert(on_day(r1, d).last() == r1.last());
            assert(on_day(r2, d).last() == r2.last());
            let a = r1.drop_last();
            let b = r2.drop_last();
            assert forall|i: int, j: int| 0 <= i < j < a.len() implies !date_before(
                #[trigger] a[i].date_of(),
                #[trigger] a[j].date_of(),
            ) by {
                assert(a[i] == r1[i] && a[j] == r1[j]);
            }
            assert forall|i: int, j: int| 0 <= i < j < b.len() implies !date_before(
                #[trigger] b[i].date_of(),
                #[trigger] b[j].date_of(),
            ) by {
                assert(b[i] == r2[i] && b[j] == r2[j]);
            }
            assert forall|e: Date| #[trigger] on_day(a, e) == on_day(b, e) by {
                assert(on_day(r1, e) == on_day(r2, e));
                if e == d {
                    assert(on_day(a, e) =~= on_day(r1, e).drop_last());
                    assert(on_day(b, e) =~= on_day(r2, e).drop_last());
                }
            }
            lemma_sorted_days_determine(a, b);
            assert(r1 =~= a.push(r1.last()));
            assert(r2 =~= b.push(r2.last()));
        }
    }
}

/// There is only one newest-first listing of a list: any two agree.
pub proof fn law_newest_first_unique<T: Dated>(r1: Seq<T>, r2: Seq<T>, v: Seq<T>)
    requires
        newest_first_of(r1, v),
        newest_first_of(r2, v),
    ensures
        r1 == r2,
{
    assert forall|d: Date| #[trigger] on_day(r1, d) == on_day(r2, d) by {
        assert(on_day(r1, d) == on_day(v, d).reverse());
        assert(on_day(r2, d) == on_day(v, d).reverse());
    }
    lemma_sorted_days_determine(r1, r2);
}

} // verus!
