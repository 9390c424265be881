//! The order members are listed in: the president first, then the vice
//! president, then the public-relations officer, then other office holders,
//! then everyone else, by name within each group.

use std::cmp::Ordering;

use vstd::prelude::*;

use crate::meta::MemberMeta;
use crate::text::{compare_chars, lex_order};

verus! {

/// The text of a member's position; none reads as empty.
pub open spec fn position_text(m: MemberMeta) -> Seq<char> {
    match m.position {
        Some(p) => p@,
        None => Seq::empty(),
    }
}

/// The rank group of a member: 0 for 代表, 1 for 副代表, 2 for 広報, 3 for
/// any other position, 4 for none.
pub open spec fn rank_class(m: MemberMeta) -> int {
    if position_text(m) == "代表"@ {
        0
    } else if position_text(m) == "副代表"@ {
        1
    } else if position_text(m) == "広報"@ {
        2
    } else if m.position is Some {
        3
    } else {
        4
    }
}

/// The member comparison: by rank group, then by name. Two holders of the
/// same office are ordered by name, so this is a total order on members.
pub open spec fn member_rank_order(a: MemberMeta, b: MemberMeta) -> int {
    if rank_class(a) < rank_class(b) {
        -1
    } else if rank_class(b) < rank_class(a) {
        1
    } else {
        lex_order(a.name@, b.name@)
    }
}

/// The number a comparison result stands for.
pub open spec fn ordering_value(o: Ordering) -> int {
    match o {
        Ordering::Less => -1,
        Ordering::Equal => 0,
        Ordering::Greater => 1,
    }
}

/// Compares two texts character by character.
pub fn compare_text(a: &str, b: &str) -> (r: Ordering)
    ensures
        ordering_value(r) == lex_order(a@, b@),
{
    let v = compare_chars(a, b);
    if v < 0 {
        Ordering::Less
    } else if v > 0 {
        Ordering::Greater
    } else {
        Ordering::Equal
    }
}

fn position_is(m: &MemberMeta, office: &str) -> (r: bool)
    ensures
        r == (position_text(*m) == office@),
{
    match &m.position {
        Some(p) => crate::text::str_eq(p.as_str(), office),
        None => {
            let empty = String::new();
            crate::text::str_eq(empty.as_str(), office)
        },
    }
}

/// The rank group of a member (see `rank_class`).
pub fn rank_group(m: &MemberMeta) -> (r: u8)
    ensures
        r == rank_class(*m),
{
    if position_is(m, "代表") {
        0
    } else if position_is(m, "副代表") {
        1
    } else if position_is(m, "広報") {
        2
    } else if m.position.is_some() {
        3
    } else {
        4
    }
}

/// Compares two members for the member list, the way the site orders them.
pub fn member_ordering(a: &MemberMeta, b: &MemberMeta) -> (r: Ordering)
    ensures
        ordering_value(r) == member_rank_order(*a, *b),
{
    let ga = rank_group(a);
    let gb = rank_group(b);
    if ga < gb {
        return Ordering::Less;
    } else if gb < ga {
        return Ordering::Greater;
    }
    compare_text(a.name.as_str(), b.name.as_str())
}


/// Members are listed by rank group first (代表, 副代表, 広報, other
/// positions, none), and by name within a group.
pub proof fn law_member_order_is_rank_then_name(a: MemberMeta, b: MemberMeta)
    ensures
        rank_class(a) < rank_class(b) ==> member_rank_order(a, b) == -1,
        rank_class(b) < rank_class(a) ==> member_rank_order(a, b) == 1,
        rank_class(a) == rank_class(b) ==> member_rank_order(a, b) == lex_order(a.name@, b.name@),
{
}

/// Comparing two members the other way round gives the opposite answer; a
/// member compares equal to itself.
pub proof fn law_member_order_antisymmetric(a: MemberMeta, b: MemberMeta)
    ensures
        member_rank_order(a, a) == 0,
        member_rank_order(a, b) == -member_rank_order(b, a),
        -1 <= member_rank_order(a, b) <= 1,
        member_rank_order(a, b) == 0 <==> (rank_class(a) == rank_class(b) && a.name@ == b.name@),
{
    crate::text::lemma_lex_order_antisymmetric(a.name@, b.name@);
    crate::text::lemma_lex_order_equal(a.name@, b.name@);
    crate::text::lemma_lex_order_equal(a.name@, a.name@);
}

/// The member order is transitive.
pub proof fn law_member_order_transitive(a: MemberMeta, b: MemberMeta, c: MemberMeta)
    requires
        member_rank_order(a, b) <= 0,
        member_rank_order(b, c) <= 0,
    ensures
        member_rank_order(a, c) <= 0,
        member_rank_order(a, b) < 0 || member_rank_order(b, c) < 0 ==> member_rank_order(a, c) < 0,
{
    if rank_class(a) == rank_class(b) && rank_class(b) == rank_class(c) {
        crate::text::lemma_lex_order_transitive(a.name@, b.name@, c.name@);
    }
}

/// A member never comes before the president (代表) unless they hold that
/// office too.
pub proof fn law_president_first(p: MemberMeta, m: MemberMeta)
    requires
        rank_class(p) == 0,
        rank_class(m) != 0,
    ensures
        member_rank_order(p, m) == -1,
        member_rank_order(m, p) == 1,
{
}


} // verus!
