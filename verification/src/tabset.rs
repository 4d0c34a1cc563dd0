//! The registry's insertion-ordered set of open tabs.
//!
//! The set itself is `linked_hash_set::LinkedHashSet`, kept behind a small
//! trusted surface: `tab_set_elems` names the sequence of members in
//! insertion order, and each wrapper states over that name what the crate's
//! documented behaviour is.  `TabId`'s `Hash` and `Eq` agree with view
//! equality, so membership below is membership of views.

use vstd::prelude::*;

use linked_hash_set::LinkedHashSet;

use crate::data::{TabId, TabView};

verus! {

#[verifier::external_type_specification]
#[verifier::external_body]
#[verifier::reject_recursive_types(T)]
#[verifier::reject_recursive_types(S)]
pub struct ExLinkedHashSet<T, S>(LinkedHashSet<T, S>);

/// The members of the set, by view, in insertion order (front to back).
/// Duplicate views never occur: the set is keyed by a hash and an equality
/// that coincide with view equality.
pub uninterp spec fn tab_set_elems(s: LinkedHashSet<TabId>) -> Seq<TabView>;

/// Relies on `LinkedHashSet::new`: creates an empty set.
#[verifier::external_body]
pub(crate) fn tab_set_new() -> (s: LinkedHashSet<TabId>)
    ensures
        tab_set_elems(s) == Seq::<TabView>::empty(),
{
    LinkedHashSet::new()
}

/// Relies on `LinkedHashSet::contains`: reports whether an equal value is a
/// member.
#[verifier::external_body]
pub(crate) fn tab_set_contains(s: &LinkedHashSet<TabId>, t: &TabId) -> (r: bool)
    ensures
        r == tab_set_elems(*s).contains(t@),
{
    s.contains(t)
}

/// Relies on `LinkedHashSet::insert`: adds the value, placing it at the end
/// of the ordering whether or not an equal member was already present, and
/// returns whether it was newly inserted.
#[verifier::external_body]
pub(crate) fn tab_set_insert(s: &mut LinkedHashSet<TabId>, t: TabId) -> (r: bool)
    ensures
        tab_set_elems(*final(s)) == tab_set_elems(*old(s)).filter(
            |x: TabView| x != t@,
        ).push(t@),
        r == !tab_set_elems(*old(s)).contains(t@),
{
    s.insert(t)
}

/// Relies on `LinkedHashSet::remove`: removes the equal member if present,
/// without affecting the ordering of the others, and returns whether one was
/// present.
#[verifier::external_body]
pub(crate) fn tab_set_remove(s: &mut LinkedHashSet<TabId>, t: &TabId) -> (r: bool)
    ensures
        tab_set_elems(*final(s)) == tab_set_elems(*old(s)).filter(|x: TabView| x != t@),
        r == tab_set_elems(*old(s)).contains(t@),
{
    s.remove(t)
}

/// Relies on `LinkedHashSet::iter`: visits the members in insertion order.
#[verifier::external_body]
pub(crate) fn tab_set_to_vec(s: &LinkedHashSet<TabId>) -> (v: Vec<TabId>)
    ensures
        v.deep_view() == tab_set_elems(*s),
{
    s.iter().cloned().collect()
}

} // verus!
