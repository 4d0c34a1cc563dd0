//! The data cache: the last-fetched shelf list and the per-shelf item lists.
//!
//! The item lists are kept as an association list of groups, one per shelf
//! id, in first-seen order.  An unscoped item fetch rebuilds every group from
//! the flat response ([`DataCache::replace_all_items`]); a scoped fetch
//! replaces a single shelf's entry ([`DataCache::set_shelf_items`]).  A
//! failed fetch never reaches the cache: the caller simply does not call.

use vstd::prelude::*;

use crate::data::{ItemInfo, ItemInfoView, ShelfInfo, ShelfInfoView};

verus! {

/// The cached items of one shelf.
#[derive(Debug)]
pub struct ItemGroup {
    pub shelf_id: String,
    pub items: Vec<ItemInfo>,
}

/// Mathematical value of an [`ItemGroup`].
#[verifier::ext_equal]
pub struct ItemGroupView {
    pub shelf_id: Seq<char>,
    pub items: Seq<ItemInfoView>,
}

impl View for ItemGroup {
    type V = ItemGroupView;

    open spec fn view(&self) -> ItemGroupView {
        ItemGroupView { shelf_id: self.shelf_id@, items: self.items.deep_view() }
    }
}

impl DeepView for ItemGroup {
    type V = ItemGroupView;

    open spec fn deep_view(&self) -> ItemGroupView {
        self.view()
    }
}

/// Mathematical state of the cache.
#[verifier::ext_equal]
pub struct CacheView {
    pub shelves: Seq<ShelfInfoView>,
    pub groups: Seq<ItemGroupView>,
}

impl CacheView {
    /// Whether some group carries this shelf id.
    pub open spec fn has_group(self, sid: Seq<char>) -> bool {
        exists|k: int| 0 <= k < self.groups.len() && self.groups[k].shelf_id == sid
    }

    /// The index of the group carrying this shelf id.
    pub open spec fn group_index(self, sid: Seq<char>) -> int {
        choose|k: int| 0 <= k < self.groups.len() && self.groups[k].shelf_id == sid
    }

    /// No two groups carry the same shelf id.
    pub open spec fn wf(self) -> bool {
        forall|i: int, j: int|
            0 <= i < j < self.groups.len() ==> self.groups[i].shelf_id != self.groups[j].shelf_id
    }
}

/// The items of `flat` that sit on shelf `sid`, in their order of appearance.
pub open spec fn items_of_shelf(flat: Seq<ItemInfoView>, sid: Seq<char>) -> Seq<ItemInfoView> {
    flat.filter(|i: ItemInfoView| i.shelf_id == sid)
}

/// The distinct shelf ids appearing in `flat`, each at its first appearance.
pub open spec fn distinct_shelves(flat: Seq<ItemInfoView>) -> Seq<Seq<char>>
    decreases flat.len(),
{
    if flat.len() == 0 {
        Seq::empty()
    } else {
        let pre = distinct_shelves(flat.drop_last());
        if pre.contains(flat.last().shelf_id) {
            pre
        } else {
            pre.push(flat.last().shelf_id)
        }
    }
}

/// The flat item list regrouped by shelf id: one group per distinct shelf,
/// in first-seen order, each holding exactly that shelf's items in their
/// order of appearance.
pub open spec fn group_view(flat: Seq<ItemInfoView>) -> Seq<ItemGroupView> {
    distinct_shelves(flat).map_values(
        |sid: Seq<char>| ItemGroupView { shelf_id: sid, items: items_of_shelf(flat, sid) },
    )
}

/// How `items_of_shelf` acts on a list extended by one item.
pub proof fn lemma_items_of_shelf_push(s: Seq<ItemInfoView>, x: ItemInfoView, sid: Seq<char>)
    ensures
        x.shelf_id == sid ==> items_of_shelf(s.push(x), sid) == items_of_shelf(s, sid).push(x),
        x.shelf_id != sid ==> items_of_shelf(s.push(x), sid) == items_of_shelf(s, sid),
{
    reveal_with_fuel(Seq::<_>::filter, 1);
    assert(s.push(x).drop_last() =~= s);
    assert(s.push(x).last() == x);
}

/// The distinct shelf ids of `flat` are pairwise distinct.
pub proof fn lemma_distinct_shelves_distinct(flat: Seq<ItemInfoView>)
    ensures
        forall|i: int, j: int|
            0 <= i < j < distinct_shelves(flat).len() ==> distinct_shelves(flat)[i]
                != distinct_shelves(flat)[j],
    decreases flat.len(),
{
    if flat.len() > 0 {
        lemma_distinct_shelves_distinct(flat.drop_last());
        let pre = distinct_shelves(flat.drop_last());
        let out = distinct_shelves(flat);
        if !pre.contains(flat.last().shelf_id) {
            assert(forall|i: int| 0 <= i < pre.len() ==> out[i] == pre[i]);
            assert(forall|i: int| 0 <= i < pre.len() ==> pre[i] != flat.last().shelf_id);
        }
    }
}

/// Every item's shelf id appears among the distinct shelf ids.
pub proof fn lemma_distinct_shelves_complete(flat: Seq<ItemInfoView>)
    ensures
        forall|k: int|
            0 <= k < flat.len() ==> distinct_shelves(flat).contains(#[trigger] flat[k].shelf_id),
    decreases flat.len(),
{
    if flat.len() > 0 {
        lemma_distinct_shelves_complete(flat.drop_last());
        let pre = distinct_shelves(flat.drop_last());
        let out = distinct_shelves(flat);
        assert(forall|k: int| 0 <= k < flat.len() - 1 ==> flat.drop_last()[k] == flat[k]);
        assert forall|k: int| 0 <= k < flat.len() implies out.contains(
            #[trigger] flat[k].shelf_id,
        ) by {
            if k < flat.len() - 1 {
                assert(pre.contains(flat[k].shelf_id));
                let i = choose|i: int| 0 <= i < pre.len() && pre[i] == flat[k].shelf_id;
                if pre.contains(flat.last().shelf_id) {
                    assert(out[i] == flat[k].shelf_id);
                } else {
                    assert(out[i] == flat[k].shelf_id);
                }
            } else {
                if pre.contains(flat.last().shelf_id) {
                    let i = choose|i: int| 0 <= i < pre.len() && pre[i] == flat.last().shelf_id;
                    assert(out[i] == flat[k].shelf_id);
                } else {
                    assert(out[out.len() - 1] == flat[k].shelf_id);
                }
            }
        }
    }
}

/// A shelf id that no item carries selects no items.
pub proof fn lemma_items_of_absent_shelf_empty(flat: Seq<ItemInfoView>, sid: Seq<char>)
    requires
        forall|k: int| 0 <= k < flat.len() ==> (#[trigger] flat[k].shelf_id) != sid,
    ensures
        items_of_shelf(flat, sid) == Seq::<ItemInfoView>::empty(),
    decreases flat.len(),
{
    reveal_with_fuel(Seq::<_>::filter, 1);
    if flat.len() > 0 {
        assert(forall|k: int| 0 <= k < flat.len() - 1 ==> flat.drop_last()[k] == flat[k]);
        lemma_items_of_absent_shelf_empty(flat.drop_last(), sid);
        assert(flat[flat.len() - 1].shelf_id != sid);
    } else {
        assert(items_of_shelf(flat, sid) =~= Seq::<ItemInfoView>::empty());
    }
}

/// The regrouped list is well-formed: one group per shelf id.
pub proof fn lemma_group_view_wf(flat: Seq<ItemInfoView>)
    ensures
        forall|i: int, j: int|
            0 <= i < j < group_view(flat).len() ==> group_view(flat)[i].shelf_id != group_view(
                flat,
            )[j].shelf_id,
{
    lemma_distinct_shelves_distinct(flat);
}

/// Everything the groups hold, as a multiset: group order and group
/// boundaries forgotten, multiplicities kept.
pub open spec fn groups_contents(groups: Seq<ItemGroupView>) -> vstd::multiset::Multiset<
    ItemInfoView,
>
    decreases groups.len(),
{
    if groups.len() == 0 {
        vstd::multiset::Multiset::empty()
    } else {
        groups_contents(groups.drop_last()).add(groups.last().items.to_multiset())
    }
}

/// Replacing one group exchanges exactly that group's items in the
/// combined contents.
proof fn lemma_groups_contents_update(groups: Seq<ItemGroupView>, j: int, g2: ItemGroupView)
    requires
        0 <= j < groups.len(),
    ensures
        forall|y: ItemInfoView|
            #[trigger] groups_contents(groups.update(j, g2)).count(y)
                + groups[j].items.to_multiset().count(y) == groups_contents(groups).count(y)
                + g2.items.to_multiset().count(y),
    decreases groups.len(),
{
    broadcast use vstd::multiset::group_multiset_axioms;

    let up = groups.update(j, g2);
    let dl = groups.drop_last();
    if j == groups.len() - 1 {
        assert(up.drop_last() =~= dl);
        assert(up.last() == g2);
        assert(groups.last() == groups[j]);
        assert(groups_contents(up) == groups_contents(dl).add(g2.items.to_multiset()));
        assert(groups_contents(groups) == groups_contents(dl).add(
            groups[j].items.to_multiset(),
        ));
        assert forall|y: ItemInfoView|
            #[trigger] groups_contents(up).count(y) + groups[j].items.to_multiset().count(y)
                == groups_contents(groups).count(y) + g2.items.to_multiset().count(y) by {
            assert(groups_contents(up).count(y) == groups_contents(dl).count(y)
                + g2.items.to_multiset().count(y));
            assert(groups_contents(groups).count(y) == groups_contents(dl).count(y)
                + groups[j].items.to_multiset().count(y));
        }
    } else {
        let dlup = dl.update(j, g2);
        assert(up.drop_last() =~= dlup);
        assert(up.last() == groups.last());
        lemma_groups_contents_update(dl, j, g2);
        assert(dl[j] == groups[j]);
        assert(groups_contents(up) == groups_contents(dlup).add(
            groups.last().items.to_multiset(),
        ));
        assert(groups_contents(groups) == groups_contents(dl).add(
            groups.last().items.to_multiset(),
        ));
        assert forall|y: ItemInfoView|
            #[trigger] groups_contents(up).count(y) + groups[j].items.to_multiset().count(y)
                == groups_contents(groups).count(y) + g2.items.to_multiset().count(y) by {
            assert(groups_contents(dlup).count(y) + dl[j].items.to_multiset().count(y)
                == groups_contents(dl).count(y) + g2.items.to_multiset().count(y));
            assert(groups_contents(up).count(y) == groups_contents(dlup).count(y)
                + groups.last().items.to_multiset().count(y));
            assert(groups_contents(groups).count(y) == groups_contents(dl).count(y)
                + groups.last().items.to_multiset().count(y));
        }
    }
}

/// Appending a group adds exactly its items to the combined contents.
proof fn lemma_groups_contents_push(groups: Seq<ItemGroupView>, g: ItemGroupView)
    ensures
        groups_contents(groups.push(g)) == groups_contents(groups).add(g.items.to_multiset()),
{
    broadcast use vstd::multiset::group_multiset_axioms;

    assert(groups.push(g).drop_last() =~= groups);
    assert(groups.push(g).last() == g);
}

/// Grouping loses nothing and invents nothing: together, the groups of a
/// flat item list hold every item of the list exactly as often as the list
/// does — each item ends up in exactly one place.
pub proof fn lemma_group_view_partitions(flat: Seq<ItemInfoView>)
    ensures
        groups_contents(group_view(flat)) == flat.to_multiset(),
    decreases flat.len(),
{
    broadcast use vstd::seq_lib::group_to_multiset_ensures;
    broadcast use vstd::multiset::group_multiset_axioms;

    if flat.len() == 0 {
        assert(distinct_shelves(flat) == Seq::<Seq<char>>::empty());
        assert(group_view(flat) =~= Seq::<ItemGroupView>::empty());
        assert(groups_contents(group_view(flat)) =~= flat.to_multiset());
    } else {
        let d = flat.drop_last();
        let x = flat.last();
        lemma_group_view_partitions(d);
        assert(flat =~= d.push(x));
        let d0 = distinct_shelves(d);
        let sid = x.shelf_id;
        lemma_distinct_shelves_distinct(d);
        lemma_distinct_shelves_complete(d);
        assert forall|s: Seq<char>| true implies #[trigger] items_of_shelf(flat, s)
            == if sid == s {
            items_of_shelf(d, s).push(x)
        } else {
            items_of_shelf(d, s)
        } by {
            lemma_items_of_shelf_push(d, x, s);
        }
        let gv0 = group_view(d);
        let gv1 = group_view(flat);
        if d0.contains(sid) {
            let j = choose|j: int| 0 <= j < d0.len() && d0[j] == sid;
            assert(distinct_shelves(flat) == d0);
            let g2 = ItemGroupView { shelf_id: sid, items: items_of_shelf(d, sid).push(x) };
            assert forall|k: int| 0 <= k < gv1.len() implies gv1[k] == #[trigger] gv0.update(
                j,
                g2,
            )[k] by {
                if k == j {
                    assert(gv1[k] =~= g2);
                } else {
                    assert(d0[k] != sid);
                    assert(gv1[k] =~= gv0[k]);
                }
            }
            assert(gv1 =~= gv0.update(j, g2));
            lemma_groups_contents_update(gv0, j, g2);
            assert(gv0[j].items == items_of_shelf(d, sid));
            assert forall|y: ItemInfoView| true implies #[trigger] groups_contents(gv1).count(y)
                == flat.to_multiset().count(y) by {
                assert(g2.items.to_multiset() =~= items_of_shelf(d, sid).to_multiset().insert(x));
                assert(flat.to_multiset() =~= d.to_multiset().insert(x));
                assert(groups_contents(gv1).count(y) + items_of_shelf(d, sid).to_multiset().count(
                    y,
                ) == groups_contents(gv0).count(y) + g2.items.to_multiset().count(y));
            }
            assert(groups_contents(gv1) =~= flat.to_multiset());
        } else {
            assert(distinct_shelves(flat) == d0.push(sid));
            assert forall|k: int|
                0 <= k < d.len() implies (#[trigger] d[k].shelf_id) != sid by {
                assert(d0.contains(d[k].shelf_id));
                let ii = choose|ii: int| 0 <= ii < d0.len() && d0[ii] == d[k].shelf_id;
                assert(d0[ii] != sid);
            }
            lemma_items_of_absent_shelf_empty(d, sid);
            let g2 = ItemGroupView {
                shelf_id: sid,
                items: Seq::<ItemInfoView>::empty().push(x),
            };
            assert forall|k: int| 0 <= k < gv1.len() implies gv1[k] == #[trigger] gv0.push(
                g2,
            )[k] by {
                if k < gv0.len() {
                    assert(d0[k] != sid);
                    assert(gv1[k] =~= gv0[k]);
                } else {
                    assert(gv1[k] =~= g2);
                }
            }
            assert(gv1 =~= gv0.push(g2));
            lemma_groups_contents_push(gv0, g2);
            assert forall|y: ItemInfoView| true implies #[trigger] groups_contents(gv1).count(y)
                == flat.to_multiset().count(y) by {
                assert(g2.items.to_multiset() =~= Seq::<
                    ItemInfoView,
                >::empty().to_multiset().insert(x));
                assert(Seq::<ItemInfoView>::empty().to_multiset() =~= vstd::multiset::Multiset::<
                    ItemInfoView,
                >::empty());
                assert(flat.to_multiset() =~= d.to_multiset().insert(x));
            }
            assert(groups_contents(gv1) =~= flat.to_multiset());
        }
    }
}

/// The data cache.
pub struct DataCache {
    shelves: Vec<ShelfInfo>,
    groups: Vec<ItemGroup>,
}

impl View for DataCache {
    type V = CacheView;

    closed spec fn view(&self) -> CacheView {
        CacheView { shelves: self.shelves.deep_view(), groups: self.groups.deep_view() }
    }
}

/// The first group of `groups` carrying `sid`, if any.
fn find_group(groups: &Vec<ItemGroup>, sid: &String) -> (r: Option<usize>)
    ensures
        match r {
            Some(j) => {
                &&& j < groups.deep_view().len()
                &&& groups.deep_view()[j as int].shelf_id == sid@
                &&& forall|k: int| 0 <= k < j ==> groups.deep_view()[k].shelf_id != sid@
            },
            None => forall|k: int|
                0 <= k < groups.deep_view().len() ==> groups.deep_view()[k].shelf_id != sid@,
        },
{
    let ghost gdv = groups.deep_view();
    let mut j: usize = 0;
    while j < groups.len()
        invariant_except_break
            j <= groups.len(),
            groups.deep_view() == gdv,
            forall|k: int| 0 <= k < j ==> gdv[k].shelf_id != sid@,
        ensures
            groups.deep_view() == gdv,
            (j < groups.len() && gdv[j as int].shelf_id == sid@ && forall|k: int|
                0 <= k < j ==> gdv[k].shelf_id != sid@) || (j == groups.len() && forall|k: int|
                0 <= k < gdv.len() ==> gdv[k].shelf_id != sid@),
        decreases groups.len() - j,
    {
        if groups[j].shelf_id == *sid {
            break ;
        }
        j = j + 1;
    }
    if j < groups.len() {
        Some(j)
    } else {
        None
    }
}

impl DataCache {
    /// An empty cache: no shelves, no item groups.
    pub fn new() -> (c: DataCache)
        ensures
            c@.shelves == Seq::<ShelfInfoView>::empty(),
            c@.groups == Seq::<ItemGroupView>::empty(),
            c@.wf(),
    {
        let c = DataCache { shelves: Vec::new(), groups: Vec::new() };
        proof {
            assert(c@.shelves =~= Seq::<ShelfInfoView>::empty());
            assert(c@.groups =~= Seq::<ItemGroupView>::empty());
        }
        c
    }

    /// Replace the whole shelf list; the item groups are untouched.
    pub fn set_shelves(&mut self, shelves: Vec<ShelfInfo>)
        ensures
            final(self)@.shelves == shelves.deep_view(),
            final(self)@.groups == old(self)@.groups,
    {
        self.shelves = shelves;
    }

    /// Replace (or add) the entry of one shelf; every other entry is
    /// untouched.
    pub fn set_shelf_items(&mut self, shelf_id: String, items: Vec<ItemInfo>)
        ensures
            final(self)@.shelves == old(self)@.shelves,
            old(self)@.wf() && old(self)@.has_group(shelf_id@) ==> final(self)@.groups == old(
                self,
            )@.groups.update(
                old(self)@.group_index(shelf_id@),
                (ItemGroupView { shelf_id: shelf_id@, items: items.deep_view() }),
            ),
            !old(self)@.has_group(shelf_id@) ==> final(self)@.groups == old(self)@.groups.push(
                (ItemGroupView { shelf_id: shelf_id@, items: items.deep_view() }),
            ),
            old(self)@.wf() ==> final(self)@.wf(),
    {
        let ghost pre = self@;
        let ghost sidv = shelf_id@;
        let ghost idv = items.deep_view();
        let found = find_group(&self.groups, &shelf_id);
        match found {
            Some(j) => {
                let ghost jj = j as int;
                self.groups.remove(j);
                self.groups.insert(j, ItemGroup { shelf_id, items });
                proof {
                    assert(pre.groups[jj].shelf_id == sidv);
                    assert(pre.has_group(sidv));
                    if pre.wf() {
                        let k = pre.group_index(sidv);
                        assert(0 <= k < pre.groups.len() && pre.groups[k].shelf_id == sidv);
                        assert(k == jj);
                        assert(self@.groups =~= pre.groups.update(
                            jj,
                            (ItemGroupView { shelf_id: sidv, items: idv }),
                        ));
                    }
                }
            },
            None => {
                self.groups.push(ItemGroup { shelf_id, items });
                proof {
                    assert(self@.groups =~= pre.groups.push(
                        (ItemGroupView { shelf_id: sidv, items: idv }),
                    ));
                }
            },
        }
    }

    /// Rebuild every item group from a flat fetch of all items, grouping by
    /// shelf id: one group per distinct shelf in first-seen order, each
    /// holding exactly that shelf's items in their response order.  The
    /// shelf list is untouched.
    pub fn replace_all_items(&mut self, flat: Vec<ItemInfo>)
        ensures
            final(self)@.shelves == old(self)@.shelves,
            final(self)@.groups == group_view(flat.deep_view()),
            final(self)@.wf(),
    {
        let ghost flat_dv = flat.deep_view();
        let mut groups: Vec<ItemGroup> = Vec::new();
        proof {
            assert(flat_dv.take(0) =~= Seq::<ItemInfoView>::empty());
            assert(distinct_shelves(flat_dv.take(0)) == Seq::<Seq<char>>::empty());
            assert(groups.deep_view() =~= group_view(flat_dv.take(0)));
        }
        let mut i: usize = 0;
        while i < flat.len()
            invariant
                i <= flat.len(),
                flat.deep_view() == flat_dv,
                flat_dv.len() == flat.len(),
                groups.deep_view() == group_view(flat_dv.take(i as int)),
            decreases flat.len() - i,
        {
            let ghost f0 = flat_dv.take(i as int);
            let ghost f1 = flat_dv.take(i + 1);
            let ghost x = flat_dv[i as int];
            let ghost d0 = distinct_shelves(f0);
            proof {
                assert(f1.drop_last() =~= f0);
                assert(f1.last() == x);
                assert(f1 =~= f0.push(x));
                lemma_distinct_shelves_distinct(f0);
                lemma_distinct_shelves_complete(f0);
                assert forall|sid: Seq<char>| true implies #[trigger] items_of_shelf(f1, sid)
                    == if x.shelf_id == sid {
                    items_of_shelf(f0, sid).push(x)
                } else {
                    items_of_shelf(f0, sid)
                } by {
                    lemma_items_of_shelf_push(f0, x, sid);
                }
            }
            let item = flat[i].clone();
            let found = find_group(&groups, &item.shelf_id);
            let ghost gdv0 = groups.deep_view();
            match found {
                Some(j) => {
                    proof {
                        assert(gdv0[j as int] == group_view(f0)[j as int]);
                        assert(gdv0[j as int].shelf_id == d0[j as int]);
                        assert(gdv0[j as int].shelf_id == x.shelf_id);
                        assert(d0[j as int] == x.shelf_id);
                        assert(d0.contains(x.shelf_id));
                        assert(distinct_shelves(f1) == d0);
                    }
                    let mut g = groups.remove(j);
                    g.items.push(item);
                    proof {
                        assert(g@.items =~= gdv0[j as int].items.push(x));
                    }
                    groups.insert(j, g);
                    proof {
                        assert forall|k: int|
                            0 <= k < group_view(f1).len() implies groups.deep_view()[k]
                            == #[trigger] group_view(f1)[k] by {
                            assert(group_view(f1)[k] == (ItemGroupView {
                                shelf_id: d0[k],
                                items: items_of_shelf(f1, d0[k]),
                            }));
                            if k != j {
                                assert(d0[k] != d0[j as int]);
                                assert(d0[k] != x.shelf_id);
                                assert(items_of_shelf(f1, d0[k]) == items_of_shelf(f0, d0[k]));
                                assert(groups.deep_view()[k] == gdv0[k]);
                                assert(gdv0[k] == group_view(f0)[k]);
                                assert(groups.deep_view()[k] =~= group_view(f1)[k]);
                            } else {
                                assert(items_of_shelf(f1, d0[k]) == items_of_shelf(
                                    f0,
                                    d0[k],
                                ).push(x));
                                assert(groups.deep_view()[k] == g@);
                                assert(groups.deep_view()[k] =~= group_view(f1)[k]);
                            }
                        }
                        assert(groups.deep_view() =~= group_view(f1));
                    }
                },
                None => {
                    proof {
                        assert forall|k: int| 0 <= k < d0.len() implies (#[trigger] d0[k])
                            != x.shelf_id by {
                            assert(gdv0[k] == group_view(f0)[k]);
                            assert(gdv0[k].shelf_id == d0[k]);
                            assert(gdv0[k].shelf_id != x.shelf_id);
                        }
                        assert(!d0.contains(x.shelf_id));
                        assert(distinct_shelves(f1) == d0.push(x.shelf_id));
                        assert forall|k: int|
                            0 <= k < f0.len() implies (#[trigger] f0[k].shelf_id)
                            != x.shelf_id by {
                            assert(d0.contains(f0[k].shelf_id));
                            let ii = choose|ii: int|
                                0 <= ii < d0.len() && d0[ii] == f0[k].shelf_id;
                            assert(d0[ii] != x.shelf_id);
                        }
                        lemma_items_of_absent_shelf_empty(f0, x.shelf_id);
                    }
                    let sid = item.shelf_id.clone();
                    let mut single: Vec<ItemInfo> = Vec::new();
                    single.push(item);
                    groups.push(ItemGroup { shelf_id: sid, items: single });
                    proof {
                        let d1 = distinct_shelves(f1);
                        assert(single.deep_view() =~= seq![x]);
                        assert(items_of_shelf(f0, x.shelf_id) == Seq::<ItemInfoView>::empty());
                        assert(items_of_shelf(f1, x.shelf_id) == Seq::<
                            ItemInfoView,
                        >::empty().push(x));
                        assert(items_of_shelf(f1, x.shelf_id) =~= seq![x]);
                        assert forall|k: int|
                            0 <= k < group_view(f1).len() implies groups.deep_view()[k]
                            == #[trigger] group_view(f1)[k] by {
                            assert(group_view(f1)[k] == (ItemGroupView {
                                shelf_id: d1[k],
                                items: items_of_shelf(f1, d1[k]),
                            }));
                            if k < gdv0.len() {
                                assert(d1[k] == d0[k]);
                                assert(d0[k] != x.shelf_id);
                                assert(items_of_shelf(f1, d0[k]) == items_of_shelf(f0, d0[k]));
                                assert(groups.deep_view()[k] == gdv0[k]);
                                assert(gdv0[k] == group_view(f0)[k]);
                                assert(groups.deep_view()[k] =~= group_view(f1)[k]);
                            } else {
                                assert(k == gdv0.len());
                                assert(d1[k] == x.shelf_id);
                                assert(groups.deep_view()[k] =~= group_view(f1)[k]);
                            }
                        }
                        assert(gdv0.len() == d0.len());
                        assert(groups.deep_view().len() == gdv0.len() + 1);
                        assert(group_view(f1).len() == d0.len() + 1);
                        assert(groups.deep_view() =~= group_view(f1));
                    }
                },
            }
            i = i + 1;
        }
        proof {
            assert(flat_dv.take(flat_dv.len() as int) =~= flat_dv);
        }
        self.groups = groups;
        proof {
            lemma_group_view_wf(flat_dv);
        }
    }

    /// The cached shelf list.
    pub fn shelves(&self) -> (r: &Vec<ShelfInfo>)
        ensures
            r.deep_view() == self@.shelves,
    {
        &self.shelves
    }

    /// The cached item groups, in first-seen shelf order.
    pub fn groups(&self) -> (r: &Vec<ItemGroup>)
        ensures
            r.deep_view() == self@.groups,
    {
        &self.groups
    }

    /// The cached items of one shelf, if that shelf has an entry.
    pub fn items_for(&self, shelf_id: &String) -> (r: Option<&Vec<ItemInfo>>)
        ensures
            match r {
                Some(v) => self@.has_group(shelf_id@) && exists|k: int|
                    0 <= k < self@.groups.len() && self@.groups[k].shelf_id == shelf_id@
                        && v.deep_view() == self@.groups[k].items,
                None => !self@.has_group(shelf_id@),
            },
    {
        let found = find_group(&self.groups, shelf_id);
        match found {
            Some(j) => {
                let ghost k = j as int;
                let v = &self.groups[j].items;
                proof {
                    assert(0 <= k < self@.groups.len() && self@.groups[k].shelf_id == shelf_id@
                        && v.deep_view() == self@.groups[k].items);
                }
                Some(v)
            },
            None => None,
        }
    }
}

} // verus!
