//! The workspace registry: the insertion-ordered set of open tabs and the
//! navigation stack whose top is the currently rendered tab.
//!
//! The registry's behaviour is captured by the spec transition [`ws_step`]
//! over [`WorkspaceView`]; every executable operation promises to perform
//! exactly that transition.

use vstd::prelude::*;

use linked_hash_set::LinkedHashSet;

use crate::data::{TabId, TabView};
use crate::tabset::{
    tab_set_contains, tab_set_elems, tab_set_insert, tab_set_new, tab_set_remove, tab_set_to_vec,
};

verus! {

/// Mathematical state of the registry: open tabs in insertion order, and the
/// navigation history, most recent last.
#[verifier::ext_equal]
pub struct WorkspaceView {
    pub tabs: Seq<TabView>,
    pub stack: Seq<TabView>,
}

/// `s` with every occurrence of `t` removed.
pub open spec fn without(s: Seq<TabView>, t: TabView) -> Seq<TabView> {
    s.filter(|x: TabView| x != t)
}

/// One registry operation, as it acts on the mathematical state.
pub enum WorkspaceOp {
    /// Ensure the tab is registered (appending it if new).
    Open(TabView),
    /// Push the tab onto the navigation stack.
    Navigate(TabView),
    /// Remove a shelf tab everywhere; a no-op on the two singletons.
    Close(TabView),
}

/// The registry state at startup: the two singleton tabs, nothing visited.
pub open spec fn ws_init() -> WorkspaceView {
    WorkspaceView { tabs: seq![TabView::AllShelves, TabView::AllItems], stack: Seq::empty() }
}

/// How one operation transforms the registry state.
pub open spec fn ws_step(w: WorkspaceView, op: WorkspaceOp) -> WorkspaceView {
    match op {
        WorkspaceOp::Open(t) => WorkspaceView {
            tabs: if w.tabs.contains(t) {
                w.tabs
            } else {
                w.tabs.push(t)
            },
            stack: w.stack,
        },
        WorkspaceOp::Navigate(t) => WorkspaceView { tabs: w.tabs, stack: w.stack.push(t) },
        WorkspaceOp::Close(t) => match t {
            TabView::ShelfView(_) => WorkspaceView {
                tabs: without(w.tabs, t),
                stack: without(w.stack, t),
            },
            _ => w,
        },
    }
}

/// The registry state after a whole sequence of operations, oldest first.
pub open spec fn ws_run(ops: Seq<WorkspaceOp>) -> WorkspaceView
    decreases ops.len(),
{
    if ops.len() == 0 {
        ws_init()
    } else {
        ws_step(ws_run(ops.drop_last()), ops.last())
    }
}

impl WorkspaceView {
    /// The registry never loses the two singleton tabs, and never registers
    /// a tab twice.
    pub open spec fn wf(self) -> bool {
        &&& self.tabs.contains(TabView::AllShelves)
        &&& self.tabs.contains(TabView::AllItems)
        &&& forall|i: int, j: int|
            0 <= i < j < self.tabs.len() ==> self.tabs[i] != self.tabs[j]
    }

    /// The currently rendered tab: the top of the navigation stack, falling
    /// back to the shelf list when nothing was visited yet.
    pub open spec fn current(self) -> TabView {
        if self.stack.len() > 0 {
            self.stack.last()
        } else {
            TabView::AllShelves
        }
    }
}

/// Removing an element that does not occur leaves a sequence unchanged.
pub proof fn lemma_without_absent(s: Seq<TabView>, t: TabView)
    requires
        !s.contains(t),
    ensures
        without(s, t) == s,
    decreases s.len(),
{
    reveal_with_fuel(Seq::<_>::filter, 1);
    if s.len() > 0 {
        assert(forall|i: int| 0 <= i < s.len() - 1 ==> s.drop_last()[i] == s[i]);
        assert(!s.drop_last().contains(t));
        lemma_without_absent(s.drop_last(), t);
        assert(s[s.len() - 1] != t);
        assert(s.drop_last().push(s.last()) =~= s);
    } else {
        assert(without(s, t) =~= s);
    }
}

/// How `without` acts on a sequence extended by one element.
pub proof fn lemma_without_push(s: Seq<TabView>, x: TabView, t: TabView)
    ensures
        x != t ==> without(s.push(x), t) == without(s, t).push(x),
        x == t ==> without(s.push(x), t) == without(s, t),
{
    reveal_with_fuel(Seq::<_>::filter, 1);
    assert(s.push(x).drop_last() =~= s);
    assert(s.push(x).last() == x);
}

/// The workspace registry.
pub struct Workspace {
    tabs: LinkedHashSet<TabId>,
    navigation_stack: Vec<TabId>,
}

impl View for Workspace {
    type V = WorkspaceView;

    closed spec fn view(&self) -> WorkspaceView {
        WorkspaceView {
            tabs: tab_set_elems(self.tabs),
            stack: self.navigation_stack.deep_view(),
        }
    }
}

impl Workspace {
    /// The registry at startup: only the two singleton tabs, in that order,
    /// and an empty navigation stack.
    pub fn new() -> (w: Workspace)
        ensures
            w@ == ws_init(),
            w@.wf(),
    {
        let mut tabs = tab_set_new();
        proof {
            reveal_with_fuel(Seq::<_>::filter, 1);
        }
        tab_set_insert(&mut tabs, TabId::AllShelves);
        proof {
            assert(tab_set_elems(tabs) =~= seq![TabView::AllShelves]);
            lemma_without_absent(seq![TabView::AllShelves], TabView::AllItems);
        }
        tab_set_insert(&mut tabs, TabId::AllItems);
        let w = Workspace { tabs, navigation_stack: Vec::new() };
        proof {
            assert(w@.tabs =~= ws_init().tabs);
            assert(w@.stack =~= ws_init().stack);
            assert(w@ =~= ws_init());
        }
        w
    }

    /// Whether a tab is registered.
    pub fn contains(&self, tab: &TabId) -> (r: bool)
        ensures
            r == self@.tabs.contains(tab@),
    {
        tab_set_contains(&self.tabs, tab)
    }

    /// Register a tab if it is new, appending it to the tab order; a tab
    /// already present keeps its place.
    pub fn open(&mut self, tab: TabId)
        ensures
            final(self)@ == ws_step(old(self)@, WorkspaceOp::Open(tab@)),
    {
        let ghost pre = self@;
        if !tab_set_contains(&self.tabs, &tab) {
            let ghost t = tab@;
            tab_set_insert(&mut self.tabs, tab);
            proof {
                lemma_without_absent(pre.tabs, t);
                assert(self@ =~= ws_step(pre, WorkspaceOp::Open(t)));
            }
        } else {
            proof {
                assert(self@ =~= ws_step(pre, WorkspaceOp::Open(tab@)));
            }
        }
    }

    /// Record a visit: push the tab onto the navigation stack.  The tab
    /// order is untouched.
    pub fn navigate_to(&mut self, tab: TabId)
        ensures
            final(self)@ == ws_step(old(self)@, WorkspaceOp::Navigate(tab@)),
    {
        let ghost pre = self@;
        let ghost t = tab@;
        self.navigation_stack.push(tab);
        proof {
            assert(self.navigation_stack.deep_view() =~= pre.stack.push(t));
            assert(self@ =~= ws_step(pre, WorkspaceOp::Navigate(t)));
        }
    }

    /// Close a shelf tab: deregister it and drop every occurrence of it from
    /// the navigation stack, not only the most recent.  Closing `AllShelves`
    /// or `AllItems` does nothing.
    pub fn close(&mut self, tab: &TabId)
        ensures
            final(self)@ == ws_step(old(self)@, WorkspaceOp::Close(tab@)),
    {
        let ghost pre = self@;
        let ghost t = tab@;
        match tab {
            TabId::AllShelves | TabId::AllItems => {
            },
            TabId::ShelfView(_) => {
                tab_set_remove(&mut self.tabs, tab);
                let ghost stack0 = pre.stack;
                let mut kept: Vec<TabId> = Vec::new();
                let mut i: usize = 0;
                while i < self.navigation_stack.len()
                    invariant
                        i <= self.navigation_stack.len(),
                        self.navigation_stack.deep_view() == stack0,
                        tab@ == t,
                        kept.deep_view() == without(stack0.take(i as int), t),
                    decreases self.navigation_stack.len() - i,
                {
                    proof {
                        assert(stack0.take(i + 1) =~= stack0.take(i as int).push(stack0[i as int]));
                        lemma_without_push(stack0.take(i as int), stack0[i as int], t);
                        assert(stack0[i as int] == self.navigation_stack[i as int]@);
                    }
                    let ghost kept0 = kept.deep_view();
                    if !(self.navigation_stack[i] == *tab) {
                        kept.push(self.navigation_stack[i].clone());
                        proof {
                            assert(kept.deep_view() =~= kept0.push(stack0[i as int]));
                        }
                    }
                    i = i + 1;
                }
                proof {
                    assert(stack0.take(stack0.len() as int) =~= stack0);
                }
                self.navigation_stack = kept;
                proof {
                    assert(self@ =~= ws_step(pre, WorkspaceOp::Close(t)));
                }
            },
        }
    }

    /// The currently rendered tab: the most recent entry of the navigation
    /// stack, or `AllShelves` when nothing was visited yet.
    pub fn current(&self) -> (tab: TabId)
        ensures
            tab@ == self@.current(),
    {
        let n = self.navigation_stack.len();
        if n == 0 {
            TabId::AllShelves
        } else {
            self.navigation_stack[n - 1].clone()
        }
    }

    /// The registered tabs, in insertion order.
    pub fn tabs_in_order(&self) -> (v: Vec<TabId>)
        ensures
            v.deep_view() == self@.tabs,
    {
        tab_set_to_vec(&self.tabs)
    }
}

/// What `without` holds: exactly the elements of `s` other than `t`.
pub proof fn lemma_without_contains(s: Seq<TabView>, t: TabView)
    ensures
        forall|x: TabView| #[trigger] without(s, t).contains(x) <==> (s.contains(x) && x != t),
    decreases s.len(),
{
    reveal_with_fuel(Seq::<_>::filter, 1);
    let out = without(s, t);
    if s.len() > 0 {
        let d = s.drop_last();
        assert(forall|i: int| 0 <= i < d.len() ==> d[i] == s[i]);
        lemma_without_contains(d, t);
        let out0 = without(d, t);
        assert forall|x: TabView| #[trigger] out.contains(x) implies (s.contains(x) && x
            != t) by {
            let i = choose|i: int| 0 <= i < out.len() && out[i] == x;
            if i < out0.len() {
                assert(out0[i] == x);
                assert(out0.contains(x));
                let i2 = choose|i2: int| 0 <= i2 < d.len() && d[i2] == x;
                assert(s[i2] == x);
            } else {
                assert(x == s.last() && s.last() != t);
                assert(s[s.len() - 1] == x);
            }
        }
        assert forall|x: TabView| s.contains(x) && x != t implies #[trigger] out.contains(x) by {
            let i = choose|i: int| 0 <= i < s.len() && s[i] == x;
            if i < d.len() {
                assert(d[i] == x);
                assert(d.contains(x));
                assert(out0.contains(x));
                let i2 = choose|i2: int| 0 <= i2 < out0.len() && out0[i2] == x;
                assert(out[i2] == x);
            } else {
                assert(x == s.last());
                assert(out[out.len() - 1] == x);
            }
        }
    } else {
        assert(out =~= s);
    }
}

/// `without` never introduces a duplicate.
proof fn lemma_without_distinct(s: Seq<TabView>, t: TabView)
    requires
        forall|i: int, j: int| 0 <= i < j < s.len() ==> s[i] != s[j],
    ensures
        forall|i: int, j: int|
            0 <= i < j < without(s, t).len() ==> without(s, t)[i] != without(s, t)[j],
    decreases s.len(),
{
    reveal_with_fuel(Seq::<_>::filter, 1);
    if s.len() > 0 {
        let d = s.drop_last();
        assert(forall|i: int| 0 <= i < d.len() ==> d[i] == s[i]);
        lemma_without_distinct(d, t);
        lemma_without_contains(d, t);
        let out0 = without(d, t);
        if s.last() != t {
            assert(without(s, t) == out0.push(s.last()));
            assert(!d.contains(s.last()));
            assert(!out0.contains(s.last()));
            assert forall|i: int, j: int|
                0 <= i < j < without(s, t).len() implies without(s, t)[i] != without(
                s,
                t,
            )[j] by {
                if j < out0.len() {
                } else {
                    assert(without(s, t)[j] == s.last());
                    assert(without(s, t)[i] == out0[i]);
                    assert(out0.contains(out0[i]));
                }
            }
        }
    }
}

/// One step preserves well-formedness: the singleton tabs survive every
/// operation, and no tab is ever registered twice.
pub proof fn lemma_ws_step_wf(w: WorkspaceView, op: WorkspaceOp)
    requires
        w.wf(),
    ensures
        ws_step(w, op).wf(),
{
    broadcast use vstd::seq_lib::group_filter_ensures;

    match op {
        WorkspaceOp::Open(t) => {
            if !w.tabs.contains(t) {
                assert(forall|i: int| 0 <= i < w.tabs.len() ==> w.tabs.push(t)[i] == w.tabs[i]);
                assert(w.tabs.push(t).contains(TabView::AllShelves)) by {
                    let i = choose|i: int|
                        0 <= i < w.tabs.len() && w.tabs[i] == TabView::AllShelves;
                    assert(w.tabs.push(t)[i] == TabView::AllShelves);
                }
                assert(w.tabs.push(t).contains(TabView::AllItems)) by {
                    let i = choose|i: int| 0 <= i < w.tabs.len() && w.tabs[i] == TabView::AllItems;
                    assert(w.tabs.push(t)[i] == TabView::AllItems);
                }
            }
        },
        WorkspaceOp::Navigate(t) => {
        },
        WorkspaceOp::Close(t) => {
            match t {
                TabView::ShelfView(_) => {
                    lemma_without_contains(w.tabs, t);
                    lemma_without_distinct(w.tabs, t);
                },
                _ => {
                },
            }
        },
    }
}

/// Whatever sequence of operations is applied, the registry is well
/// formed: `AllShelves` and `AllItems` are present — open and close never
/// remove them — and no tab is registered twice.
pub proof fn lemma_ws_run_wf(ops: Seq<WorkspaceOp>)
    ensures
        ws_run(ops).wf(),
    decreases ops.len(),
{
    if ops.len() == 0 {
        assert(ws_init().tabs[0] == TabView::AllShelves);
        assert(ws_init().tabs[1] == TabView::AllItems);
    } else {
        lemma_ws_run_wf(ops.drop_last());
        lemma_ws_step_wf(ws_run(ops.drop_last()), ops.last());
    }
}

/// Closing a shelf tab removes every occurrence of it from the navigation
/// stack and from the registered tabs, not only the most recent.
pub proof fn lemma_close_removes_every_occurrence(w: WorkspaceView, sid: Seq<char>)
    ensures
        ws_step(w, WorkspaceOp::Close(TabView::ShelfView(sid))).stack == without(
            w.stack,
            TabView::ShelfView(sid),
        ),
        forall|k: int|
            0 <= k < ws_step(w, WorkspaceOp::Close(TabView::ShelfView(sid))).stack.len()
                ==> ws_step(w, WorkspaceOp::Close(TabView::ShelfView(sid))).stack[k]
                != TabView::ShelfView(sid),
        forall|k: int|
            0 <= k < ws_step(w, WorkspaceOp::Close(TabView::ShelfView(sid))).tabs.len()
                ==> ws_step(w, WorkspaceOp::Close(TabView::ShelfView(sid))).tabs[k]
                != TabView::ShelfView(sid),
{
    let t = TabView::ShelfView(sid);
    lemma_without_contains(w.stack, t);
    lemma_without_contains(w.tabs, t);
    assert forall|k: int|
        0 <= k < without(w.stack, t).len() implies without(w.stack, t)[k] != t by {
        assert(without(w.stack, t).contains(without(w.stack, t)[k]));
    }
    assert forall|k: int| 0 <= k < without(w.tabs, t).len() implies without(w.tabs, t)[k] != t by {
        assert(without(w.tabs, t).contains(without(w.tabs, t)[k]));
    }
}

/// Whether the operation closes the shelf tab `t` (closing a singleton tab
/// is a no-op and closes nothing).
pub open spec fn closes(op: WorkspaceOp, t: TabView) -> bool {
    op == WorkspaceOp::Close(t) && t is ShelfView
}

/// Whether some operation after `i` closes the tab `t`.
pub open spec fn closed_later(ops: Seq<WorkspaceOp>, i: int, t: TabView) -> bool {
    exists|j: int| i < j < ops.len() && closes(#[trigger] ops[j], t)
}

/// Whether the operation at `i` is a navigation whose tab is never closed
/// afterwards.
pub open spec fn surviving_nav(ops: Seq<WorkspaceOp>, i: int) -> bool {
    0 <= i < ops.len() && (ops[i] matches WorkspaceOp::Navigate(t) && !closed_later(ops, i, t))
}

/// Whether `i` points at the latest navigation of a tab that was never
/// closed afterwards, and that navigation visits `t`.
pub open spec fn is_latest_surviving_nav(ops: Seq<WorkspaceOp>, i: int, t: TabView) -> bool {
    &&& 0 <= i < ops.len()
    &&& ops[i] == WorkspaceOp::Navigate(t)
    &&& !closed_later(ops, i, t)
    &&& forall|j: int| i < j < ops.len() ==> !surviving_nav(ops, j)
}

/// How `closed_later` relates to the same question about one fewer
/// operation.
proof fn lemma_closed_later_push(ops: Seq<WorkspaceOp>, i: int, t: TabView)
    requires
        ops.len() > 0,
        0 <= i,
    ensures
        closed_later(ops, i, t) <==> (closed_later(ops.drop_last(), i, t) || (i < ops.len() - 1
            && closes(ops.last(), t))),
{
    let pre = ops.drop_last();
    assert(forall|j: int| 0 <= j < pre.len() ==> pre[j] == ops[j]);
    if closed_later(ops, i, t) {
        let j = choose|j: int| i < j < ops.len() && closes(#[trigger] ops[j], t);
        if j < ops.len() - 1 {
            assert(closes(pre[j], t));
        } else {
            assert(closes(ops.last(), t));
        }
    }
    if closed_later(pre, i, t) {
        let j = choose|j: int| i < j < pre.len() && closes(#[trigger] pre[j], t);
        assert(closes(ops[j], t));
    }
    if i < ops.len() - 1 && closes(ops.last(), t) {
        assert(closes(ops[ops.len() - 1], t));
    }
}

/// The indices of `idx` whose paired stack entry differs from `t`, kept in
/// order.
spec fn keep_indices(stack: Seq<TabView>, idx: Seq<int>, t: TabView) -> Seq<int>
    decreases stack.len(),
{
    if stack.len() == 0 {
        Seq::empty()
    } else {
        let pre = keep_indices(stack.drop_last(), idx.drop_last(), t);
        if stack.last() == t {
            pre
        } else {
            pre.push(idx.last())
        }
    }
}

/// What `keep_indices` gives: witnesses aligned with the filtered stack, in
/// the same strictly increasing order, covering every kept entry.
proof fn lemma_keep_indices(stack: Seq<TabView>, idx: Seq<int>, t: TabView)
    requires
        idx.len() == stack.len(),
        forall|k1: int, k2: int| 0 <= k1 < k2 < idx.len() ==> idx[k1] < idx[k2],
    ensures
        keep_indices(stack, idx, t).len() == without(stack, t).len(),
        forall|k: int|
            0 <= k < keep_indices(stack, idx, t).len() ==> exists|k0: int|
                0 <= k0 < stack.len() && idx[k0] == #[trigger] keep_indices(stack, idx, t)[k]
                    && stack[k0] == without(stack, t)[k],
        forall|k1: int, k2: int|
            0 <= k1 < k2 < keep_indices(stack, idx, t).len() ==> keep_indices(stack, idx, t)[k1]
                < keep_indices(stack, idx, t)[k2],
        forall|k0: int|
            0 <= k0 < stack.len() && stack[k0] != t ==> keep_indices(stack, idx, t).contains(
                #[trigger] idx[k0],
            ),
    decreases stack.len(),
{
    reveal_with_fuel(Seq::<_>::filter, 1);
    let kept = keep_indices(stack, idx, t);
    let out = without(stack, t);
    if stack.len() == 0 {
        assert(out =~= stack);
    } else {
        let d = stack.drop_last();
        let di = idx.drop_last();
        assert(forall|k: int| 0 <= k < d.len() ==> d[k] == stack[k]);
        assert(forall|k: int| 0 <= k < di.len() ==> di[k] == idx[k]);
        lemma_keep_indices(d, di, t);
        let kept0 = keep_indices(d, di, t);
        let out0 = without(d, t);
        if stack.last() == t {
            assert(kept == kept0);
            assert(out == out0);
            assert forall|k0: int|
                0 <= k0 < stack.len() && stack[k0] != t implies kept.contains(
                #[trigger] idx[k0],
            ) by {
                assert(k0 < d.len());
                assert(kept0.contains(di[k0]));
            }
            assert forall|k: int| 0 <= k < kept.len() implies exists|k0: int|
                0 <= k0 < stack.len() && idx[k0] == #[trigger] kept[k] && stack[k0]
                    == out[k] by {
                let k0 = choose|k0: int| 0 <= k0 < d.len() && di[k0] == kept0[k] && d[k0]
                    == out0[k];
                assert(0 <= k0 < stack.len() && idx[k0] == kept[k] && stack[k0] == out[k]);
            }
        } else {
            assert(kept == kept0.push(idx.last()));
            assert(out == out0.push(stack.last()));
            assert forall|k: int| 0 <= k < kept.len() implies exists|k0: int|
                0 <= k0 < stack.len() && idx[k0] == #[trigger] kept[k] && stack[k0]
                    == out[k] by {
                if k < kept0.len() {
                    let k0 = choose|k0: int| 0 <= k0 < d.len() && di[k0] == kept0[k] && d[k0]
                        == out0[k];
                    assert(kept[k] == kept0[k]);
                    assert(out[k] == out0[k]);
                    assert(0 <= k0 < stack.len() && idx[k0] == kept[k] && stack[k0] == out[k]);
                } else {
                    let k0 = stack.len() - 1;
                    assert(idx[k0] == kept[k] && stack[k0] == out[k]);
                }
            }
            assert forall|k1: int, k2: int|
                0 <= k1 < k2 < kept.len() implies kept[k1] < kept[k2] by {
                if k2 < kept0.len() {
                } else {
                    assert(kept[k2] == idx.last());
                    let k0 = choose|k0: int| 0 <= k0 < d.len() && di[k0] == kept0[k1] && d[k0]
                        == out0[k1];
                    assert(idx[k0] < idx[idx.len() - 1]);
                    assert(kept[k1] == idx[k0]);
                }
            }
            assert forall|k0: int|
                0 <= k0 < stack.len() && stack[k0] != t implies kept.contains(
                #[trigger] idx[k0],
            ) by {
                if k0 < d.len() {
                    assert(kept0.contains(di[k0]));
                    let k = choose|k: int| 0 <= k < kept0.len() && kept0[k] == di[k0];
                    assert(kept[k] == idx[k0]);
                } else {
                    assert(kept[kept.len() - 1] == idx[k0]);
                }
            }
        }
    }
}

/// Every stack entry is witnessed by a navigation of that tab that was not
/// closed afterwards; the witnesses are in stack order, and every such
/// navigation is witnessed.
proof fn lemma_stack_witnesses(ops: Seq<WorkspaceOp>) -> (idx: Seq<int>)
    ensures
        idx.len() == ws_run(ops).stack.len(),
        forall|k: int|
            0 <= k < idx.len() ==> 0 <= #[trigger] idx[k] < ops.len() && ops[idx[k]]
                == WorkspaceOp::Navigate(ws_run(ops).stack[k]) && !closed_later(
                ops,
                idx[k],
                ws_run(ops).stack[k],
            ),
        forall|k1: int, k2: int| 0 <= k1 < k2 < idx.len() ==> idx[k1] < idx[k2],
        forall|i: int| surviving_nav(ops, i) ==> idx.contains(i),
    decreases ops.len(),
{
    if ops.len() == 0 {
        assert(ws_run(ops).stack.len() == 0);
        Seq::empty()
    } else {
        let pre = ops.drop_last();
        let idx0 = lemma_stack_witnesses(pre);
        let w0 = ws_run(pre);
        let w1 = ws_run(ops);
        assert(w1 == ws_step(w0, ops.last()));
        assert(forall|j: int| 0 <= j < pre.len() ==> pre[j] == ops[j]);
        assert forall|i: int, t: TabView| 0 <= i implies #[trigger] closed_later(ops, i, t) == (
        closed_later(pre, i, t) || (i < ops.len() - 1 && closes(ops.last(), t))) by {
            lemma_closed_later_push(ops, i, t);
        }
        match ops.last() {
            WorkspaceOp::Open(_) => {
                assert(w1.stack == w0.stack);
                assert forall|i: int| surviving_nav(ops, i) implies idx0.contains(i) by {
                    assert(i < ops.len() - 1);
                    assert(surviving_nav(pre, i));
                }
                idx0
            },
            WorkspaceOp::Navigate(t) => {
                let idx = idx0.push(ops.len() - 1);
                assert(w1.stack == w0.stack.push(t));
                assert(forall|k: int| 0 <= k < idx0.len() ==> idx[k] == idx0[k]);
                assert(forall|k: int| 0 <= k < w0.stack.len() ==> w1.stack[k] == w0.stack[k]);
                assert(idx[idx.len() - 1] == ops.len() - 1);
                assert(ops[ops.len() - 1] == WorkspaceOp::Navigate(t));
                assert(w1.stack[idx.len() - 1] == t);
                assert(!closed_later(ops, ops.len() - 1, t));
                assert forall|i: int| surviving_nav(ops, i) implies idx.contains(i) by {
                    if i < ops.len() - 1 {
                        assert(surviving_nav(pre, i));
                        assert(idx0.contains(i));
                        let k = choose|k: int| 0 <= k < idx0.len() && idx0[k] == i;
                        assert(idx[k] == i);
                    } else {
                        assert(idx[idx.len() - 1] == i);
                    }
                }
                idx
            },
            WorkspaceOp::Close(t) => {
                match t {
                    TabView::ShelfView(_) => {
                        let idx = keep_indices(w0.stack, idx0, t);
                        lemma_keep_indices(w0.stack, idx0, t);
                        lemma_without_contains(w0.stack, t);
                        assert(w1.stack == without(w0.stack, t));
                        assert forall|k: int|
                            0 <= k < idx.len() implies 0 <= #[trigger] idx[k] < ops.len()
                            && ops[idx[k]] == WorkspaceOp::Navigate(w1.stack[k])
                            && !closed_later(ops, idx[k], w1.stack[k]) by {
                            let k0 = choose|k0: int|
                                0 <= k0 < w0.stack.len() && idx0[k0] == idx[k] && w0.stack[k0]
                                    == w1.stack[k];
                            assert(without(w0.stack, t).contains(w1.stack[k]));
                            assert(w1.stack[k] != t);
                            assert(!closed_later(pre, idx0[k0], w0.stack[k0]));
                            assert(!closes(ops.last(), w1.stack[k]));
                        }
                        assert forall|i: int| surviving_nav(ops, i) implies idx.contains(i) by {
                            assert(i < ops.len() - 1);
                            let u = ops[i]->Navigate_0;
                            assert(!closes(ops.last(), u));
                            assert(u != t);
                            assert(surviving_nav(pre, i));
                            assert(idx0.contains(i));
                            let k0 = choose|k0: int| 0 <= k0 < idx0.len() && idx0[k0] == i;
                            assert(ops[idx0[k0]] == WorkspaceOp::Navigate(w0.stack[k0]));
                            assert(w0.stack[k0] == u);
                            assert(idx.contains(idx0[k0]));
                        }
                        idx
                    },
                    _ => {
                        assert(w1 == w0);
                        assert forall|i: int| surviving_nav(ops, i) implies idx0.contains(i) by {
                            assert(i < ops.len() - 1);
                            let u = ops[i]->Navigate_0;
                            assert(!closes(ops.last(), u));
                            assert(surviving_nav(pre, i));
                        }
                        idx0
                    },
                }
            },
        }
    }
}

/// After any sequence of operations the currently rendered tab is the one
/// most recently navigated to and not closed since; when nothing visited
/// survives, it is `AllShelves`.
pub proof fn lemma_current_is_latest_surviving(ops: Seq<WorkspaceOp>)
    ensures
        ws_run(ops).stack.len() == 0 ==> ws_run(ops).current() == TabView::AllShelves,
        ws_run(ops).stack.len() > 0 ==> exists|i: int|
            is_latest_surviving_nav(ops, i, ws_run(ops).current()),
{
    let idx = lemma_stack_witnesses(ops);
    let w = ws_run(ops);
    if w.stack.len() > 0 {
        let i = idx[idx.len() - 1];
        assert(ops[i] == WorkspaceOp::Navigate(w.stack[idx.len() - 1]));
        assert(w.current() == w.stack.last());
        assert forall|j: int| i < j < ops.len() implies !surviving_nav(ops, j) by {
            if surviving_nav(ops, j) {
                assert(idx.contains(j));
                let k = choose|k: int| 0 <= k < idx.len() && idx[k] == j;
                if k < idx.len() - 1 {
                    assert(idx[k] < idx[idx.len() - 1]);
                }
                assert(false);
            }
        }
        assert(is_latest_surviving_nav(ops, i, w.current()));
    }
}

} // verus!
