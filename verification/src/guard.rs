//! The connection guard: exclusive, borrow-and-return access to the one
//! optional connection handle, with lazy re-establishment.
//!
//! The guard itself is bookkeeping: the driver holds the real handle and the
//! asynchronous lock, and consults this state machine for every decision —
//! whether an acquire may proceed, whether a connection must first be
//! established, and what becomes of the slot when the borrower returns.  The
//! trace lemmas at the bottom state the exclusivity guarantee: no run of
//! operations ever sees two borrowers at once.

use vstd::prelude::*;

verus! {

/// Mathematical state of the guard: whether the slot is currently borrowed,
/// and whether it holds an established handle.
#[verifier::ext_equal]
pub struct GuardView {
    pub locked: bool,
    pub present: bool,
}

/// What an acquire attempt decides.
#[derive(Debug, PartialEq, Eq, Structural)]
pub enum AcquireOutcome {
    /// Another borrower holds the slot; wait and try again.
    Busy,
    /// The slot is now borrowed and a handle is present: use it.
    Ready,
    /// The slot is now borrowed but empty: establish a connection first.
    NeedConnect,
}

/// One guard operation, as it acts on the mathematical state.
pub enum GuardOp {
    /// An acquire attempt.
    Acquire,
    /// The establishment attempt of a borrower that found the slot empty
    /// came back, successfully or not.
    ConnectFinished(bool),
    /// The borrower returned the slot; `true` means its operation failed
    /// with a fatal connection-level fault, so the handle is discarded.
    Release(bool),
}

/// How one operation transforms the guard state.
pub open spec fn g_step(g: GuardView, op: GuardOp) -> GuardView {
    match op {
        GuardOp::Acquire => if g.locked {
            g
        } else {
            GuardView { locked: true, present: g.present }
        },
        GuardOp::ConnectFinished(ok) => if g.locked && !g.present {
            if ok {
                GuardView { locked: true, present: true }
            } else {
                GuardView { locked: false, present: false }
            }
        } else {
            g
        },
        GuardOp::Release(fatal) => if g.locked {
            GuardView { locked: false, present: !fatal && g.present }
        } else {
            g
        },
    }
}

/// The guard state at startup: unlocked, no handle.
pub open spec fn g_init() -> GuardView {
    GuardView { locked: false, present: false }
}

/// The guard state after a whole sequence of operations, oldest first.
pub open spec fn g_run(ops: Seq<GuardOp>) -> GuardView
    decreases ops.len(),
{
    if ops.len() == 0 {
        g_init()
    } else {
        g_step(g_run(ops.drop_last()), ops.last())
    }
}

/// How many borrowers hold the slot in state `g`.
pub open spec fn holders(g: GuardView) -> int {
    if g.locked {
        1
    } else {
        0
    }
}

/// Whether the operation at `i` of `ops` was a granted acquire: an acquire
/// attempted while no borrower held the slot.
pub open spec fn granted_at(ops: Seq<GuardOp>, i: int) -> bool {
    &&& ops[i] matches GuardOp::Acquire
    &&& !g_run(ops.take(i)).locked
}

/// Whether the operation releases the slot when it is held: a return of the
/// slot, or a failed establishment (which abandons the borrow).
pub open spec fn unlocks(op: GuardOp) -> bool {
    match op {
        GuardOp::Release(_) => true,
        GuardOp::ConnectFinished(ok) => !ok,
        GuardOp::Acquire => false,
    }
}

/// The guard never has two borrowers: in every reachable state the holder
/// count is at most one, and an acquire attempted while the slot is held is
/// refused and changes nothing.
pub proof fn lemma_at_most_one_holder(ops: Seq<GuardOp>)
    ensures
        0 <= holders(g_run(ops)) <= 1,
        g_run(ops).locked ==> g_step(g_run(ops), GuardOp::Acquire) == g_run(ops),
{
}

/// While the borrow taken at `i` is not released, the lock stays held.
proof fn lemma_lock_persists(ops: Seq<GuardOp>, i: int, j: int)
    requires
        0 <= i < j <= ops.len(),
        g_run(ops.take(i + 1)).locked,
        forall|r: int| i < r < j ==> !unlocks(#[trigger] ops[r]),
    ensures
        g_run(ops.take(j)).locked,
    decreases j - i,
{
    if j == i + 1 {
    } else {
        lemma_lock_persists(ops, i, j - 1);
        assert(ops.take(j).drop_last() =~= ops.take(j - 1));
        assert(ops.take(j).last() == ops[j - 1]);
        assert(!unlocks(ops[j - 1]));
    }
}

/// Two granted acquires are always separated by a release: between any two
/// operations that both obtained the slot there is one that gave it up, so
/// no two borrowers ever observe the handle simultaneously.
pub proof fn lemma_exclusive_grants(ops: Seq<GuardOp>, i: int, j: int)
    requires
        0 <= i < j < ops.len(),
        granted_at(ops, i),
        granted_at(ops, j),
    ensures
        exists|r: int| i < r < j && unlocks(#[trigger] ops[r]),
{
    assert(ops.take(i + 1).drop_last() =~= ops.take(i));
    assert(ops.take(i + 1).last() == ops[i]);
    assert(g_run(ops.take(i + 1)).locked);
    if forall|r: int| i < r < j ==> !unlocks(#[trigger] ops[r]) {
        lemma_lock_persists(ops, i, j);
        assert(g_run(ops.take(j)).locked);
        assert(false);
    }
}

/// The connection guard.
pub struct ConnectionGuard {
    locked: bool,
    present: bool,
}

impl View for ConnectionGuard {
    type V = GuardView;

    closed spec fn view(&self) -> GuardView {
        GuardView { locked: self.locked, present: self.present }
    }
}

impl ConnectionGuard {
    /// The guard at startup: slot free and empty.
    pub fn new() -> (g: ConnectionGuard)
        ensures
            g@ == g_init(),
    {
        ConnectionGuard { locked: false, present: false }
    }

    /// Whether the slot currently holds an established handle.
    pub fn handle_present(&self) -> (r: bool)
        ensures
            r == self@.present,
    {
        self.present
    }

    /// Whether a borrower currently holds the slot.
    pub fn is_borrowed(&self) -> (r: bool)
        ensures
            r == self@.locked,
    {
        self.locked
    }

    /// Attempt to take exclusive possession of the slot.  Refused while
    /// another borrower holds it; otherwise the slot becomes borrowed, and
    /// the outcome says whether a connection must first be established.
    pub fn try_acquire(&mut self) -> (r: AcquireOutcome)
        ensures
            final(self)@ == g_step(old(self)@, GuardOp::Acquire),
            r == AcquireOutcome::Busy <==> old(self)@.locked,
            r == AcquireOutcome::Ready <==> !old(self)@.locked && old(self)@.present,
            r == AcquireOutcome::NeedConnect <==> !old(self)@.locked && !old(self)@.present,
    {
        if self.locked {
            AcquireOutcome::Busy
        } else {
            self.locked = true;
            if self.present {
                AcquireOutcome::Ready
            } else {
                AcquireOutcome::NeedConnect
            }
        }
    }

    /// Record the result of the establishment attempt of the current
    /// borrower.  On failure the slot is left empty and the borrow is
    /// abandoned, so the operation is never attempted; the result says
    /// whether to proceed.
    pub fn connect_finished(&mut self, ok: bool) -> (proceed: bool)
        requires
            old(self)@.locked,
            !old(self)@.present,
        ensures
            final(self)@ == g_step(old(self)@, GuardOp::ConnectFinished(ok)),
            proceed == ok,
    {
        if ok {
            self.present = true;
        } else {
            self.locked = false;
        }
        ok
    }

    /// Return the slot.  The handle is kept for the next borrower unless
    /// the operation's failure was a fatal connection-level fault, in which
    /// case the slot is left empty so the next call re-establishes.
    pub fn release(&mut self, fatal: bool)
        requires
            old(self)@.locked,
        ensures
            final(self)@ == g_step(old(self)@, GuardOp::Release(fatal)),
    {
        self.locked = false;
        if fatal {
            self.present = false;
        }
    }
}

} // verus!
