//! The shared region: an ordered table of slots, one per bar bound to the
//! same terminal area, and the whole-region repaint that keeps concurrent
//! redraws from interleaving.

use vstd::prelude::*;
use vstd::rwlock::{RwLock, RwLockPredicate};

use crate::draw_target::ProgressDrawTarget;
use crate::progress_bar::ProgressBar;
use crate::term_like::{TermLike, Terminal};

verus! {

/// The slot table and frame bookkeeping of one shared terminal region.
pub struct MultiState {
    /// The terminal the whole region paints to.
    pub term: Terminal,
    /// Slots by stable index; a freed slot turns `None` and may be reused
    /// without renumbering the others.
    pub slots: Vec<Option<Vec<String>>>,
    /// The stable indices of the occupied slots, in display order.
    pub ordering: Vec<usize>,
    /// How many lines the previous whole-region frame painted.
    pub prev_total: usize,
}

impl MultiState {
    /// Display order only names live slots, each at most once.
    pub open spec fn wf(&self) -> bool {
        &&& forall|k: int|
            0 <= k < self.ordering@.len() ==> (#[trigger] self.ordering@[k]) < self.slots@.len()
                && self.slots@[self.ordering@[k] as int] is Some
        &&& forall|k1: int, k2: int|
            0 <= k1 < k2 < self.ordering@.len() ==> self.ordering@[k1] != self.ordering@[k2]
    }

    /// The lines of the slot at display position `k`.
    pub open spec fn slot_lines_at(&self, k: int) -> Seq<String>
        recommends
            self.wf(),
            0 <= k < self.ordering@.len(),
    {
        self.slots@[self.ordering@[k] as int]->Some_0@
    }

    /// What the region shows: the concatenation of each occupied slot's
    /// current lines, in display order.
    pub open spec fn visible_lines_spec(&self) -> Seq<String> {
        Seq::new(self.ordering@.len(), |k: int| self.slot_lines_at(k)).flatten()
    }

    /// An empty region on the given terminal.
    pub fn new(term: Terminal) -> (r: MultiState)
        ensures
            r.wf(),
            r.slots@.len() == 0,
            r.ordering@.len() == 0,
            r.prev_total == 0,
    {
        MultiState { term, slots: Vec::new(), ordering: Vec::new(), prev_total: 0 }
    }

    /// Claims a slot for a new bar: a freed slot is reused, else one is
    /// appended. The slot starts with no lines and is not yet ordered.
    fn claim_slot(&mut self) -> (idx: usize)
        requires
            old(self).wf(),
        ensures
            final(self).wf(),
            idx < final(self).slots@.len(),
            final(self).slots@[idx as int] is Some,
            final(self).slots@[idx as int]->Some_0@ == Seq::<String>::empty(),
            old(self).slots@[idx as int] is None || idx == old(self).slots@.len(),
            final(self).slots@.len() >= old(self).slots@.len(),
            forall|j: int|
                0 <= j < old(self).slots@.len() && j != idx ==> final(self).slots@[j] == old(
                    self,
                ).slots@[j],
            final(self).ordering == old(self).ordering,
            final(self).prev_total == old(self).prev_total,
            final(self).term == old(self).term,
            forall|k: int|
                0 <= k < old(self).ordering@.len() ==> old(self).ordering@[k] != idx,
    {
        let n = self.slots.len();
        let mut i: usize = 0;
        while i < n
            invariant
                old(self).wf(),
                n == self.slots@.len(),
                i <= n,
                self.slots == old(self).slots,
                self.ordering == old(self).ordering,
                self.prev_total == old(self).prev_total,
                self.term == old(self).term,
                forall|j: int| 0 <= j < i ==> self.slots@[j] is Some,
            decreases n - i,
        {
            if self.slots[i].is_none() {
                proof {
                    assert(old(self).wf());
                    assert(self.slots@[i as int] is None);
                    assert(old(self).slots@[i as int] is None);
                    assert forall|k: int|
                        0 <= k < old(self).ordering@.len() implies (#[trigger] old(self)
                            .ordering@[k]) != i by {
                        assert(old(self).slots@[old(self).ordering@[k] as int] is Some);
                    }
                    assert(self.ordering@ == old(self).ordering@);
                }
                self.slots.set(i, Some(Vec::new()));
                return i;
            }
            i = i + 1;
        }
        self.slots.push(Some(Vec::new()));
        n
    }

    /// Adds a bar's slot at display position `at` (clamped to the end) and
    /// returns its stable index.
    pub fn insert_at(&mut self, at: usize) -> (idx: usize)
        requires
            old(self).wf(),
        ensures
            final(self).wf(),
            idx < final(self).slots@.len(),
            final(self).slots@[idx as int]->Some_0@ == Seq::<String>::empty(),
            forall|j: int|
                0 <= j < old(self).slots@.len() && j != idx ==> final(self).slots@[j] == old(
                    self,
                ).slots@[j],
            final(self).ordering@ == old(self).ordering@.insert(
                if at <= old(self).ordering@.len() {
                    at as int
                } else {
                    old(self).ordering@.len() as int
                },
                idx,
            ),
            final(self).prev_total == old(self).prev_total,
            final(self).term == old(self).term,
    {
        let idx = self.claim_slot();
        let pos = if at <= self.ordering.len() {
            at
        } else {
            self.ordering.len()
        };
        self.ordering.insert(pos, idx);
        proof {
            assert forall|k: int| 0 <= k < self.ordering@.len() implies (#[trigger] self
                .ordering@[k]) < self.slots@.len() && self.slots@[self.ordering@[k] as int]
                is Some by {
                if k != pos {
                    let k0 = if k < pos {
                        k
                    } else {
                        k - 1
                    };
                    assert(self.ordering@[k] == old(self).ordering@[k0]);
                }
            }
            assert forall|k1: int, k2: int|
                0 <= k1 < k2 < self.ordering@.len() implies self.ordering@[k1] != self
                .ordering@[k2] by {
                if k1 != pos && k2 != pos {
                    let m1 = if k1 < pos {
                        k1
                    } else {
                        k1 - 1
                    };
                    let m2 = if k2 < pos {
                        k2
                    } else {
                        k2 - 1
                    };
                    assert(self.ordering@[k1] == old(self).ordering@[m1]);
                    assert(self.ordering@[k2] == old(self).ordering@[m2]);
                }
            }
        }
        idx
    }

    /// Appends a bar's slot at the end of the display order and returns its
    /// stable index.
    pub fn add_slot(&mut self) -> (idx: usize)
        requires
            old(self).wf(),
        ensures
            final(self).wf(),
            idx < final(self).slots@.len(),
            final(self).slots@[idx as int]->Some_0@ == Seq::<String>::empty(),
            forall|j: int|
                0 <= j < old(self).slots@.len() && j != idx ==> final(self).slots@[j] == old(
                    self,
                ).slots@[j],
            final(self).ordering@ == old(self).ordering@.push(idx),
            final(self).prev_total == old(self).prev_total,
            final(self).term == old(self).term,
    {
        let at = self.ordering.len();
        let idx = self.insert_at(at);
        proof {
            assert(self.ordering@ =~= old(self).ordering@.push(idx));
        }
        idx
    }

    /// Replaces the lines of a slot; a stale index (freed or out of range)
    /// is a safe no-op.
    pub fn set_slot_lines(&mut self, idx: usize, lines: Vec<String>) -> (live: bool)
        requires
            old(self).wf(),
        ensures
            final(self).wf(),
            live == (idx < old(self).slots@.len() && old(self).slots@[idx as int] is Some),
            live ==> final(self).slots@ == old(self).slots@.update(idx as int, Some(lines)),
            !live ==> final(self).slots@ == old(self).slots@,
            final(self).ordering == old(self).ordering,
            final(self).prev_total == old(self).prev_total,
            final(self).term == old(self).term,
    {
        if idx < self.slots.len() {
            if self.slots[idx].is_some() {
                self.slots.set(idx, Some(lines));
                return true;
            }
        }
        false
    }

    /// Frees one slot and takes it out of the display order. Every other
    /// slot keeps its stable index and its contents, and the rest of the
    /// display order keeps its relative order.
    pub fn remove_slot(&mut self, idx: usize)
        requires
            old(self).wf(),
        ensures
            final(self).wf(),
            final(self).slots@.len() == old(self).slots@.len(),
            idx < old(self).slots@.len() ==> final(self).slots@[idx as int] is None,
            forall|j: int|
                0 <= j < old(self).slots@.len() && j != idx ==> final(self).slots@[j] == old(
                    self,
                ).slots@[j],
            final(self).ordering@ == old(self).ordering@.remove_value(idx),
            final(self).prev_total == old(self).prev_total,
            final(self).term == old(self).term,
    {
        let ghost orig = self.ordering@;
        let n = self.ordering.len();
        let mut k: usize = 0;
        let mut pos: usize = n;
        while k < n
            invariant
                n == self.ordering@.len(),
                k <= n,
                orig == self.ordering@,
                pos == n || (pos < k && orig[pos as int] == idx && forall|j: int|
                    0 <= j < pos ==> orig[j] != idx),
                pos == n ==> forall|j: int| 0 <= j < k ==> orig[j] != idx,
            decreases n - k,
        {
            if pos == n && self.ordering[k] == idx {
                pos = k;
            }
            k = k + 1;
        }
        proof {
            orig.index_of_first_ensures(idx);
        }
        if pos < n {
            proof {
                assert(orig[pos as int] == idx);
                assert(orig.contains(idx));
                assert(orig.index_of_first(idx) == Some(pos as int));
                assert(idx < self.slots@.len());
            }
            self.ordering.remove(pos);
            self.slots.set(idx, None);
            proof {
                assert(self.ordering@ == orig.remove_value(idx));
                assert forall|k1: int|
                    0 <= k1 < self.ordering@.len() implies (#[trigger] self.ordering@[k1])
                    < self.slots@.len() && self.slots@[self.ordering@[k1] as int] is Some by {
                    let m1 = if k1 < pos {
                        k1
                    } else {
                        k1 + 1
                    };
                    assert(self.ordering@[k1] == orig[m1]);
                    assert(orig[m1] != orig[pos as int]);
                }
                assert forall|k1: int, k2: int|
                    0 <= k1 < k2 < self.ordering@.len() implies self.ordering@[k1] != self
                    .ordering@[k2] by {
                    let m1 = if k1 < pos {
                        k1
                    } else {
                        k1 + 1
                    };
                    let m2 = if k2 < pos {
                        k2
                    } else {
                        k2 + 1
                    };
                    assert(self.ordering@[k1] == orig[m1]);
                    assert(self.ordering@[k2] == orig[m2]);
                }
            }
        } else {
            proof {
                assert(!orig.contains(idx));
                assert(self.ordering@ == orig.remove_value(idx));
            }
            if idx < self.slots.len() {
                self.slots.set(idx, None);
                proof {
                    assert forall|k1: int|
                        0 <= k1 < self.ordering@.len() implies (#[trigger] self.ordering@[k1])
                        < self.slots@.len() && self.slots@[self.ordering@[k1] as int] is Some by {
                        assert(orig[k1] != idx);
                    }
                }
            }
        }
    }

    /// Collects what the region shows, top to bottom.
    pub fn visible_lines(&self) -> (r: Vec<String>)
        requires
            self.wf(),
        ensures
            r@ == self.visible_lines_spec(),
    {
        let ghost all = Seq::new(self.ordering@.len(), |k: int| self.slot_lines_at(k));
        let mut out: Vec<String> = Vec::new();
        let n = self.ordering.len();
        let mut k: usize = 0;
        proof {
            assert(all.take(0).flatten() =~= Seq::<String>::empty());
        }
        while k < n
            invariant
                self.wf(),
                n == self.ordering@.len(),
                k <= n,
                all == Seq::new(self.ordering@.len(), |j: int| self.slot_lines_at(j)),
                out@ == all.take(k as int).flatten(),
            decreases n - k,
        {
            let idx = self.ordering[k];
            proof {
                assert(self.slots@[self.ordering@[k as int] as int] is Some);
            }
            match &self.slots[idx] {
                Some(lines) => {
                    let mut i: usize = 0;
                    let m = lines.len();
                    while i < m
                        invariant
                            m == lines@.len(),
                            i <= m,
                            out@ == all.take(k as int).flatten() + lines@.take(i as int),
                        decreases m - i,
                    {
                        out.push(lines[i].clone());
                        proof {
                            assert(lines@.take(i + 1) =~= lines@.take(i as int).push(
                                lines@[i as int],
                            ));
                        }
                        i = i + 1;
                    }
                    proof {
                        assert(lines@.take(m as int) =~= lines@);
                        assert(all.take(k + 1) =~= all.take(k as int).push(all[k as int]));
                        all.take(k as int).lemma_flatten_push(all[k as int]);
                    }
                },
                None => {
                    proof {
                        assert(false);
                    }
                },
            }
            k = k + 1;
        }
        proof {
            assert(all.take(n as int) =~= all);
        }
        out
    }

    /// One whole-region repaint: erases exactly the previously painted line
    /// count, rewrites every visible line top to bottom, and records the new
    /// total. Returns how many lines it erased.
    pub fn repaint(&mut self) -> (erased: usize)
        requires
            old(self).wf(),
        ensures
            final(self).wf(),
            erased == old(self).prev_total,
            final(self).prev_total == old(self).visible_lines_spec().len(),
            final(self).slots == old(self).slots,
            final(self).ordering == old(self).ordering,
            final(self).term == old(self).term,
    {
        let lines = self.visible_lines();
        let erased = self.prev_total;
        let _ = self.term.move_cursor_up(erased);
        let n = lines.len();
        let mut k: usize = 0;
        while k < n
            invariant
                n == lines@.len(),
                k <= n,
            decreases n - k,
        {
            let _ = self.term.clear_line();
            let _ = self.term.write_line(lines[k].as_str());
            k = k + 1;
        }
        let _ = self.term.flush();
        self.prev_total = n;
        erased
    }

    /// Writes one out-of-band line where the region's top stood, scrolling
    /// the old frame away, then repaints every visible line below it.
    /// Returns how many previously painted lines were erased.
    pub fn println_above(&mut self, msg: &str) -> (erased: usize)
        requires
            old(self).wf(),
        ensures
            final(self).wf(),
            erased == old(self).prev_total,
            final(self).prev_total == old(self).visible_lines_spec().len(),
            final(self).slots == old(self).slots,
            final(self).ordering == old(self).ordering,
            final(self).term == old(self).term,
    {
        let lines = self.visible_lines();
        let erased = self.prev_total;
        let _ = self.term.move_cursor_up(erased);
        let _ = self.term.clear_line();
        let _ = self.term.write_line(msg);
        let n = lines.len();
        let mut k: usize = 0;
        while k < n
            invariant
                n == lines@.len(),
                k <= n,
            decreases n - k,
        {
            let _ = self.term.clear_line();
            let _ = self.term.write_line(lines[k].as_str());
            k = k + 1;
        }
        let _ = self.term.flush();
        self.prev_total = n;
        erased
    }
}

/// Handing new lines to one slot changes only that slot's contribution to
/// the region: every other bar's lines, and the display order, stay as
/// they were, so a whole-region repaint shows everyone's current frame.
pub proof fn lemma_slot_update_isolates(
    pre: MultiState,
    post: MultiState,
    idx: usize,
    lines: Vec<String>,
)
    requires
        pre.wf(),
        idx < pre.slots@.len(),
        pre.slots@[idx as int] is Some,
        post.slots@ == pre.slots@.update(idx as int, Some(lines)),
        post.ordering == pre.ordering,
    ensures
        forall|k: int|
            0 <= k < post.ordering@.len() && post.ordering@[k] != idx ==> post.slot_lines_at(k)
                == pre.slot_lines_at(k),
        forall|k: int|
            0 <= k < post.ordering@.len() && post.ordering@[k] == idx ==> post.slot_lines_at(k)
                == lines@,
{
    assert forall|k: int|
        0 <= k < post.ordering@.len() && post.ordering@[k] != idx implies post.slot_lines_at(k)
        == pre.slot_lines_at(k) by {
        assert(pre.ordering@[k] < pre.slots@.len());
    }
}

/// The lock invariant of a shared region: every state reachable through a
/// handle is well formed.
pub struct MultiPred {}

impl RwLockPredicate<MultiState> for MultiPred {
    open spec fn inv(self, v: MultiState) -> bool {
        v.wf()
    }
}

/// A shared region handle. Every clone coordinates the same slot table, and
/// region-wide repaints serialize through its one lock.
#[derive(Clone)]
pub struct MultiProgress {
    pub(crate) state: std::sync::Arc<RwLock<MultiState, MultiPred>>,
}

impl MultiProgress {
    /// A region that paints to standard error.
    pub fn new() -> MultiProgress {
        MultiProgress::with_term(Terminal::Console(crate::term_like::console_stderr()))
    }

    /// A region that paints to the given terminal.
    pub fn with_term(term: Terminal) -> MultiProgress {
        let st = MultiState::new(term);
        MultiProgress { state: std::sync::Arc::new(RwLock::new(st, Ghost(MultiPred {  }))) }
    }

    /// Claims a slot at the end of the display order.
    pub(crate) fn add_remote_slot(&self) -> usize {
        let (mut st, handle) = self.state.acquire_write();
        let idx = st.add_slot();
        handle.release_write(st);
        idx
    }

    /// Claims a slot at display position `at`, clamped to the end.
    pub(crate) fn insert_remote_slot(&self, at: usize) -> usize {
        let (mut st, handle) = self.state.acquire_write();
        let idx = st.insert_at(at);
        handle.release_write(st);
        idx
    }

    /// Hands a bar's freshly rendered lines to its slot and repaints the
    /// whole region as one unit.
    pub(crate) fn draw_slot(&self, idx: usize, lines: Vec<String>) {
        let (mut st, handle) = self.state.acquire_write();
        let live = st.set_slot_lines(idx, lines);
        if live {
            let _ = st.repaint();
        }
        handle.release_write(st);
    }

    /// Frees a slot; the region afterwards paints without it.
    pub(crate) fn release_slot(&self, idx: usize) {
        let (mut st, handle) = self.state.acquire_write();
        st.remove_slot(idx);
        let _ = st.repaint();
        handle.release_write(st);
    }

    /// The terminal width of the shared terminal.
    pub(crate) fn region_width(&self) -> usize {
        let handle = self.state.acquire_read();
        let w = handle.borrow().term.width();
        handle.release_read();
        w
    }

    /// What the region currently shows, top to bottom.
    pub fn visible_lines(&self) -> Vec<String> {
        let handle = self.state.acquire_read();
        let lines = handle.borrow().visible_lines();
        handle.release_read();
        lines
    }

    /// The line count of the previous whole-region frame.
    pub fn painted_line_count(&self) -> usize {
        let handle = self.state.acquire_read();
        let n = handle.borrow().prev_total;
        handle.release_read();
        n
    }

    /// Writes one out-of-band line above the region.
    pub(crate) fn println_above(&self, msg: &str) {
        let (mut st, handle) = self.state.acquire_write();
        let _ = st.println_above(msg);
        handle.release_write(st);
    }

    /// Binds a bar to this region, at the end of the display order. Every
    /// later frame of the bar repaints the whole region in order.
    pub fn add(&self, pb: ProgressBar) -> ProgressBar {
        let idx = self.add_remote_slot();
        pb.set_draw_target(ProgressDrawTarget::remote(self.clone(), idx));
        pb
    }

    /// Binds a bar to this region at display position `at`, clamped to the
    /// end; the slots of the other bars keep their indices.
    pub fn insert(&self, at: usize, pb: ProgressBar) -> ProgressBar {
        let idx = self.insert_remote_slot(at);
        pb.set_draw_target(ProgressDrawTarget::remote(self.clone(), idx));
        pb
    }

    /// Unbinds a bar: its slot is freed (no other slot index moves) and the
    /// bar falls back to a suppressed target.
    pub fn remove(&self, pb: &ProgressBar) {
        pb.set_draw_target(ProgressDrawTarget::hidden());
    }
}

} // verus!
