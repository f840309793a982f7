//! An in-memory terminal backend: it keeps the rows that a real terminal
//! would show and counts the paint operations, so throttling and region
//! repaints can be observed exactly.

use vstd::prelude::*;
use vstd::rwlock::{RwLock, RwLockPredicate};
use vstd::string::StringExecFns;

use crate::term_like::TermLike;

verus! {

/// The modelled screen: rows top to bottom, the cursor row, and how many
/// line writes have been made.
pub struct InMemoryState {
    /// Columns reported as the terminal width.
    pub width: usize,
    /// The rows currently on screen, top to bottom.
    pub lines: Vec<String>,
    /// The row the cursor stands on; never past the row after the last.
    pub row: usize,
    /// How many times a whole line was written.
    pub write_line_calls: u64,
}

impl InMemoryState {
    /// The cursor never stands below the first blank row.
    pub open spec fn wf(&self) -> bool {
        self.row <= self.lines@.len()
    }

    /// An empty screen of the given width.
    pub fn new(width: usize) -> (r: InMemoryState)
        ensures
            r.wf(),
            r.width == width,
            r.lines@.len() == 0,
            r.row == 0,
            r.write_line_calls == 0,
    {
        InMemoryState { width, lines: Vec::new(), row: 0, write_line_calls: 0 }
    }

    /// Moves the cursor up `n` rows, stopping at the top.
    pub fn move_up(&mut self, n: usize)
        requires
            old(self).wf(),
        ensures
            final(self).wf(),
            *final(self) == (InMemoryState {
                row: if old(self).row < n {
                    0
                } else {
                    (old(self).row - n) as usize
                },
                ..*old(self)
            }),
    {
        self.row = if self.row < n {
            0
        } else {
            self.row - n
        };
    }

    /// Moves the cursor down `n` rows, stopping just past the last row.
    pub fn move_down(&mut self, n: usize)
        requires
            old(self).wf(),
        ensures
            final(self).wf(),
            final(self).row == if old(self).row + n > old(self).lines@.len() {
                old(self).lines@.len() as usize
            } else {
                (old(self).row + n) as usize
            },
            final(self).lines == old(self).lines,
            final(self).width == old(self).width,
            final(self).write_line_calls == old(self).write_line_calls,
    {
        let room = self.lines.len() - self.row;
        self.row = if n > room {
            self.lines.len()
        } else {
            self.row + n
        };
    }

    /// Writes one whole row at the cursor, overwriting what stood there or
    /// opening a new row at the bottom, and moves the cursor below it.
    pub fn put_line(&mut self, s: String)
        requires
            old(self).wf(),
        ensures
            final(self).wf(),
            final(self).lines@ == if old(self).row < old(self).lines@.len() {
                old(self).lines@.update(old(self).row as int, s)
            } else {
                old(self).lines@.push(s)
            },
            final(self).row == old(self).row + 1,
            final(self).write_line_calls == crate::state::sat_add(old(self).write_line_calls, 1),
            final(self).width == old(self).width,
    {
        if self.row < self.lines.len() {
            let r = self.row;
            self.lines.set(r, s);
            self.row = r + 1;
        } else {
            self.lines.push(s);
            self.row = self.lines.len();
        }
        self.write_line_calls = self.write_line_calls.saturating_add(1);
    }

    /// Appends text to the row at the cursor without moving the cursor.
    pub fn put_str(&mut self, s: &str)
        requires
            old(self).wf(),
        ensures
            final(self).wf(),
            final(self).row == old(self).row,
            final(self).width == old(self).width,
            final(self).write_line_calls == old(self).write_line_calls,
            final(self).lines@.len() == if old(self).row < old(self).lines@.len() {
                old(self).lines@.len()
            } else {
                old(self).lines@.len() + 1
            },
            final(self).lines@[old(self).row as int]@ == if old(self).row < old(
                self,
            ).lines@.len() {
                old(self).lines@[old(self).row as int]@ + s@
            } else {
                s@
            },
            forall|i: int|
                0 <= i < old(self).lines@.len() && i != old(self).row ==> final(self).lines@[i]
                    == old(self).lines@[i],
    {
        if self.row < self.lines.len() {
            let r = self.row;
            let mut cur = self.lines[r].clone();
            cur.append(s);
            self.lines.set(r, cur);
        } else {
            let mut cur = String::new();
            cur.append(s);
            self.lines.push(cur);
        }
    }

    /// Clears the row at the cursor.
    pub fn clear_row(&mut self)
        requires
            old(self).wf(),
        ensures
            final(self).wf(),
            final(self).row == old(self).row,
            final(self).width == old(self).width,
            final(self).write_line_calls == old(self).write_line_calls,
            final(self).lines@.len() == old(self).lines@.len(),
            old(self).row < old(self).lines@.len() ==> final(self).lines@[old(self).row as int]@
                == Seq::<char>::empty(),
            forall|i: int|
                0 <= i < old(self).lines@.len() && i != old(self).row ==> final(self).lines@[i]
                    == old(self).lines@[i],
    {
        if self.row < self.lines.len() {
            let r = self.row;
            self.lines.set(r, String::new());
        }
    }
}

/// The lock invariant of an in-memory terminal: every state reachable
/// through the handle is well formed.
pub struct InMemoryPred {}

impl RwLockPredicate<InMemoryState> for InMemoryPred {
    open spec fn inv(self, v: InMemoryState) -> bool {
        v.wf()
    }
}

/// A shared handle on an in-memory terminal. Every clone observes the same
/// screen; all access is serialized through one lock.
#[derive(Clone)]
pub struct InMemoryTerm {
    state: std::sync::Arc<RwLock<InMemoryState, InMemoryPred>>,
}

impl InMemoryTerm {
    /// A fresh, empty in-memory terminal of the given width.
    pub fn new(width: usize) -> InMemoryTerm {
        let st = InMemoryState::new(width);
        InMemoryTerm {
            state: std::sync::Arc::new(RwLock::new(st, Ghost(InMemoryPred {  }))),
        }
    }

    /// The rows currently on screen, top to bottom.
    pub fn contents(&self) -> Vec<String> {
        let handle = self.state.acquire_read();
        let st = handle.borrow();
        let mut out: Vec<String> = Vec::new();
        let mut i: usize = 0;
        let n = st.lines.len();
        while i < n
            invariant
                n == st.lines@.len(),
                i <= n,
            decreases n - i,
        {
            out.push(st.lines[i].clone());
            i = i + 1;
        }
        handle.release_read();
        out
    }

    /// How many whole-line writes the terminal has taken so far.
    pub fn write_line_count(&self) -> u64 {
        let handle = self.state.acquire_read();
        let n = handle.borrow().write_line_calls;
        handle.release_read();
        n
    }

    /// The row the cursor stands on.
    pub fn cursor_row(&self) -> usize {
        let handle = self.state.acquire_read();
        let r = handle.borrow().row;
        handle.release_read();
        r
    }
}

impl TermLike for InMemoryTerm {
    fn width(&self) -> usize {
        let handle = self.state.acquire_read();
        let w = handle.borrow().width;
        handle.release_read();
        w
    }

    fn move_cursor_up(&self, n: usize) -> Result<(), std::io::Error> {
        let (mut st, handle) = self.state.acquire_write();
        st.move_up(n);
        handle.release_write(st);
        Ok(())
    }

    fn move_cursor_down(&self, n: usize) -> Result<(), std::io::Error> {
        let (mut st, handle) = self.state.acquire_write();
        st.move_down(n);
        handle.release_write(st);
        Ok(())
    }

    fn move_cursor_right(&self, _n: usize) -> Result<(), std::io::Error> {
        Ok(())
    }

    fn move_cursor_left(&self, _n: usize) -> Result<(), std::io::Error> {
        Ok(())
    }

    fn write_line(&self, s: &str) -> Result<(), std::io::Error> {
        let (mut st, handle) = self.state.acquire_write();
        let mut owned = String::new();
        owned.append(s);
        st.put_line(owned);
        handle.release_write(st);
        Ok(())
    }

    fn write_str(&self, s: &str) -> Result<(), std::io::Error> {
        let (mut st, handle) = self.state.acquire_write();
        st.put_str(s);
        handle.release_write(st);
        Ok(())
    }

    fn clear_line(&self) -> Result<(), std::io::Error> {
        let (mut st, handle) = self.state.acquire_write();
        st.clear_row();
        handle.release_write(st);
        Ok(())
    }

    fn flush(&self) -> Result<(), std::io::Error> {
        Ok(())
    }
}

} // verus!
