//! The bar cell — one indicator's state plus its output target behind one
//! lock — and the shared, copyable handle in front of it.

use std::sync::Arc;

use vstd::prelude::*;
use vstd::rwlock::{RwLock, RwLockPredicate};

use crate::draw_target::{
    should_paint, should_paint_spec, stamped, ProgressDrawTarget, TargetKind,
};
use crate::render::render_lines;
use crate::state::{ProgressState, Status, UpdateAction, UNKNOWN_LEN};
use crate::style::{ProgressFinish, ProgressStyle};
use crate::term_like::TermLike;

verus! {

/// Relies on std::time::SystemTime::now: the milliseconds of the system
/// clock since the Unix epoch, converted with duration_since; 0 when the
/// clock stands before the epoch. Nothing is assumed of the value.
#[verifier::external_body]
fn now_millis() -> u64 {
    match std::time::SystemTime::now().duration_since(std::time::SystemTime::UNIX_EPOCH) {
        Ok(d) => d.as_millis() as u64,
        Err(_) => 0,
    }
}

/// One bar cell: the indicator state and the output target it draws to.
pub struct BarState {
    /// The numeric and textual state of the indicator.
    pub state: ProgressState,
    /// Where its frames go.
    pub draw_target: ProgressDrawTarget,
}

/// What a redraw attempt does to the output target's bookkeeping: a
/// suppressed target ignores it; a shared-region slot always takes the
/// frame; a direct terminal paints exactly when forced or due, stamping the
/// paint time (never backwards) and the painted line count.
pub open spec fn paint_transition(
    pre: ProgressDrawTarget,
    post: ProgressDrawTarget,
    force: bool,
    now_ms: u64,
    painted: bool,
) -> bool {
    match pre.kind {
        TargetKind::Hidden => !painted && post == pre,
        TargetKind::Remote { .. } => painted && post == pre,
        TargetKind::Term { term, refresh_ms, last_draw_ms, last_lines } => {
            &&& painted == should_paint_spec(force, now_ms, last_draw_ms, refresh_ms)
            &&& if painted {
                post.kind == (TargetKind::Term {
                    term,
                    refresh_ms,
                    last_draw_ms: stamped(last_draw_ms, now_ms),
                    last_lines: 1,
                })
            } else {
                post == pre
            }
        },
    }
}

/// What erasing the bar's footprint does to the target: a direct terminal
/// ends up with no painted lines on record; the others keep their shape.
pub open spec fn clear_transition(
    pre: ProgressDrawTarget,
    post: ProgressDrawTarget,
    now_ms: u64,
) -> bool {
    match pre.kind {
        TargetKind::Hidden => post == pre,
        TargetKind::Remote { .. } => post == pre,
        TargetKind::Term { term, refresh_ms, last_draw_ms, last_lines } => post.kind == (
        TargetKind::Term {
            term,
            refresh_ms,
            last_draw_ms: stamped(last_draw_ms, now_ms),
            last_lines: 0,
        }),
    }
}

/// What a finish-family call does to the indicator state: the status turns
/// terminal, the position snaps to a known length only for the plain finish
/// forms, and the message is replaced only by the with-message forms.
pub open spec fn finish_rel(
    pre: ProgressState,
    post: ProgressState,
    how: ProgressFinish,
) -> bool {
    match how {
        ProgressFinish::AndLeave => post == (ProgressState {
            pos: if pre.len == UNKNOWN_LEN {
                pre.pos
            } else {
                pre.len
            },
            status: Status::Finished,
            ..pre
        }),
        ProgressFinish::AtCurrentPos => post == (ProgressState {
            status: Status::Finished,
            ..pre
        }),
        ProgressFinish::WithMessage(m) => {
            &&& post.message@ == m@
            &&& post == (ProgressState {
                pos: if pre.len == UNKNOWN_LEN {
                    pre.pos
                } else {
                    pre.len
                },
                status: Status::Finished,
                message: post.message,
                ..pre
            })
        },
        ProgressFinish::AndClear => post == (ProgressState { status: Status::Finished, ..pre }),
        ProgressFinish::Abandon => post == (ProgressState { status: Status::Finished, ..pre }),
        ProgressFinish::AbandonWithMessage(m) => {
            &&& post.message@ == m@
            &&& post == (ProgressState {
                status: Status::Finished,
                message: post.message,
                ..pre
            })
        },
    }
}

impl BarState {
    /// A cell is well formed when its indicator state is.
    pub open spec fn wf(&self) -> bool {
        self.state.wf()
    }

    /// A redraw attempt: paints per the target's throttling rule, leaving
    /// the indicator state alone.
    pub fn draw(&mut self, force: bool, now_ms: u64) -> (painted: bool)
        requires
            old(self).wf(),
        ensures
            final(self).wf(),
            final(self).state == old(self).state,
            paint_transition(old(self).draw_target, final(self).draw_target, force, now_ms, painted),
    {
        let mut kind = TargetKind::Hidden;
        core::mem::swap(&mut kind, &mut self.draw_target.kind);
        match kind {
            TargetKind::Hidden => {
                self.draw_target.kind = TargetKind::Hidden;
                false
            },
            TargetKind::Remote { multi, idx } => {
                let width = multi.region_width();
                let lines = render_lines(&self.state, width);
                multi.draw_slot(idx, lines);
                self.draw_target.kind = TargetKind::Remote { multi, idx };
                true
            },
            TargetKind::Term { term, refresh_ms, last_draw_ms, last_lines } => {
                if should_paint(force, now_ms, last_draw_ms, refresh_ms) {
                    let width = term.width();
                    let lines = render_lines(&self.state, width);
                    let _ = term.move_cursor_up(last_lines);
                    let n = lines.len();
                    let mut k: usize = 0;
                    while k < n
                        invariant
                            n == lines@.len(),
                            k <= n,
                        decreases n - k,
                    {
                        let _ = term.clear_line();
                        let _ = term.write_line(lines[k].as_str());
                        k = k + 1;
                    }
                    let _ = term.flush();
                    let stamp = if now_ms > last_draw_ms {
                        now_ms
                    } else {
                        last_draw_ms
                    };
                    self.draw_target.kind = TargetKind::Term {
                        term,
                        refresh_ms,
                        last_draw_ms: stamp,
                        last_lines: n,
                    };
                    true
                } else {
                    self.draw_target.kind = TargetKind::Term {
                        term,
                        refresh_ms,
                        last_draw_ms,
                        last_lines,
                    };
                    false
                }
            },
        }
    }

    /// Erases the bar's footprint: a direct terminal's previous frame is
    /// blanked, a shared-region slot is handed an empty frame.
    pub fn clear_frame(&mut self, now_ms: u64)
        requires
            old(self).wf(),
        ensures
            final(self).wf(),
            final(self).state == old(self).state,
            clear_transition(old(self).draw_target, final(self).draw_target, now_ms),
    {
        let mut kind = TargetKind::Hidden;
        core::mem::swap(&mut kind, &mut self.draw_target.kind);
        match kind {
            TargetKind::Hidden => {
                self.draw_target.kind = TargetKind::Hidden;
            },
            TargetKind::Remote { multi, idx } => {
                multi.draw_slot(idx, Vec::new());
                self.draw_target.kind = TargetKind::Remote { multi, idx };
            },
            TargetKind::Term { term, refresh_ms, last_draw_ms, last_lines } => {
                let _ = term.move_cursor_up(last_lines);
                let mut k: usize = 0;
                while k < last_lines
                    invariant
                        k <= last_lines,
                    decreases last_lines - k,
                {
                    let _ = term.clear_line();
                    let _ = term.move_cursor_down(1);
                    k = k + 1;
                }
                let _ = term.move_cursor_up(last_lines);
                let _ = term.flush();
                let stamp = if now_ms > last_draw_ms {
                    now_ms
                } else {
                    last_draw_ms
                };
                self.draw_target.kind = TargetKind::Term {
                    term,
                    refresh_ms,
                    last_draw_ms: stamp,
                    last_lines: 0,
                };
            },
        }
    }

    /// The update-and-draw transaction: applies one mutation to the
    /// indicator state, then attempts an unforced, throttled redraw.
    pub fn update_and_draw(&mut self, a: UpdateAction, now_ms: u64) -> (painted: bool)
        requires
            old(self).wf(),
        ensures
            final(self).wf(),
            crate::state::apply_rel(old(self).state, final(self).state, a, now_ms),
            paint_transition(
                old(self).draw_target,
                final(self).draw_target,
                false,
                now_ms,
                painted,
            ),
    {
        self.state.apply(a, now_ms);
        self.draw(false, now_ms)
    }

    /// A finish-family transition: moves the state to its terminal form and
    /// forces a final frame — visible, or erased for the clearing form.
    pub fn finish_with(&mut self, how: ProgressFinish, now_ms: u64)
        requires
            old(self).wf(),
        ensures
            final(self).wf(),
            finish_rel(old(self).state, final(self).state, how),
            how is AndClear ==> clear_transition(
                old(self).draw_target,
                final(self).draw_target,
                now_ms,
            ),
            !(how is AndClear) ==> paint_transition(
                old(self).draw_target,
                final(self).draw_target,
                true,
                now_ms,
                !(old(self).draw_target.kind is Hidden),
            ),
    {
        match how {
            ProgressFinish::AndLeave => {
                self.state.finish_update();
                let _ = self.draw(true, now_ms);
            },
            ProgressFinish::AtCurrentPos => {
                self.state.finish_at_current_pos_update();
                let _ = self.draw(true, now_ms);
            },
            ProgressFinish::WithMessage(m) => {
                self.state.message = m;
                self.state.finish_update();
                let _ = self.draw(true, now_ms);
            },
            ProgressFinish::AndClear => {
                self.state.finish_at_current_pos_update();
                self.clear_frame(now_ms);
            },
            ProgressFinish::Abandon => {
                self.state.finish_at_current_pos_update();
                let _ = self.draw(true, now_ms);
            },
            ProgressFinish::AbandonWithMessage(m) => {
                self.state.message = m;
                self.state.finish_at_current_pos_update();
                let _ = self.draw(true, now_ms);
            },
        }
    }

    /// An out-of-band line scrolled above the live frame; a no-op on a
    /// suppressed target.
    pub fn println_line(&mut self, msg: &str, now_ms: u64)
        requires
            old(self).wf(),
        ensures
            final(self).wf(),
            final(self).state == old(self).state,
            old(self).draw_target.kind is Hidden ==> final(self).draw_target == old(
                self,
            ).draw_target,
            old(self).draw_target.kind matches TargetKind::Remote { .. }
                ==> final(self).draw_target == old(self).draw_target,
            old(self).draw_target.kind matches TargetKind::Term {
                term,
                refresh_ms,
                last_draw_ms,
                ..
            } ==> final(self).draw_target.kind == (TargetKind::Term {
                term,
                refresh_ms,
                last_draw_ms: stamped(last_draw_ms, now_ms),
                last_lines: 1,
            }),
    {
        let mut kind = TargetKind::Hidden;
        core::mem::swap(&mut kind, &mut self.draw_target.kind);
        match kind {
            TargetKind::Hidden => {
                self.draw_target.kind = TargetKind::Hidden;
            },
            TargetKind::Remote { multi, idx } => {
                multi.println_above(msg);
                self.draw_target.kind = TargetKind::Remote { multi, idx };
            },
            TargetKind::Term { term, refresh_ms, last_draw_ms, last_lines } => {
                let _ = term.move_cursor_up(last_lines);
                let _ = term.clear_line();
                let _ = term.write_line(msg);
                self.draw_target.kind = TargetKind::Term {
                    term,
                    refresh_ms,
                    last_draw_ms,
                    last_lines: 0,
                };
                let _ = self.draw(true, now_ms);
            },
        }
    }
}

/// The lock invariant of a bar cell: every state reachable through any
/// handle is well formed.
pub struct BarPred {}

impl RwLockPredicate<BarState> for BarPred {
    open spec fn inv(self, v: BarState) -> bool {
        v.wf()
    }
}

/// A non-owning reference to a bar cell, held by the tick driver and by
/// weak handles so that a background task never keeps its subject alive.
#[verifier::external_body]
pub struct WeakCell {
    ptr: std::sync::Weak<RwLock<BarState, BarPred>>,
}

/// Relies on std::sync::Arc::downgrade: a non-owning handle on the same
/// cell, which upgrades only while an owning handle exists.
#[verifier::external_body]
fn downgrade_cell(cell: &Arc<RwLock<BarState, BarPred>>) -> WeakCell {
    WeakCell { ptr: Arc::downgrade(cell) }
}

/// Relies on std::sync::Weak::upgrade: Some exactly while at least one
/// owning handle is still alive; None after the last one is gone. Nothing
/// more is assumed of the result.
#[verifier::external_body]
fn upgrade_cell(w: &WeakCell) -> Option<Arc<RwLock<BarState, BarPred>>> {
    w.ptr.upgrade()
}

/// Relies on std::sync::Weak::new: a non-owning handle that never upgrades.
#[verifier::external_body]
fn empty_cell() -> WeakCell {
    WeakCell { ptr: std::sync::Weak::new() }
}

/// Relies on std::sync::Weak::clone: another non-owning handle on the same
/// cell.
#[verifier::external_body]
fn clone_weak(w: &WeakCell) -> WeakCell {
    WeakCell { ptr: w.ptr.clone() }
}

/// What one wake of the tick driver decided.
pub enum TickDriverStep {
    /// The bar is gone, finished, or ticking was disabled: the loop exits.
    Stop,
    /// Sleep this many milliseconds and wake again.
    Continue(u64),
}

/// A progress bar or spinner: a shared handle on one bar cell. Cloning the
/// handle shares the cell, so every copy observes the same bar.
#[derive(Clone)]
pub struct ProgressBar {
    state: Arc<RwLock<BarState, BarPred>>,
}

impl ProgressBar {
    /// A bar of the given length, drawing to standard error, at most about
    /// 15 frames a second.
    pub fn new(len: u64) -> ProgressBar {
        ProgressBar::with_draw_target(len, ProgressDrawTarget::stderr())
    }

    /// A completely hidden bar: it responds to every call but renders
    /// nowhere.
    pub fn hidden() -> ProgressBar {
        ProgressBar::with_draw_target(UNKNOWN_LEN, ProgressDrawTarget::hidden())
    }

    /// A bar of the given length on the given output target.
    pub fn with_draw_target(len: u64, draw_target: ProgressDrawTarget) -> ProgressBar {
        let now = now_millis();
        let st = BarState { state: ProgressState::new(len, now), draw_target };
        ProgressBar { state: Arc::new(RwLock::new(st, Ghost(BarPred {  }))) }
    }

    /// Builder form: replaces the style.
    pub fn with_style(self, style: ProgressStyle) -> ProgressBar {
        self.set_style(style);
        self
    }

    /// Builder form: sets the prefix, without ticking or drawing.
    pub fn with_prefix(self, prefix: String) -> ProgressBar {
        let (mut st, handle) = self.state.acquire_write();
        st.state.prefix = prefix;
        handle.release_write(st);
        self
    }

    /// Builder form: sets the message, without ticking or drawing.
    pub fn with_message(self, message: String) -> ProgressBar {
        let (mut st, handle) = self.state.acquire_write();
        st.state.message = message;
        handle.release_write(st);
        self
    }

    /// Builder form: sets the position, without ticking or drawing.
    pub fn with_position(self, pos: u64) -> ProgressBar {
        let (mut st, handle) = self.state.acquire_write();
        st.state.pos = pos;
        handle.release_write(st);
        self
    }

    /// Builder form: pretends the bar started the given number of
    /// milliseconds ago.
    pub fn with_elapsed(self, elapsed_ms: u64) -> ProgressBar {
        let now = now_millis();
        let (mut st, handle) = self.state.acquire_write();
        st.state.started_ms = now.saturating_sub(elapsed_ms);
        handle.release_write(st);
        self
    }

    /// A spinner: a bar of unknown length with the spinner style.
    pub fn new_spinner() -> ProgressBar {
        let rv = ProgressBar::new(UNKNOWN_LEN);
        rv.set_style(ProgressStyle::default_spinner());
        rv
    }

    /// Replaces the style without redrawing; a style with no animation
    /// frames falls back to the default frames.
    pub fn set_style(&self, style: ProgressStyle) {
        let normalized = style.normalized();
        let (mut st, handle) = self.state.acquire_write();
        st.state.style = normalized;
        handle.release_write(st);
    }

    /// Stores the steady-tick interval; returns true exactly when the
    /// caller must start a driver loop for this bar (none runs yet). The
    /// driver loop sleeps the interval, then calls [`Self::steady_tick_step`]
    /// through a weak handle, until that asks it to stop.
    pub fn enable_steady_tick(&self, ms: u64) -> bool {
        let now = now_millis();
        let (mut st, handle) = self.state.acquire_write();
        let spawn = st.state.enable_tick_decision(ms);
        st.state.apply(UpdateAction::Tick, now);
        let _ = st.draw(true, now);
        handle.release_write(st);
        spawn
    }

    /// Undoes [`Self::enable_steady_tick`]: the driver observes the zero
    /// interval on its next wake and exits.
    pub fn disable_steady_tick(&self) {
        let _ = self.enable_steady_tick(0);
    }

    /// One wake of the tick driver: re-validates that the bar still ticks,
    /// then advances the animation and forces a frame.
    pub fn steady_tick_step(&self) -> TickDriverStep {
        let now = now_millis();
        let (mut st, handle) = self.state.acquire_write();
        let stop = st.state.driver_step_decision();
        if stop {
            handle.release_write(st);
            TickDriverStep::Stop
        } else {
            let interval = st.state.steady_tick;
            let _ = st.draw(true, now);
            handle.release_write(st);
            TickDriverStep::Continue(interval)
        }
    }

    /// Manually ticks the spinner or bar.
    pub fn tick(&self) {
        let now = now_millis();
        let (mut st, handle) = self.state.acquire_write();
        let _ = st.update_and_draw(UpdateAction::Tick, now);
        handle.release_write(st);
    }

    /// Advances the position by `delta`, saturating.
    pub fn inc(&self, delta: u64) {
        let now = now_millis();
        let (mut st, handle) = self.state.acquire_write();
        let _ = st.update_and_draw(UpdateAction::Inc(delta), now);
        handle.release_write(st);
    }

    /// Whether the output target suppresses all output.
    pub fn is_hidden(&self) -> bool {
        let handle = self.state.acquire_read();
        let r = handle.borrow().draw_target.is_hidden();
        handle.release_read();
        r
    }

    /// Whether the bar has reached its terminal state.
    pub fn is_finished(&self) -> bool {
        let handle = self.state.acquire_read();
        let r = handle.borrow().state.is_finished();
        handle.release_read();
        r
    }

    /// Prints a log line above the bar; a no-op when the target is
    /// suppressed (use [`Self::suspend`] for guaranteed output).
    pub fn println(&self, msg: &str) {
        let now = now_millis();
        let (mut st, handle) = self.state.acquire_write();
        st.println_line(msg, now);
        handle.release_write(st);
    }

    /// Sets the position.
    pub fn set_position(&self, pos: u64) {
        let now = now_millis();
        let (mut st, handle) = self.state.acquire_write();
        let _ = st.update_and_draw(UpdateAction::SetPosition(pos), now);
        handle.release_write(st);
    }

    /// Sets the length.
    pub fn set_length(&self, len: u64) {
        let now = now_millis();
        let (mut st, handle) = self.state.acquire_write();
        let _ = st.update_and_draw(UpdateAction::SetLength(len), now);
        handle.release_write(st);
    }

    /// Grows the length by `delta`, saturating.
    pub fn inc_length(&self, delta: u64) {
        let now = now_millis();
        let (mut st, handle) = self.state.acquire_write();
        let _ = st.update_and_draw(UpdateAction::IncLength(delta), now);
        handle.release_write(st);
    }

    /// Sets the prefix shown before the bar.
    pub fn set_prefix(&self, prefix: String) {
        let now = now_millis();
        let (mut st, handle) = self.state.acquire_write();
        let _ = st.update_and_draw(UpdateAction::SetPrefix(prefix), now);
        handle.release_write(st);
    }

    /// Sets the message shown after the bar.
    pub fn set_message(&self, message: String) {
        let now = now_millis();
        let (mut st, handle) = self.state.acquire_write();
        let _ = st.update_and_draw(UpdateAction::SetMessage(message), now);
        handle.release_write(st);
    }

    /// A new weak, non-owning handle on the same bar.
    pub fn downgrade(&self) -> WeakProgressBar {
        WeakProgressBar { cell: downgrade_cell(&self.state) }
    }

    /// Restarts the ETA history at the current position.
    pub fn reset_eta(&self) {
        let now = now_millis();
        let (mut st, handle) = self.state.acquire_write();
        let _ = st.update_and_draw(UpdateAction::ResetEta, now);
        handle.release_write(st);
    }

    /// Restarts the elapsed-time clock.
    pub fn reset_elapsed(&self) {
        let now = now_millis();
        let (mut st, handle) = self.state.acquire_write();
        let _ = st.update_and_draw(UpdateAction::ResetElapsed, now);
        handle.release_write(st);
    }

    /// Back to a fresh in-progress bar: position zero, clocks restarted.
    pub fn reset(&self) {
        let now = now_millis();
        let (mut st, handle) = self.state.acquire_write();
        let _ = st.update_and_draw(UpdateAction::Reset, now);
        handle.release_write(st);
    }

    /// Finishes: snaps the position to a known length and leaves the final
    /// frame visible.
    pub fn finish(&self) {
        let now = now_millis();
        let (mut st, handle) = self.state.acquire_write();
        st.finish_with(ProgressFinish::AndLeave, now);
        handle.release_write(st);
    }

    /// Finishes at the current position, leaving the frame visible.
    pub fn finish_at_current_pos(&self) {
        let now = now_millis();
        let (mut st, handle) = self.state.acquire_write();
        st.finish_with(ProgressFinish::AtCurrentPos, now);
        handle.release_write(st);
    }

    /// Sets the message, then finishes.
    pub fn finish_with_message(&self, msg: String) {
        let now = now_millis();
        let (mut st, handle) = self.state.acquire_write();
        st.finish_with(ProgressFinish::WithMessage(msg), now);
        handle.release_write(st);
    }

    /// Finishes and erases the bar's footprint instead of leaving a frame.
    pub fn finish_and_clear(&self) {
        let now = now_millis();
        let (mut st, handle) = self.state.acquire_write();
        st.finish_with(ProgressFinish::AndClear, now);
        handle.release_write(st);
    }

    /// Gives up: finishes while keeping the current position and frame.
    pub fn abandon(&self) {
        let now = now_millis();
        let (mut st, handle) = self.state.acquire_write();
        st.finish_with(ProgressFinish::Abandon, now);
        handle.release_write(st);
    }

    /// Sets the message, then gives up at the current position.
    pub fn abandon_with_message(&self, msg: String) {
        let now = now_millis();
        let (mut st, handle) = self.state.acquire_write();
        st.finish_with(ProgressFinish::AbandonWithMessage(msg), now);
        handle.release_write(st);
    }

    /// Finishes the way the style's on-finish policy says.
    pub fn finish_using_style(&self) {
        let now = now_millis();
        let (mut st, handle) = self.state.acquire_write();
        let how = st.state.style.clone_on_finish();
        st.finish_with(how, now);
        handle.release_write(st);
    }

    /// Points the bar at a different output target, disconnecting the old
    /// one first (a shared-region slot is released).
    pub fn set_draw_target(&self, target: ProgressDrawTarget) {
        let (mut st, handle) = self.state.acquire_write();
        st.draw_target.disconnect();
        st.draw_target = target;
        handle.release_write(st);
    }

    /// Hides the bar, runs `f` while holding the bar's lock (other handles
    /// block for the duration), repaints, and returns what `f` returned.
    pub fn suspend<F: FnOnce() -> R, R>(&self, f: F) -> (r: R)
        requires
            f.requires(()),
        ensures
            f.ensures((), r),
    {
        let now = now_millis();
        let (mut st, handle) = self.state.acquire_write();
        st.clear_frame(now);
        let r = f();
        let _ = st.draw(true, now);
        handle.release_write(st);
        r
    }

    /// The current position.
    pub fn position(&self) -> u64 {
        let handle = self.state.acquire_read();
        let r = handle.borrow().state.pos;
        handle.release_read();
        r
    }

    /// The current length; `UNKNOWN_LEN` for a spinner.
    pub fn length(&self) -> u64 {
        let handle = self.state.acquire_read();
        let r = handle.borrow().state.len;
        handle.release_read();
        r
    }

    /// The completion fraction in parts per million.
    pub fn fraction(&self) -> u32 {
        let handle = self.state.acquire_read();
        let r = handle.borrow().state.fraction();
        handle.release_read();
        r
    }

    /// The estimated milliseconds until completion.
    pub fn eta(&self) -> u64 {
        let handle = self.state.acquire_read();
        let r = handle.borrow().state.eta_ms();
        handle.release_read();
        r
    }

    /// The estimated total milliseconds: elapsed plus ETA.
    pub fn duration(&self) -> u64 {
        let now = now_millis();
        let handle = self.state.acquire_read();
        let r = handle.borrow().state.duration_ms(now);
        handle.release_read();
        r
    }

    /// Milliseconds since the bar started.
    pub fn elapsed(&self) -> u64 {
        let now = now_millis();
        let handle = self.state.acquire_read();
        let r = handle.borrow().state.elapsed_ms(now);
        handle.release_read();
        r
    }

    /// The bar's slot index when it paints into a shared region.
    pub fn index(&self) -> Option<usize> {
        let handle = self.state.acquire_read();
        let r = handle.borrow().draw_target.remote_index();
        handle.release_read();
        r
    }

    /// A snapshot of the indicator state at this instant.
    pub fn state(&self) -> ProgressState {
        let handle = self.state.acquire_read();
        let r = handle.borrow().state.snapshot();
        handle.release_read();
        r
    }
}

/// A weak reference to a bar: it does not keep the bar alive, and upgrades
/// only while an owning handle still exists. This is what a custom steady
/// tick loop should hold.
pub struct WeakProgressBar {
    cell: WeakCell,
}

impl Clone for WeakProgressBar {
    fn clone(&self) -> (r: Self) {
        WeakProgressBar { cell: clone_weak(&self.cell) }
    }
}

impl WeakProgressBar {
    /// A weak handle that never upgrades.
    pub fn new() -> WeakProgressBar {
        WeakProgressBar { cell: empty_cell() }
    }

    /// Some handle on the same cell while an owning handle exists;
    /// None once the last owning handle is gone.
    pub fn upgrade(&self) -> Option<ProgressBar> {
        match upgrade_cell(&self.cell) {
            Some(cell) => Some(ProgressBar { state: cell }),
            None => None,
        }
    }
}

/// A forced redraw attempt never goes unpainted, except on a suppressed
/// target: finish-family calls, `suspend` and `println` always reach the
/// sink.
pub proof fn lemma_forced_draw_paints(
    pre: ProgressDrawTarget,
    post: ProgressDrawTarget,
    now_ms: u64,
    painted: bool,
)
    requires
        !(pre.kind is Hidden),
        paint_transition(pre, post, true, now_ms, painted),
    ensures
        painted,
{
}

/// Redraw timestamps are monotonic per output target: no attempt, painted
/// or skipped, moves a direct terminal's last-draw stamp backwards.
pub proof fn lemma_stamp_monotonic(
    pre: ProgressDrawTarget,
    post: ProgressDrawTarget,
    force: bool,
    now_ms: u64,
    painted: bool,
)
    requires
        pre.kind is Term,
        paint_transition(pre, post, force, now_ms, painted),
    ensures
        post.kind is Term,
        crate::draw_target::term_last_draw_ms(&post) >= crate::draw_target::term_last_draw_ms(
            &pre,
        ),
{
}

/// Two unforced redraw attempts issued within one refresh interval paint at
/// most once on a direct terminal: throttling coalesces them.
pub proof fn lemma_throttle_coalesces(
    t0: ProgressDrawTarget,
    t1: ProgressDrawTarget,
    t2: ProgressDrawTarget,
    refresh_ms: u64,
    now1: u64,
    now2: u64,
    p1: bool,
    p2: bool,
)
    requires
        refresh_ms > 0,
        t0.kind matches TargetKind::Term { refresh_ms: r0, .. } && r0 == refresh_ms,
        paint_transition(t0, t1, false, now1, p1),
        paint_transition(t1, t2, false, now2, p2),
        crate::state::sat_sub(now2, now1) < refresh_ms,
    ensures
        !(p1 && p2),
{
    if p1 && p2 {
        match t0.kind {
            TargetKind::Term { term, refresh_ms: r, last_draw_ms: l0, last_lines } => {
                match t1.kind {
                    TargetKind::Term { refresh_ms: r1, last_draw_ms: l1, .. } => {
                        assert(l1 == crate::draw_target::stamped(l0, now1));
                        assert(l1 >= now1);
                        assert(crate::state::sat_sub(now2, l1) <= crate::state::sat_sub(
                            now2,
                            now1,
                        ));
                        assert(!should_paint_spec(false, now2, l1, r1));
                    },
                    _ => {
                        assert(false);
                    },
                }
            },
            _ => {
                assert(false);
            },
        }
    }
}

} // verus!
