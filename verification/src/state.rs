//! The numeric and textual state of one indicator, and the rate estimator
//! that smooths position samples over time into an ETA.

use vstd::prelude::*;

use crate::style::ProgressStyle;

verus! {

/// Reserved length value that stands for "length unknown" (a spinner).
pub const UNKNOWN_LEN: u64 = 0xffff_ffff_ffff_ffff;

/// Denominator of the fixed-point completion fraction: a fraction of
/// `FRACTION_SCALE` parts per million stands for 1.0.
pub const FRACTION_SCALE: u32 = 1_000_000;

/// Most position samples the estimator keeps at once.
pub const SAMPLE_CAP: usize = 16;

/// Whether an indicator is still running; `Finished` is terminal.
#[derive(Clone, Copy, PartialEq, Eq, Structural)]
pub enum Status {
    InProgress,
    Finished,
}

/// Saturating addition on `u64`, as the position and length arithmetic uses it.
pub open spec fn sat_add(a: u64, b: u64) -> u64 {
    if a + b > u64::MAX {
        u64::MAX
    } else {
        (a + b) as u64
    }
}

/// Saturating subtraction on `u64`.
pub open spec fn sat_sub(a: u64, b: u64) -> u64 {
    if a < b {
        0
    } else {
        (a - b) as u64
    }
}

/// The completion fraction in parts per million: 1.0 when the length is zero,
/// 0.0 when the length is unknown, otherwise `pos / len` clamped to 1.0.
pub open spec fn fraction_spec(pos: u64, len: u64) -> u32 {
    if len == UNKNOWN_LEN {
        0
    } else if len == 0 {
        FRACTION_SCALE
    } else if pos >= len {
        FRACTION_SCALE
    } else {
        ((pos as nat * FRACTION_SCALE as nat) / len as nat) as u32
    }
}

/// A bounded history of (milliseconds, position) samples; the ETA is derived
/// from the window it spans.
pub struct Estimator {
    /// Samples in the order they were recorded, oldest first.
    pub samples: Vec<(u64, u64)>,
}

impl Estimator {
    /// The history never outgrows its bound.
    pub open spec fn wf(&self) -> bool {
        self.samples@.len() <= SAMPLE_CAP
    }

    /// A fresh estimator holds no samples.
    pub fn new() -> (r: Estimator)
        ensures
            r.wf(),
            r.samples@.len() == 0,
    {
        Estimator { samples: Vec::new() }
    }

    /// Records one sample, dropping the oldest when the history is full.
    pub fn record(&mut self, now_ms: u64, pos: u64)
        requires
            old(self).wf(),
        ensures
            final(self).wf(),
            final(self).samples@ == if old(self).samples@.len() < SAMPLE_CAP {
                old(self).samples@.push((now_ms, pos))
            } else {
                old(self).samples@.drop_first().push((now_ms, pos))
            },
    {
        if self.samples.len() >= SAMPLE_CAP {
            self.samples.remove(0);
        }
        self.samples.push((now_ms, pos));
    }

    /// Forgets all history, as after a large jump or a pause.
    pub fn reset(&mut self)
        ensures
            final(self).wf(),
            final(self).samples@.len() == 0,
    {
        self.samples.clear();
    }

    /// The smoothed rate over the sample window, as (positions advanced,
    /// milliseconds elapsed); zero positions when the window is empty or
    /// moved backwards.
    pub open spec fn window_spec(&self) -> (u64, u64) {
        if self.samples@.len() < 2 {
            (0, 0)
        } else {
            let first = self.samples@.first();
            let last = self.samples@.last();
            (sat_sub(last.1, first.1), sat_sub(last.0, first.0))
        }
    }

    /// Milliseconds estimated until `remaining` more positions pass at the
    /// window's rate; zero when the window shows no forward progress.
    pub open spec fn eta_ms_spec(&self, remaining: u64) -> u64 {
        let (dpos, dt) = self.window_spec();
        if dpos == 0 {
            0
        } else {
            let q = (remaining as nat * dt as nat) / dpos as nat;
            if q > u64::MAX {
                u64::MAX
            } else {
                q as u64
            }
        }
    }

    /// Computes the ETA for `remaining` positions from the sample window.
    pub fn eta_ms(&self, remaining: u64) -> (r: u64)
        ensures
            r == self.eta_ms_spec(remaining),
    {
        if self.samples.len() < 2 {
            return 0;
        }
        let first = self.samples[0];
        let last = self.samples[self.samples.len() - 1];
        let dpos: u64 = last.1.saturating_sub(first.1);
        let dt: u64 = last.0.saturating_sub(first.0);
        if dpos == 0 {
            return 0;
        }
        proof {
            assert((remaining as nat) * (dt as nat) <= (u64::MAX as nat) * (u64::MAX as nat))
                by (nonlinear_arith)
                requires
                    remaining <= u64::MAX,
                    dt <= u64::MAX,
            ;
        }
        let q: u128 = (remaining as u128) * (dt as u128) / (dpos as u128);
        if q > u64::MAX as u128 {
            u64::MAX
        } else {
            q as u64
        }
    }
}

/// The full mutable state of one indicator.
pub struct ProgressState {
    /// How far the work has come; may exceed `len`.
    pub pos: u64,
    /// Total amount of work, or `UNKNOWN_LEN` for a spinner.
    pub len: u64,
    /// Animation counter, advanced by explicit updates and the tick driver.
    pub tick: u64,
    /// When the bar started, in clock milliseconds.
    pub started_ms: u64,
    /// Interval of the background tick driver in milliseconds; 0 = disabled.
    pub steady_tick: u64,
    /// Whether a background tick driver currently runs for this bar.
    pub driver_running: bool,
    /// Whether the bar has reached its terminal state.
    pub status: Status,
    /// Text the renderer places before the bar.
    pub prefix: String,
    /// Text the renderer places after the bar.
    pub message: String,
    /// The rate estimator fed by position updates.
    pub est: Estimator,
    /// The style collaborator's settings.
    pub style: ProgressStyle,
}

impl ProgressState {
    /// Every reachable state keeps its estimator bounded and its style usable.
    pub open spec fn wf(&self) -> bool {
        &&& self.est.wf()
        &&& self.style.wf()
    }

    /// A fresh state: position zero, the given length, not finished, ticking
    /// disabled, empty texts.
    pub fn new(len: u64, now_ms: u64) -> (r: ProgressState)
        ensures
            r.wf(),
            r.pos == 0,
            r.len == len,
            r.tick == 0,
            r.started_ms == now_ms,
            r.steady_tick == 0,
            !r.driver_running,
            r.status is InProgress,
            r.prefix@.len() == 0,
            r.message@.len() == 0,
            r.est.samples@.len() == 0,
    {
        ProgressState {
            pos: 0,
            len,
            tick: 0,
            started_ms: now_ms,
            steady_tick: 0,
            driver_running: false,
            status: Status::InProgress,
            prefix: String::new(),
            message: String::new(),
            est: Estimator::new(),
            style: ProgressStyle::default_bar(),
        }
    }

    /// Whether the bar has reached its terminal state.
    pub fn is_finished(&self) -> (r: bool)
        ensures
            r == (self.status is Finished),
    {
        self.status == Status::Finished
    }

    /// The completion fraction in parts per million, always in
    /// `[0, FRACTION_SCALE]`.
    pub fn fraction(&self) -> (r: u32)
        ensures
            r == fraction_spec(self.pos, self.len),
            r <= FRACTION_SCALE,
    {
        proof {
            lemma_fraction_bounds(self.pos, self.len);
        }
        if self.len == UNKNOWN_LEN {
            0
        } else if self.len == 0 {
            FRACTION_SCALE
        } else if self.pos >= self.len {
            FRACTION_SCALE
        } else {
            let num: u128 = (self.pos as u128) * (FRACTION_SCALE as u128);
            let q: u128 = num / (self.len as u128);
            q as u32
        }
    }

    /// The tick counter advances on an explicit update only while no steady
    /// tick runs, or before the very first frame; the tick driver advances it
    /// otherwise, so one update never counts twice.
    pub open spec fn bumped_tick(&self) -> u64 {
        if self.steady_tick == 0 || self.tick == 0 {
            sat_add(self.tick, 1)
        } else {
            self.tick
        }
    }

    /// Advances the animation counter for an explicit update.
    pub fn bump_tick(&mut self)
        ensures
            *final(self) == (ProgressState { tick: old(self).bumped_tick(), ..*old(self) }),
    {
        if self.steady_tick == 0 || self.tick == 0 {
            self.tick = self.tick.saturating_add(1);
        }
    }

    /// Advances the position by `delta`, saturating, and ticks.
    pub fn inc_update(&mut self, delta: u64)
        ensures
            *final(self) == (ProgressState {
                pos: sat_add(old(self).pos, delta),
                tick: old(self).bumped_tick(),
                ..*old(self)
            }),
    {
        self.pos = self.pos.saturating_add(delta);
        self.bump_tick();
    }

    /// Sets the position and ticks.
    pub fn set_pos_update(&mut self, pos: u64)
        ensures
            *final(self) == (ProgressState {
                pos,
                tick: old(self).bumped_tick(),
                ..*old(self)
            }),
    {
        self.pos = pos;
        self.bump_tick();
    }

    /// Sets the length.
    pub fn set_len_update(&mut self, len: u64)
        ensures
            *final(self) == (ProgressState { len, ..*old(self) }),
    {
        self.len = len;
    }

    /// Grows the length by `delta`, saturating.
    pub fn inc_len_update(&mut self, delta: u64)
        ensures
            *final(self) == (ProgressState {
                len: sat_add(old(self).len, delta),
                ..*old(self)
            }),
    {
        self.len = self.len.saturating_add(delta);
    }

    /// Sets the prefix and ticks.
    pub fn set_prefix_update(&mut self, prefix: String)
        ensures
            *final(self) == (ProgressState {
                prefix,
                tick: old(self).bumped_tick(),
                ..*old(self)
            }),
    {
        self.prefix = prefix;
        self.bump_tick();
    }

    /// Sets the message and ticks.
    pub fn set_message_update(&mut self, message: String)
        ensures
            *final(self) == (ProgressState {
                message,
                tick: old(self).bumped_tick(),
                ..*old(self)
            }),
    {
        self.message = message;
        self.bump_tick();
    }

    /// Marks the bar finished, snapping the position to the length when the
    /// length is known. The status never reverts.
    pub fn finish_update(&mut self)
        ensures
            *final(self) == (ProgressState {
                pos: if old(self).len == UNKNOWN_LEN {
                    old(self).pos
                } else {
                    old(self).len
                },
                status: Status::Finished,
                ..*old(self)
            }),
    {
        if self.len != UNKNOWN_LEN {
            self.pos = self.len;
        }
        self.status = Status::Finished;
    }

    /// Marks the bar finished without moving the position.
    pub fn finish_at_current_pos_update(&mut self)
        ensures
            *final(self) == (ProgressState { status: Status::Finished, ..*old(self) }),
    {
        self.status = Status::Finished;
    }

    /// Restarts the ETA history at the current position.
    pub fn reset_eta_update(&mut self, now_ms: u64)
        requires
            old(self).wf(),
        ensures
            final(self).wf(),
            *final(self) == (ProgressState { est: final(self).est, ..*old(self) }),
            final(self).est.samples@.len() == 1,
            final(self).est.samples@[0] == (now_ms, old(self).pos),
    {
        self.est.reset();
        let pos = self.pos;
        self.est.record(now_ms, pos);
    }

    /// Restarts the elapsed-time clock.
    pub fn reset_elapsed_update(&mut self, now_ms: u64)
        ensures
            *final(self) == (ProgressState { started_ms: now_ms, ..*old(self) }),
    {
        self.started_ms = now_ms;
    }

    /// Milliseconds since the bar started; zero when the clock moved back.
    pub fn elapsed_ms(&self, now_ms: u64) -> (r: u64)
        ensures
            r == sat_sub(now_ms, self.started_ms),
    {
        now_ms.saturating_sub(self.started_ms)
    }

    /// Work left before the bar is complete; zero for a finished or unknown
    /// length.
    pub open spec fn remaining_spec(&self) -> u64 {
        if self.len == UNKNOWN_LEN || self.status is Finished {
            0
        } else {
            sat_sub(self.len, self.pos)
        }
    }

    /// The estimated milliseconds until completion.
    pub fn eta_ms(&self) -> (r: u64)
        ensures
            r == self.est.eta_ms_spec(self.remaining_spec()),
    {
        let remaining: u64 = if self.len == UNKNOWN_LEN || self.is_finished() {
            0
        } else {
            self.len.saturating_sub(self.pos)
        };
        self.est.eta_ms(remaining)
    }

    /// The estimated total duration: elapsed time plus ETA, saturating.
    pub fn duration_ms(&self, now_ms: u64) -> (r: u64)
        ensures
            r == sat_add(
                sat_sub(now_ms, self.started_ms),
                self.est.eta_ms_spec(self.remaining_spec()),
            ),
    {
        self.elapsed_ms(now_ms).saturating_add(self.eta_ms())
    }
}

/// One mutation of the indicator state, as the update-and-draw transaction
/// applies it.
pub enum UpdateAction {
    /// Advance the animation counter only.
    Tick,
    /// Advance the position by this much, saturating.
    Inc(u64),
    /// Set the position.
    SetPosition(u64),
    /// Set the length.
    SetLength(u64),
    /// Grow the length by this much, saturating.
    IncLength(u64),
    /// Replace the prefix text.
    SetPrefix(String),
    /// Replace the message text.
    SetMessage(String),
    /// Forget the ETA history.
    ResetEta,
    /// Restart the elapsed-time clock.
    ResetElapsed,
    /// Back to a fresh in-progress state.
    Reset,
}

/// The sample history after one more sample: the oldest drops out when the
/// bound is reached.
pub open spec fn samples_after(s: Seq<(u64, u64)>, now_ms: u64, pos: u64) -> Seq<(u64, u64)> {
    if s.len() < SAMPLE_CAP {
        s.push((now_ms, pos))
    } else {
        s.drop_first().push((now_ms, pos))
    }
}

/// Exactly what one update does to the indicator state.
pub open spec fn apply_rel(
    pre: ProgressState,
    post: ProgressState,
    a: UpdateAction,
    now_ms: u64,
) -> bool {
    match a {
        UpdateAction::Tick => post == (ProgressState { tick: pre.bumped_tick(), ..pre }),
        UpdateAction::Inc(d) => {
            &&& post.est.samples@ == samples_after(pre.est.samples@, now_ms, sat_add(pre.pos, d))
            &&& post == (ProgressState {
                pos: sat_add(pre.pos, d),
                tick: pre.bumped_tick(),
                est: post.est,
                ..pre
            })
        },
        UpdateAction::SetPosition(p) => {
            &&& post.est.samples@ == samples_after(pre.est.samples@, now_ms, p)
            &&& post == (ProgressState {
                pos: p,
                tick: pre.bumped_tick(),
                est: post.est,
                ..pre
            })
        },
        UpdateAction::SetLength(l) => post == (ProgressState { len: l, ..pre }),
        UpdateAction::IncLength(d) => post == (ProgressState {
            len: sat_add(pre.len, d),
            ..pre
        }),
        UpdateAction::SetPrefix(px) => {
            &&& post.prefix == px
            &&& post == (ProgressState {
                prefix: post.prefix,
                tick: pre.bumped_tick(),
                ..pre
            })
        },
        UpdateAction::SetMessage(m) => {
            &&& post.message == m
            &&& post == (ProgressState {
                message: post.message,
                tick: pre.bumped_tick(),
                ..pre
            })
        },
        UpdateAction::ResetEta => {
            &&& post.est.samples@ == seq![(now_ms, pre.pos)]
            &&& post == (ProgressState { est: post.est, ..pre })
        },
        UpdateAction::ResetElapsed => post == (ProgressState { started_ms: now_ms, ..pre }),
        UpdateAction::Reset => {
            &&& post.est.samples@ == seq![(now_ms, pre.pos)]
            &&& post == (ProgressState {
                pos: 0,
                status: Status::InProgress,
                started_ms: now_ms,
                est: post.est,
                ..pre
            })
        },
    }
}

impl ProgressState {
    /// Applies one update, exactly as `apply_rel` states it.
    pub fn apply(&mut self, a: UpdateAction, now_ms: u64)
        requires
            old(self).wf(),
        ensures
            final(self).wf(),
            apply_rel(*old(self), *final(self), a, now_ms),
    {
        match a {
            UpdateAction::Tick => {
                self.bump_tick();
            },
            UpdateAction::Inc(d) => {
                self.inc_update(d);
                let p = self.pos;
                self.est.record(now_ms, p);
            },
            UpdateAction::SetPosition(p) => {
                self.set_pos_update(p);
                self.est.record(now_ms, p);
            },
            UpdateAction::SetLength(l) => {
                self.set_len_update(l);
            },
            UpdateAction::IncLength(d) => {
                self.inc_len_update(d);
            },
            UpdateAction::SetPrefix(px) => {
                self.set_prefix_update(px);
            },
            UpdateAction::SetMessage(m) => {
                self.set_message_update(m);
            },
            UpdateAction::ResetEta => {
                self.reset_eta_update(now_ms);
                proof {
                    assert(self.est.samples@ =~= seq![(now_ms, old(self).pos)]);
                }
            },
            UpdateAction::ResetElapsed => {
                self.reset_elapsed_update(now_ms);
            },
            UpdateAction::Reset => {
                self.reset_eta_update(now_ms);
                proof {
                    assert(self.est.samples@ =~= seq![(now_ms, old(self).pos)]);
                }
                self.reset_elapsed_update(now_ms);
                self.pos = 0;
                self.status = Status::InProgress;
            },
        }
    }

    /// A copy of the indicator state at this instant, field for field.
    pub fn snapshot(&self) -> (r: ProgressState)
        ensures
            r.pos == self.pos,
            r.len == self.len,
            r.tick == self.tick,
            r.started_ms == self.started_ms,
            r.steady_tick == self.steady_tick,
            r.driver_running == self.driver_running,
            r.status == self.status,
            r.prefix == self.prefix,
            r.message == self.message,
            r.est.samples@ == self.est.samples@,
            r.style.tick_chars@ == self.style.tick_chars@,
            self.wf() ==> r.wf(),
    {
        let mut samples: Vec<(u64, u64)> = Vec::new();
        let n = self.est.samples.len();
        let mut i: usize = 0;
        while i < n
            invariant
                n == self.est.samples@.len(),
                i <= n,
                samples@ == self.est.samples@.take(i as int),
            decreases n - i,
        {
            samples.push(self.est.samples[i]);
            proof {
                assert(self.est.samples@.take(i + 1) =~= self.est.samples@.take(i as int).push(
                    self.est.samples@[i as int],
                ));
            }
            i = i + 1;
        }
        proof {
            assert(self.est.samples@.take(n as int) =~= self.est.samples@);
        }
        ProgressState {
            pos: self.pos,
            len: self.len,
            tick: self.tick,
            started_ms: self.started_ms,
            steady_tick: self.steady_tick,
            driver_running: self.driver_running,
            status: self.status,
            prefix: self.prefix.clone(),
            message: self.message.clone(),
            est: Estimator { samples },
            style: self.style.snapshot(),
        }
    }

    /// The enable call's state change: it stores the interval, and asks for
    /// a driver thread exactly when the interval is positive and none runs.
    pub fn enable_tick_decision(&mut self, ms: u64) -> (spawn: bool)
        ensures
            spawn == (ms > 0 && !old(self).driver_running),
            *final(self) == (ProgressState {
                steady_tick: ms,
                driver_running: old(self).driver_running || ms > 0,
                ..*old(self)
            }),
    {
        self.steady_tick = ms;
        let spawn = ms > 0 && !self.driver_running;
        if ms > 0 {
            self.driver_running = true;
        }
        spawn
    }

    /// One wake of the tick driver: it stops, clearing its registration,
    /// exactly when the bar has finished or ticking was disabled; otherwise
    /// it advances the animation counter (unless no frame was ever drawn).
    pub fn driver_step_decision(&mut self) -> (stop: bool)
        ensures
            stop == (old(self).status is Finished || old(self).steady_tick == 0),
            stop ==> *final(self) == (ProgressState {
                steady_tick: 0,
                driver_running: false,
                ..*old(self)
            }),
            !stop ==> *final(self) == (ProgressState {
                tick: if old(self).tick != 0 {
                    sat_add(old(self).tick, 1)
                } else {
                    old(self).tick
                },
                ..*old(self)
            }),
    {
        if self.is_finished() || self.steady_tick == 0 {
            self.steady_tick = 0;
            self.driver_running = false;
            true
        } else {
            if self.tick != 0 {
                self.tick = self.tick.saturating_add(1);
            }
            false
        }
    }
}

/// The completion fraction is always within `[0, FRACTION_SCALE]`; a zero
/// length pins it to 1.0, an unknown length to 0.0, and a position at or
/// past a known length to 1.0.
pub proof fn lemma_fraction_bounds(pos: u64, len: u64)
    ensures
        fraction_spec(pos, len) <= FRACTION_SCALE,
        len == 0 ==> fraction_spec(pos, len) == FRACTION_SCALE,
        len == UNKNOWN_LEN ==> fraction_spec(pos, len) == 0,
        pos >= len && len != UNKNOWN_LEN ==> fraction_spec(pos, len) == FRACTION_SCALE,
{
    if len != UNKNOWN_LEN && len != 0 && pos < len {
        assert((pos as nat) * (FRACTION_SCALE as nat) <= (len as nat) * (FRACTION_SCALE as nat))
            by (nonlinear_arith)
            requires
                pos <= len,
        ;
        assert((len as nat) * (FRACTION_SCALE as nat) / (len as nat) == FRACTION_SCALE as nat)
            by (nonlinear_arith)
            requires
                len > 0,
        ;
        vstd::arithmetic::div_mod::lemma_div_is_ordered(
            ((pos as nat) * (FRACTION_SCALE as nat)) as int,
            ((len as nat) * (FRACTION_SCALE as nat)) as int,
            len as int,
        );
    }
}

} // verus!
