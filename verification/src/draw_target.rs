//! Where a bar's frames go: a throttled direct terminal, a suppressed sink,
//! or a slot in a shared region; and the redraw-rate decision.

use vstd::prelude::*;

use crate::multi::MultiProgress;
use crate::state::sat_sub;
use crate::term_like::{console_stderr, TermLike, Terminal};

verus! {

/// Default refresh interval: at most about 15 redraws a second.
pub const DEFAULT_REFRESH_MS: u64 = 66;

/// Whether a redraw attempt may paint now: always when forced, otherwise
/// only when the refresh interval has passed since the last paint.
pub open spec fn should_paint_spec(force: bool, now_ms: u64, last_ms: u64, refresh_ms: u64) -> bool {
    force || sat_sub(now_ms, last_ms) >= refresh_ms
}

/// A paint stamps the target with the time it ran; the stamp never moves
/// backwards.
pub open spec fn stamped(last_ms: u64, now_ms: u64) -> u64 {
    if now_ms > last_ms {
        now_ms
    } else {
        last_ms
    }
}

/// The three places a frame can go.
pub enum TargetKind {
    /// Straight to a terminal, throttled to one paint per refresh interval
    /// unless forced, remembering when and how many lines it last painted.
    Term { term: Terminal, refresh_ms: u64, last_draw_ms: u64, last_lines: usize },
    /// A suppressed sink: every operation is a no-op.
    Hidden,
    /// A slot inside a shared region; the region repaints as one unit.
    Remote { multi: MultiProgress, idx: usize },
}

/// The last-draw stamp of a direct-terminal target; other targets keep
/// no stamp.
pub open spec fn term_last_draw_ms(t: &ProgressDrawTarget) -> u64 {
    match t.kind {
        TargetKind::Term { last_draw_ms, .. } => last_draw_ms,
        TargetKind::Hidden => 0,
        TargetKind::Remote { .. } => 0,
    }
}

/// The output target of one bar.
pub struct ProgressDrawTarget {
    pub kind: TargetKind,
}

impl ProgressDrawTarget {
    /// A throttled target on the standard-error terminal.
    pub fn stderr() -> (r: ProgressDrawTarget)
        ensures
            r.kind matches TargetKind::Term { refresh_ms, last_draw_ms, last_lines, .. }
                && refresh_ms == DEFAULT_REFRESH_MS && last_draw_ms == 0 && last_lines == 0,
    {
        ProgressDrawTarget {
            kind: TargetKind::Term {
                term: Terminal::Console(console_stderr()),
                refresh_ms: DEFAULT_REFRESH_MS,
                last_draw_ms: 0,
                last_lines: 0,
            },
        }
    }

    /// A suppressed target.
    pub fn hidden() -> (r: ProgressDrawTarget)
        ensures
            r.kind is Hidden,
    {
        ProgressDrawTarget { kind: TargetKind::Hidden }
    }

    /// A throttled target on the given terminal.
    pub fn term_like(term: Terminal, refresh_ms: u64) -> (r: ProgressDrawTarget)
        ensures
            r.kind matches TargetKind::Term {
                term: t,
                refresh_ms: rf,
                last_draw_ms,
                last_lines,
            } && t == term && rf == refresh_ms && last_draw_ms == 0 && last_lines == 0,
    {
        ProgressDrawTarget {
            kind: TargetKind::Term { term, refresh_ms, last_draw_ms: 0, last_lines: 0 },
        }
    }

    /// A target that hands frames to slot `idx` of a shared region.
    pub fn remote(multi: MultiProgress, idx: usize) -> (r: ProgressDrawTarget)
        ensures
            r.kind matches TargetKind::Remote { multi: m, idx: i } && i == idx,
    {
        ProgressDrawTarget { kind: TargetKind::Remote { multi, idx } }
    }

    /// Whether this target suppresses all output.
    pub fn is_hidden(&self) -> (r: bool)
        ensures
            r == (self.kind is Hidden),
    {
        match &self.kind {
            TargetKind::Hidden => true,
            TargetKind::Term { .. } => false,
            TargetKind::Remote { .. } => false,
        }
    }

    /// The slot index when the target paints into a shared region.
    pub fn remote_index(&self) -> (r: Option<usize>)
        ensures
            match r {
                Some(i) => self.kind matches TargetKind::Remote { idx, .. } && i == idx,
                None => !(self.kind is Remote),
            },
    {
        match &self.kind {
            TargetKind::Remote { idx, .. } => Some(*idx),
            TargetKind::Term { .. } => None,
            TargetKind::Hidden => None,
        }
    }

    /// The width of the terminal behind this target; a suppressed target
    /// reports no width.
    pub fn width(&self) -> usize {
        match &self.kind {
            TargetKind::Term { term, .. } => term.width(),
            TargetKind::Hidden => 0,
            TargetKind::Remote { multi, .. } => multi.region_width(),
        }
    }

    /// Cuts the target loose before it is replaced: a shared-region slot is
    /// released, the other kinds need nothing.
    pub fn disconnect(&self) {
        match &self.kind {
            TargetKind::Remote { multi, idx } => {
                multi.release_slot(*idx);
            },
            TargetKind::Term { .. } => (),
            TargetKind::Hidden => (),
        }
    }
}

/// Decides whether a redraw attempt may paint now.
pub fn should_paint(force: bool, now_ms: u64, last_ms: u64, refresh_ms: u64) -> (r: bool)
    ensures
        r == should_paint_spec(force, now_ms, last_ms, refresh_ms),
{
    force || now_ms.saturating_sub(last_ms) >= refresh_ms
}

} // verus!
