//! The style collaborator: what the renderer needs from a bar beyond its
//! numeric state, and the on-finish cleanup policy.

use vstd::prelude::*;

verus! {

/// What a finish driven by the style should do with the final frame.
pub enum ProgressFinish {
    /// Leave the final frame visible.
    AndLeave,
    /// Leave the frame visible without snapping the position to the length.
    AtCurrentPos,
    /// Set this message, then leave the frame visible.
    WithMessage(String),
    /// Erase the bar's footprint.
    AndClear,
    /// Keep the current position and leave the frame visible.
    Abandon,
    /// Set this message, keep the current position, leave the frame visible.
    AbandonWithMessage(String),
}

/// Style settings consumed by the renderer: the spinner animation frames and
/// the on-finish cleanup policy.
pub struct ProgressStyle {
    /// Animation frames for a bar of unknown length; never empty.
    pub tick_chars: Vec<char>,
    /// Policy applied by a finish that delegates the leave-vs-clear choice.
    pub on_finish: ProgressFinish,
}

impl ProgressStyle {
    /// A style is usable when it has at least one animation frame.
    pub open spec fn wf(&self) -> bool {
        self.tick_chars@.len() >= 1
    }

    /// The default style for a bar with a known length.
    pub fn default_bar() -> (r: ProgressStyle)
        ensures
            r.wf(),
            r.on_finish is AndLeave,
    {
        ProgressStyle { tick_chars: vec!['|', '/', '-', '\\'], on_finish: ProgressFinish::AndLeave }
    }

    /// The default style for a spinner (a bar of unknown length).
    pub fn default_spinner() -> (r: ProgressStyle)
        ensures
            r.wf(),
            r.on_finish is AndLeave,
    {
        ProgressStyle { tick_chars: vec!['|', '/', '-', '\\'], on_finish: ProgressFinish::AndLeave }
    }

    /// Replaces the on-finish policy.
    pub fn on_finish(self, policy: ProgressFinish) -> (r: ProgressStyle)
        ensures
            r.tick_chars == self.tick_chars,
            r.on_finish == policy,
    {
        ProgressStyle { on_finish: policy, ..self }
    }

    /// The animation frame shown for a given tick count.
    pub open spec fn spec_tick_char(&self, tick: u64) -> char
        recommends
            self.wf(),
    {
        self.tick_chars@[tick as int % self.tick_chars@.len() as int]
    }

    /// The same style, with the default animation frames put in when none
    /// were given, so that every stored style is usable.
    pub fn normalized(self) -> (r: ProgressStyle)
        ensures
            r.wf(),
            r.on_finish == self.on_finish,
            self.wf() ==> r == self,
    {
        if self.tick_chars.len() == 0 {
            ProgressStyle { tick_chars: vec!['|', '/', '-', '\\'], on_finish: self.on_finish }
        } else {
            self
        }
    }

    /// A copy of the on-finish policy, message text included.
    pub fn clone_on_finish(&self) -> (r: ProgressFinish)
        ensures
            self.on_finish is AndLeave ==> r is AndLeave,
            self.on_finish is AtCurrentPos ==> r is AtCurrentPos,
            self.on_finish is AndClear ==> r is AndClear,
            self.on_finish is Abandon ==> r is Abandon,
            self.on_finish matches ProgressFinish::WithMessage(m) ==> (
            r matches ProgressFinish::WithMessage(m2) && m2 == m),
            self.on_finish matches ProgressFinish::AbandonWithMessage(m) ==> (
            r matches ProgressFinish::AbandonWithMessage(m2) && m2 == m),
    {
        match &self.on_finish {
            ProgressFinish::AndLeave => ProgressFinish::AndLeave,
            ProgressFinish::AtCurrentPos => ProgressFinish::AtCurrentPos,
            ProgressFinish::WithMessage(m) => ProgressFinish::WithMessage(m.clone()),
            ProgressFinish::AndClear => ProgressFinish::AndClear,
            ProgressFinish::Abandon => ProgressFinish::Abandon,
            ProgressFinish::AbandonWithMessage(m) => ProgressFinish::AbandonWithMessage(m.clone()),
        }
    }

    /// A copy of this style with the same frames and policy.
    pub fn snapshot(&self) -> (r: ProgressStyle)
        ensures
            r.tick_chars@ == self.tick_chars@,
            self.wf() ==> r.wf(),
    {
        let mut chars: Vec<char> = Vec::new();
        let n = self.tick_chars.len();
        let mut i: usize = 0;
        while i < n
            invariant
                n == self.tick_chars@.len(),
                i <= n,
                chars@ == self.tick_chars@.take(i as int),
            decreases n - i,
        {
            chars.push(self.tick_chars[i]);
            proof {
                assert(self.tick_chars@.take(i + 1) =~= self.tick_chars@.take(i as int).push(
                    self.tick_chars@[i as int],
                ));
            }
            i = i + 1;
        }
        proof {
            assert(self.tick_chars@.take(n as int) =~= self.tick_chars@);
        }
        ProgressStyle { tick_chars: chars, on_finish: self.clone_on_finish() }
    }

    /// Picks the animation frame for a tick count, cycling through the frames.
    pub fn tick_char(&self, tick: u64) -> (c: char)
        requires
            self.wf(),
        ensures
            c == self.spec_tick_char(tick),
    {
        let n = self.tick_chars.len();
        let i = (tick % (n as u64)) as usize;
        self.tick_chars[i]
    }
}

} // verus!
