//! The model of one queued, decoded source: a pull-rendered stream of
//! known length that signals its completion exactly once when it drains.

use vstd::prelude::*;

verus! {

/// One decoded source as the sink sees it: a length in milliseconds, the
/// render position, and a completion latch. The latch mirrors a one-shot
/// end-of-source callback: `finish_signal` answers true the first time it
/// is sampled after the source is exhausted, and never again.
#[derive(Clone, Copy, Debug, PartialEq, Eq, Structural)]
pub struct DoneCallback {
    pub duration_ms: u64,
    pub position_ms: u64,
    pub done: bool,
}

impl DoneCallback {
    /// The render position never passes the end of the source.
    pub open spec fn wf(self) -> bool {
        self.position_ms <= self.duration_ms
    }

    /// A fresh source of the given length, not yet started.
    pub fn new(duration_ms: u64) -> (s: DoneCallback)
        ensures
            s.wf(),
            s.duration_ms == duration_ms,
            s.position_ms == 0,
            !s.done,
    {
        DoneCallback { duration_ms, position_ms: 0, done: false }
    }

    /// Render `elapsed_ms` of audio: the position advances, clamped at
    /// the end of the source.
    pub fn advance(&mut self, elapsed_ms: u64)
        requires
            old(self).wf(),
        ensures
            final(self).wf(),
            final(self).duration_ms == old(self).duration_ms,
            final(self).done == old(self).done,
            final(self).position_ms as int == (if old(self).position_ms + elapsed_ms
                <= old(self).duration_ms {
                old(self).position_ms + elapsed_ms
            } else {
                old(self).duration_ms as int
            }),
    {
        let remaining = self.duration_ms - self.position_ms;
        if elapsed_ms < remaining {
            self.position_ms = self.position_ms + elapsed_ms;
        } else {
            self.position_ms = self.duration_ms;
        }
    }

    /// Move the render position to `position_ms`, clamped at the end.
    pub fn try_seek(&mut self, position_ms: u64)
        ensures
            final(self).wf(),
            final(self).duration_ms == old(self).duration_ms,
            final(self).done == old(self).done,
            final(self).position_ms == (if position_ms <= old(self).duration_ms {
                position_ms
            } else {
                old(self).duration_ms
            }),
    {
        self.position_ms = if position_ms < self.duration_ms {
            position_ms
        } else {
            self.duration_ms
        };
    }

    /// True exactly when the whole source has been rendered.
    pub fn is_finished(&self) -> (r: bool)
        ensures
            r == (self.position_ms == self.duration_ms),
    {
        self.position_ms == self.duration_ms
    }

    /// Sample the completion latch: answers true exactly on the first
    /// sample taken after the source is exhausted.
    pub fn finish_signal(&mut self) -> (fired: bool)
        ensures
            final(self).duration_ms == old(self).duration_ms,
            final(self).position_ms == old(self).position_ms,
            fired == (!old(self).done && old(self).position_ms == old(self).duration_ms),
            final(self).done == (old(self).done || fired),
    {
        if !self.done && self.position_ms == self.duration_ms {
            self.done = true;
            true
        } else {
            false
        }
    }
}

} // verus!
