//! The playback sink model: a FIFO queue of decoded sources behind a
//! control block. Transport controls record their requests here; one
//! periodic control step applies them to the source now rendering, the
//! way a render thread would on its fixed cadence.

use vstd::prelude::*;

use crate::player::source::DoneCallback;
use crate::player::MusicPlayerEvent;

verus! {

/// Upper bound of the volume multiplier, in milli-units: mild
/// amplification up to 1.2 is allowed, never more.
pub const VOLUME_MAX_MILLI: u32 = 1200;

/// The volume the sink keeps for a requested value: clamped into
/// `[0, VOLUME_MAX_MILLI]`.
pub open spec fn clamped_volume(v: int) -> int {
    if v < 0 {
        0
    } else if v > VOLUME_MAX_MILLI {
        VOLUME_MAX_MILLI as int
    } else {
        v
    }
}

pub open spec fn min_ms(a: int, b: int) -> int {
    if a <= b {
        a
    } else {
        b
    }
}

/// What one `stop` call does: only the stopped flag moves.
pub open spec fn stop_rel(pre: Sink, post: Sink) -> bool {
    &&& post.stopped
    &&& post.paused == pre.paused
    &&& post.volume == pre.volume
    &&& post.position_ms == pre.position_ms
    &&& post.pending_seek == pre.pending_seek
    &&& post.queue@ == pre.queue@
}

/// What one `add` call does: clear the stopped flag, and either restart
/// the queue on the new source alone (resuming from the stopped state)
/// or append it at the tail.
pub open spec fn add_rel(pre: Sink, post: Sink, source: DoneCallback) -> bool {
    &&& !post.stopped
    &&& post.paused == pre.paused
    &&& post.volume == pre.volume
    &&& post.pending_seek == pre.pending_seek
    &&& (pre.stopped ==> post.queue@ == seq![source] && post.position_ms == 0)
    &&& (!pre.stopped ==> post.queue@ == pre.queue@.push(source) && post.position_ms
        == pre.position_ms)
}

/// Any run of `add` calls on a live sink, in order.
pub open spec fn adds_rel(pre: Sink, post: Sink, sources: Seq<DoneCallback>) -> bool
    decreases sources.len(),
{
    if sources.len() == 0 {
        post == pre
    } else {
        exists|mid: Sink| adds_rel(pre, mid, sources.drop_last()) && add_rel(
            mid,
            post,
            sources.last(),
        )
    }
}

/// What one periodic control step does, given the audio rendered since
/// the last one and the lifecycle event it raises:
///
/// - a requested stop truncates the whole queue, resets the position to
///   zero and raises the stopped event once;
/// - on an idle live sink only the pending seek is discarded;
/// - otherwise the head source advances (unless paused), a pending seek
///   is consumed and applied, and the position snapshot is refreshed; a
///   head that drained is removed, raising the ended event, and
///   draining the last source sets the stopped flag.
pub open spec fn step_rel(
    pre: Sink,
    post: Sink,
    elapsed_ms: u64,
    event: Option<MusicPlayerEvent>,
) -> bool {
    &&& post.paused == pre.paused
    &&& post.volume == pre.volume
    &&& post.pending_seek is None
    &&& (pre.stopped ==> {
        &&& post.stopped
        &&& post.queue@ == Seq::<DoneCallback>::empty()
        &&& post.position_ms == 0
        &&& event == (if pre.queue@.len() > 0 {
            Some(MusicPlayerEvent::PlaybackStopped)
        } else {
            None::<MusicPlayerEvent>
        })
    })
    &&& (!pre.stopped && pre.queue@.len() == 0 ==> {
        &&& !post.stopped
        &&& post.queue@ == pre.queue@
        &&& post.position_ms == pre.position_ms
        &&& event is None
    })
    &&& (!pre.stopped && pre.queue@.len() > 0 ==> {
        let front = pre.queue@[0];
        let advanced = if pre.paused {
            front.position_ms as int
        } else {
            min_ms(front.position_ms + elapsed_ms, front.duration_ms as int)
        };
        let sought = match pre.pending_seek {
            Some(s) => min_ms(s as int, front.duration_ms as int),
            None => advanced,
        };
        if !pre.paused && sought == front.duration_ms {
            &&& post.queue@ == pre.queue@.drop_first()
            &&& post.position_ms == 0
            &&& post.stopped == (pre.queue@.len() == 1)
            &&& event == Some(MusicPlayerEvent::PlaybackEnded)
        } else {
            &&& post.queue@.len() == pre.queue@.len()
            &&& post.queue@[0].duration_ms == front.duration_ms
            &&& post.queue@[0].position_ms == sought
            &&& !post.queue@[0].done
            &&& (forall|i: int| 1 <= i < pre.queue@.len() ==> post.queue@[i] == pre.queue@[i])
            &&& post.position_ms == sought
            &&& !post.stopped
            &&& event is None
        }
    })
}

/// Sources render in FIFO append order: any run of `add` calls on a
/// live sink leaves the queue holding the old sources and then the new
/// ones, exactly in append order (and a control step only ever removes
/// the head, see `step_rel`).
pub proof fn lemma_adds_append_in_order(pre: Sink, post: Sink, sources: Seq<DoneCallback>)
    requires
        !pre.stopped,
        adds_rel(pre, post, sources),
    ensures
        post.queue@ == pre.queue@ + sources,
        !post.stopped,
    decreases sources.len(),
{
    if sources.len() == 0 {
        assert(pre.queue@ + sources =~= pre.queue@);
    } else {
        let mid = choose|mid: Sink| adds_rel(pre, mid, sources.drop_last()) && add_rel(
            mid,
            post,
            sources.last(),
        );
        lemma_adds_append_in_order(pre, mid, sources.drop_last());
        assert(pre.queue@ + sources =~= (pre.queue@ + sources.drop_last()).push(sources.last()));
    }
}

/// A stop followed by an add restarts playback: the new source is the
/// whole queue and the position is back at zero.
pub proof fn lemma_stop_then_add_restarts(s0: Sink, s1: Sink, s2: Sink, source: DoneCallback)
    requires
        stop_rel(s0, s1),
        add_rel(s1, s2, source),
    ensures
        s2.queue@ == seq![source],
        s2.position_ms == 0,
        !s2.stopped,
{
}

/// A stop is visible at once and effective within one periodic
/// interval: the sink reports empty immediately after the call, and the
/// next control step truncates whatever was queued. (An `add` between
/// the two discards the old queue itself: see
/// `lemma_stop_then_add_restarts`.)
pub proof fn lemma_stop_then_empty(
    s0: Sink,
    s1: Sink,
    s2: Sink,
    elapsed_ms: u64,
    event: Option<MusicPlayerEvent>,
)
    requires
        stop_rel(s0, s1),
        step_rel(s1, s2, elapsed_ms, event),
    ensures
        s1.stopped,
        s2.stopped,
        s2.queue@ == Seq::<DoneCallback>::empty(),
        s2.position_ms == 0,
{
}

/// The sink: a control block and the FIFO render queue.
///
/// `position_ms` is the last snapshot the control step took of the
/// rendering source's position; `pending_seek` is a single-shot request,
/// consumed by the next control step; `stopped` is the externally visible
/// "nothing playing" flag, set by `stop` and by the drain of the last
/// queued source, cleared by `add`.
pub struct Sink {
    pub paused: bool,
    pub stopped: bool,
    /// Volume multiplier in milli-units, at most `VOLUME_MAX_MILLI`.
    pub volume: u32,
    pub position_ms: u64,
    pub pending_seek: Option<u64>,
    pub queue: Vec<DoneCallback>,
}

impl Sink {
    /// The structural invariant: the volume is in range; every queued
    /// source is well formed with its completion latch still armed; the
    /// position snapshot tracks the head source's position, and the
    /// sources queued behind it have not started rendering.
    pub open spec fn wf(self) -> bool {
        &&& self.volume <= VOLUME_MAX_MILLI
        &&& (forall|i: int|
            0 <= i < self.queue@.len() ==> (#[trigger] self.queue@[i]).wf() && !self.queue@[i].done)
        &&& (self.queue@.len() > 0 ==> self.position_ms == self.queue@[0].position_ms)
        &&& (!self.stopped && self.queue@.len() == 0 ==> self.position_ms == 0)
        &&& (forall|i: int| 1 <= i < self.queue@.len() ==> (#[trigger] self.queue@[i]).position_ms == 0)
    }

    /// An idle sink: stopped, unpaused, unit volume, nothing queued.
    pub fn new() -> (s: Sink)
        ensures
            s.wf(),
            s.stopped,
            !s.paused,
            s.volume == 1000u32,
            s.position_ms == 0,
            s.pending_seek is None,
            s.queue@ == Seq::<DoneCallback>::empty(),
    {
        Sink {
            paused: false,
            stopped: true,
            volume: 1000,
            position_ms: 0,
            pending_seek: None,
            queue: Vec::new(),
        }
    }

    /// Enqueue a source behind whatever is rendering. Resuming from the
    /// stopped state first lets the old queue flush, so the new source
    /// becomes the whole queue and the position restarts at zero; the
    /// stopped flag is cleared either way so the new audio is not
    /// immediately truncated.
    pub fn add(&mut self, source: DoneCallback)
        requires
            old(self).wf(),
            source.wf(),
            !source.done,
            source.position_ms == 0,
        ensures
            final(self).wf(),
            add_rel(*old(self), *final(self), source),
    {
        if self.stopped {
            self.queue = Vec::new();
            self.queue.push(source);
            self.position_ms = 0;
            self.stopped = false;
        } else {
            self.queue.push(source);
        }
    }

    /// Request a stop. Only the flag moves here; the in-flight source is
    /// truncated by the next control step, so the request takes effect
    /// within one periodic interval.
    pub fn stop(&mut self)
        ensures
            stop_rel(*old(self), *final(self)),
    {
        self.stopped = true;
    }

    /// Record a single-shot seek request; a later request before the next
    /// control step overwrites it (last writer wins).
    pub fn seek(&mut self, position_ms: u64)
        ensures
            final(self).pending_seek == Some(position_ms),
            final(self).paused == old(self).paused,
            final(self).stopped == old(self).stopped,
            final(self).volume == old(self).volume,
            final(self).position_ms == old(self).position_ms,
            final(self).queue@ == old(self).queue@,
    {
        self.pending_seek = Some(position_ms);
    }

    /// Clear the pause flag; rendering resumes within one control step.
    pub fn play(&mut self)
        ensures
            !final(self).paused,
            final(self).stopped == old(self).stopped,
            final(self).volume == old(self).volume,
            final(self).position_ms == old(self).position_ms,
            final(self).pending_seek == old(self).pending_seek,
            final(self).queue@ == old(self).queue@,
    {
        self.paused = false;
    }

    /// Set the pause flag; rendering pauses within one control step.
    pub fn pause(&mut self)
        ensures
            final(self).paused,
            final(self).stopped == old(self).stopped,
            final(self).volume == old(self).volume,
            final(self).position_ms == old(self).position_ms,
            final(self).pending_seek == old(self).pending_seek,
            final(self).queue@ == old(self).queue@,
    {
        self.paused = true;
    }

    pub fn is_paused(&self) -> (r: bool)
        ensures
            r == self.paused,
    {
        self.paused
    }

    /// The volume multiplier in milli-units.
    pub fn volume(&self) -> (r: u32)
        ensures
            r == self.volume,
    {
        self.volume
    }

    /// Set the volume multiplier, clamped into `[0, VOLUME_MAX_MILLI]`:
    /// a negative request becomes silence, an excessive one the maximum.
    pub fn set_volume(&mut self, volume_milli: i64)
        requires
            old(self).wf(),
        ensures
            final(self).wf(),
            final(self).volume as int == clamped_volume(volume_milli as int),
            final(self).paused == old(self).paused,
            final(self).stopped == old(self).stopped,
            final(self).position_ms == old(self).position_ms,
            final(self).pending_seek == old(self).pending_seek,
            final(self).queue@ == old(self).queue@,
    {
        self.volume = if volume_milli < 0 {
            0
        } else if volume_milli > VOLUME_MAX_MILLI as i64 {
            VOLUME_MAX_MILLI
        } else {
            volume_milli as u32
        };
    }

    /// The last position snapshot the control step took, in milliseconds.
    pub fn position(&self) -> (r: u64)
        ensures
            r == self.position_ms,
    {
        self.position_ms
    }

    /// The externally visible "nothing playing" flag.
    pub fn is_empty(&self) -> (r: bool)
        ensures
            r == self.stopped,
    {
        self.stopped
    }

    /// One periodic control step, as the render thread would run it after
    /// `elapsed_ms` of audio:
    ///
    /// - a requested stop truncates the whole queue, resets the position
    ///   to zero and raises the stopped event once;
    /// - otherwise the rendering source advances (unless paused), a
    ///   pending seek is consumed and applied, and the position snapshot
    ///   is refreshed;
    /// - a source that drains is removed, raising the ended event
    ///   exactly once; draining the last source sets the stopped flag.
    ///
    /// Relative queue order is never changed, so sources render in FIFO
    /// append order, and the position snapshot never decreases while one
    /// source plays on without a seek.
    pub fn control_step(&mut self, elapsed_ms: u64) -> (event: Option<MusicPlayerEvent>)
        requires
            old(self).wf(),
        ensures
            final(self).wf(),
            step_rel(*old(self), *final(self), elapsed_ms, event),
            // the position snapshot is monotone while one source plays on
            !old(self).stopped && old(self).queue@.len() > 0 && old(self).pending_seek is None
                && event is None ==> final(self).position_ms >= old(self).position_ms,
    {
        if self.stopped {
            let had_sources = self.queue.len() > 0;
            self.queue.clear();
            self.position_ms = 0;
            self.pending_seek = None;
            if had_sources {
                Some(MusicPlayerEvent::PlaybackStopped)
            } else {
                None
            }
        } else if self.queue.len() == 0 {
            self.pending_seek = None;
            None
        } else {
            let mut front = self.queue[0];
            if !self.paused {
                front.advance(elapsed_ms);
            }
            let seek_request = self.pending_seek;
            self.pending_seek = None;
            if let Some(target) = seek_request {
                front.try_seek(target);
            }
            self.position_ms = front.position_ms;
            let fired = if !self.paused {
                front.finish_signal()
            } else {
                false
            };
            if fired {
                self.queue.remove(0);
                self.position_ms = 0;
                if self.queue.len() == 0 {
                    self.stopped = true;
                }
                Some(MusicPlayerEvent::PlaybackEnded)
            } else {
                self.queue[0] = front;
                None
            }
        }
    }
}

} // verus!
