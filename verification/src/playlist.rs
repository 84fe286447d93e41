//! Playlist sequencing: an ordered track list with a cursor, a playback
//! mode, and a back-history stack used to undo shuffle jumps.

use vstd::prelude::*;

use crate::track::Track;

use rand::seq::SliceRandom;
use rand::RngExt;

verus! {

/// Policy governing `next_track` and `previous_track`.
#[derive(Clone, Copy, Debug, PartialEq, Eq, Structural)]
pub enum PlaylistMode {
    /// Play through once; `next_track` signals the end of playback.
    NoRepeat,
    /// Linear order with wraparound past the last track.
    Repeat,
    /// Stay on the current track.
    RepeatSingle,
    /// Jump to a uniformly drawn index, remembering where we came from.
    Shuffle,
}

/// The error a cursor operation returns when the list holds no track.
#[derive(Clone, Copy, Debug, PartialEq, Eq, Structural)]
pub enum PlaylistError {
    EmptyPlaylist,
}

/// An ordered track list with a cursor.
///
/// Invariant (`wf`): the cursor is a valid index whenever the list is
/// non-empty and is pinned to zero when it is empty; every remembered
/// history index is a valid index.
pub struct Playlist {
    pub mode: PlaylistMode,
    pub tracks: Vec<Track>,
    pub current_index: usize,
    pub previous_index: Vec<usize>,
}

/// One Shuffle-mode jump: the cursor moves to `next` and the old cursor
/// is pushed onto the history.
pub open spec fn shuffle_advance(cur: usize, hist: Seq<usize>, next: usize) -> (usize, Seq<usize>) {
    (next, hist.push(cur))
}

/// One `previous_track` step on the cursor and history: pop the history
/// if it is non-empty, otherwise decrement the cursor, saturating at zero.
pub open spec fn history_retreat(cur: usize, hist: Seq<usize>) -> (usize, Seq<usize>) {
    if hist.len() > 0 {
        (hist.last(), hist.drop_last())
    } else if cur > 0 {
        ((cur - 1) as usize, hist)
    } else {
        (cur, hist)
    }
}

/// `shuffle_advance` applied once per element of `picks`, in order.
pub open spec fn shuffle_advance_all(
    cur: usize,
    hist: Seq<usize>,
    picks: Seq<usize>,
) -> (usize, Seq<usize>)
    decreases picks.len(),
{
    if picks.len() == 0 {
        (cur, hist)
    } else {
        let before = shuffle_advance_all(cur, hist, picks.drop_last());
        shuffle_advance(before.0, before.1, picks.last())
    }
}

/// `history_retreat` applied `n` times.
pub open spec fn history_retreat_n(cur: usize, hist: Seq<usize>, n: nat) -> (usize, Seq<usize>)
    decreases n,
{
    if n == 0 {
        (cur, hist)
    } else {
        let step = history_retreat_n(cur, hist, (n - 1) as nat);
        history_retreat(step.0, step.1)
    }
}

/// How one `next_track` call moves the cursor and history, by mode.
pub open spec fn next_track_rel(pre: Playlist, post: Playlist) -> bool {
    &&& post.mode == pre.mode
    &&& post.tracks@ == pre.tracks@
    &&& (if pre.tracks@.len() == 0 {
        &&& post.current_index == pre.current_index
        &&& post.previous_index@ == (if pre.mode is NoRepeat {
            Seq::<usize>::empty()
        } else {
            pre.previous_index@
        })
    } else {
        match pre.mode {
            PlaylistMode::Repeat => {
                &&& post.current_index as int == (if pre.current_index + 1 < pre.tracks@.len() {
                    pre.current_index + 1
                } else {
                    0
                })
                &&& post.previous_index@ == pre.previous_index@
            },
            PlaylistMode::RepeatSingle => {
                &&& post.current_index == pre.current_index
                &&& post.previous_index@ == pre.previous_index@
            },
            PlaylistMode::Shuffle => {
                &&& (post.current_index, post.previous_index@) == shuffle_advance(
                    pre.current_index,
                    pre.previous_index@,
                    post.current_index,
                )
                &&& (post.current_index as int) < pre.tracks@.len()
            },
            PlaylistMode::NoRepeat => {
                &&& post.current_index == pre.current_index
                &&& post.previous_index@ == Seq::<usize>::empty()
            },
        }
    })
}

/// Each retreat after a run of Shuffle jumps undoes the most recent
/// jump: after `k` retreats the cursor and history are exactly what
/// they were after the first `picks.len() - k` jumps. The retreats thus
/// revisit the jumped-from cursors in reverse order.
pub proof fn lemma_history_retreat_unwinds_shuffle(
    cur: usize,
    hist: Seq<usize>,
    picks: Seq<usize>,
    k: nat,
)
    requires
        k <= picks.len(),
    ensures
        ({
            let advanced = shuffle_advance_all(cur, hist, picks);
            let retreated = history_retreat_n(advanced.0, advanced.1, k);
            let partial = shuffle_advance_all(cur, hist, picks.take(picks.len() - k));
            retreated.0 == partial.0 && retreated.1 == partial.1
        }),
    decreases k,
{
    if k == 0 {
        assert(picks.take(picks.len() - 0) =~= picks);
    } else {
        lemma_history_retreat_unwinds_shuffle(cur, hist, picks, (k - 1) as nat);
        let js = picks.take(picks.len() - (k - 1));
        assert(js.len() == picks.len() - (k - 1) as int);
        let before = shuffle_advance_all(cur, hist, js.drop_last());
        // one retreat pops the cursor that the last jump of `js` pushed
        assert(shuffle_advance_all(cur, hist, js) == shuffle_advance(
            before.0,
            before.1,
            js.last(),
        ));
        assert(before.1.push(before.0).len() > 0);
        assert(before.1.push(before.0).last() == before.0);
        assert(before.1.push(before.0).drop_last() =~= before.1);
        assert(js.drop_last() =~= picks.take(picks.len() - k));
    }
}

/// After any run of Shuffle-mode jumps, the same number of
/// `previous_track` steps restores the starting cursor and history.
pub proof fn lemma_history_retreats_reverse_shuffle(cur: usize, hist: Seq<usize>, picks: Seq<usize>)
    ensures
        ({
            let advanced = shuffle_advance_all(cur, hist, picks);
            let retreated = history_retreat_n(advanced.0, advanced.1, picks.len());
            retreated.0 == cur && retreated.1 == hist
        }),
{
    lemma_history_retreat_unwinds_shuffle(cur, hist, picks, picks.len());
    assert(picks.take(picks.len() - picks.len()) =~= Seq::<usize>::empty());
}

impl Playlist {
    /// The structural invariant of a playlist.
    pub open spec fn wf(self) -> bool {
        &&& (self.tracks@.len() == 0 ==> self.current_index == 0)
        &&& (self.tracks@.len() > 0 ==> (self.current_index as int) < self.tracks@.len())
        &&& (forall|i: int|
            0 <= i < self.previous_index@.len() ==> (self.previous_index@[i] as int)
                < self.tracks@.len())
    }

    /// A playlist over `tracks`, in Repeat mode, cursor at the start.
    pub fn new(tracks: Vec<Track>) -> (p: Playlist)
        ensures
            p.wf(),
            p.mode is Repeat,
            p.tracks@ == tracks@,
            p.current_index == 0,
            p.previous_index@ == Seq::<usize>::empty(),
    {
        Playlist {
            mode: PlaylistMode::Repeat,
            tracks,
            current_index: 0,
            previous_index: Vec::new(),
        }
    }

    /// Move the cursor to `index`, clamped into the valid range, and
    /// forget the history. On an empty list nothing changes and the
    /// defined error is returned.
    pub fn select_track(&mut self, index: usize) -> (r: Result<(), PlaylistError>)
        requires
            old(self).wf(),
        ensures
            final(self).wf(),
            final(self).mode == old(self).mode,
            final(self).tracks@ == old(self).tracks@,
            old(self).tracks@.len() == 0 ==> r == Err::<(), PlaylistError>(
                PlaylistError::EmptyPlaylist,
            ) && *final(self) == *old(self),
            old(self).tracks@.len() > 0 ==> {
                &&& r == Ok::<(), PlaylistError>(())
                &&& final(self).current_index as int == (if (index as int) < old(self).tracks@.len() - 1 {
                    index as int
                } else {
                    old(self).tracks@.len() - 1
                })
                &&& final(self).previous_index@ == Seq::<usize>::empty()
            },
    {
        if self.tracks.len() == 0 {
            Err(PlaylistError::EmptyPlaylist)
        } else {
            self.previous_index = Vec::new();
            let last = self.tracks.len() - 1;
            self.current_index = if index < last {
                index
            } else {
                last
            };
            Ok(())
        }
    }

    /// The track under the cursor; absent exactly when the list is empty.
    pub fn current_track(&self) -> (r: Option<&Track>)
        requires
            self.wf(),
        ensures
            self.tracks@.len() == 0 ==> r is None,
            self.tracks@.len() > 0 ==> (r matches Some(t) && *t == self.tracks@[self.current_index as int]),
    {
        if self.current_index < self.tracks.len() {
            Some(&self.tracks[self.current_index])
        } else {
            None
        }
    }

    /// Advance the cursor under the active mode and return the track to
    /// play next; absent exactly when the list is empty or the mode is
    /// NoRepeat.
    ///
    /// Repeat wraps past the end to index zero; RepeatSingle stays put;
    /// Shuffle jumps to a uniformly drawn index after remembering the old
    /// cursor; NoRepeat forgets the history and signals the end.
    pub fn next_track(&mut self) -> (r: Option<&Track>)
        requires
            old(self).wf(),
        ensures
            final(self).wf(),
            next_track_rel(*old(self), *final(self)),
            r is Some <==> (old(self).tracks@.len() > 0 && !(old(self).mode is NoRepeat)),
            r matches Some(t) ==> *t == old(self).tracks@[final(self).current_index as int],
    {
        let len = self.tracks.len();
        match self.mode {
            PlaylistMode::Repeat => {
                if len == 0 {
                    None
                } else {
                    self.current_index = if self.current_index + 1 < len {
                        self.current_index + 1
                    } else {
                        0
                    };
                    Some(&self.tracks[self.current_index])
                }
            },
            PlaylistMode::RepeatSingle => {
                if len == 0 {
                    None
                } else {
                    Some(&self.tracks[self.current_index])
                }
            },
            PlaylistMode::Shuffle => {
                if len == 0 {
                    None
                } else {
                    self.previous_index.push(self.current_index);
                    self.current_index = random_below(len);
                    Some(&self.tracks[self.current_index])
                }
            },
            PlaylistMode::NoRepeat => {
                self.previous_index = Vec::new();
                None
            },
        }
    }

    /// Step the cursor back: pop the history if any jump is remembered,
    /// otherwise decrement, saturating at zero. Returns the track now
    /// under the cursor; absent exactly when the list is empty.
    pub fn previous_track(&mut self) -> (r: Option<&Track>)
        requires
            old(self).wf(),
        ensures
            final(self).wf(),
            final(self).mode == old(self).mode,
            final(self).tracks@ == old(self).tracks@,
            ({
                let step = history_retreat(old(self).current_index, old(self).previous_index@);
                final(self).current_index == step.0 && final(self).previous_index@ == step.1
            }),
            old(self).tracks@.len() == 0 ==> r is None,
            old(self).tracks@.len() > 0 ==> (r matches Some(t) && *t == old(self).tracks@[final(self).current_index as int]),
    {
        match self.previous_index.pop() {
            Some(previous) => {
                self.current_index = previous;
            },
            None => {
                if self.current_index > 0 {
                    self.current_index = self.current_index - 1;
                }
            },
        }
        if self.current_index < self.tracks.len() {
            Some(&self.tracks[self.current_index])
        } else {
            None
        }
    }

    /// The tracks in playback order.
    pub fn tracks(&self) -> (r: &[Track])
        ensures
            r@ == self.tracks@,
    {
        self.tracks.as_slice()
    }

    /// Switch the sequencing mode; nothing else moves.
    pub fn set_mode(&mut self, mode: PlaylistMode)
        ensures
            final(self).mode == mode,
            final(self).tracks@ == old(self).tracks@,
            final(self).current_index == old(self).current_index,
            final(self).previous_index@ == old(self).previous_index@,
    {
        self.mode = mode;
    }

    /// The active sequencing mode.
    pub fn mode(&self) -> (m: &PlaylistMode)
        ensures
            *m == self.mode,
    {
        &self.mode
    }

    /// Reorder the backing list at random. The cursor and history keep
    /// their numeric values, so they stay valid indices but may now name
    /// different tracks.
    pub fn shuffle(&mut self)
        requires
            old(self).wf(),
        ensures
            final(self).wf(),
            final(self).tracks@.len() == old(self).tracks@.len(),
            final(self).tracks@.to_multiset() == old(self).tracks@.to_multiset(),
            final(self).mode == old(self).mode,
            final(self).current_index == old(self).current_index,
            final(self).previous_index@ == old(self).previous_index@,
    {
        shuffle_in_place(&mut self.tracks);
    }

    /// Drop every track and the history; the cursor returns to zero.
    pub fn clear(&mut self)
        ensures
            final(self).wf(),
            final(self).mode == old(self).mode,
            final(self).tracks@ == Seq::<Track>::empty(),
            final(self).current_index == 0,
            final(self).previous_index@ == Seq::<usize>::empty(),
    {
        self.tracks = Vec::new();
        self.previous_index = Vec::new();
        self.current_index = 0;
    }

    /// Append one track at the end.
    pub fn append(&mut self, track: Track)
        requires
            old(self).wf(),
        ensures
            final(self).wf(),
            final(self).mode == old(self).mode,
            final(self).tracks@ == old(self).tracks@.push(track),
            final(self).current_index == old(self).current_index,
            final(self).previous_index@ == old(self).previous_index@,
    {
        self.tracks.push(track);
    }

    /// Append a batch of tracks at the end, in their given order.
    pub fn append_multiple(&mut self, tracks: Vec<Track>)
        requires
            old(self).wf(),
        ensures
            final(self).wf(),
            final(self).mode == old(self).mode,
            final(self).tracks@ == old(self).tracks@ + tracks@,
            final(self).current_index == old(self).current_index,
            final(self).previous_index@ == old(self).previous_index@,
    {
        let mut rest = tracks;
        self.tracks.append(&mut rest);
    }
}

/// Relies on rand::rng and rand::RngExt::random_range: a draw from the
/// uniform distribution on `[0, n)`; the range must be non-empty.
#[verifier::external_body]
fn random_below(n: usize) -> (r: usize)
    requires
        n > 0,
    ensures
        r < n,
{
    rand::rng().random_range(0..n)
}

/// Relies on rand::seq::SliceRandom::shuffle: an in-place permutation of
/// the elements, so their multiset is unchanged.
#[verifier::external_body]
fn shuffle_in_place(tracks: &mut Vec<Track>)
    ensures
        final(tracks)@.len() == old(tracks)@.len(),
        final(tracks)@.to_multiset() == old(tracks)@.to_multiset(),
{
    tracks.shuffle(&mut rand::rng());
}

} // verus!
