//! The player state machine: one sink, the current track, a status, and
//! the decisions the event loop and the media-control bridge need. The
//! surrounding process opens files, renders audio and talks to the
//! operating system; every decision it acts on is taken here.

pub mod sink;
pub mod source;

use vstd::prelude::*;

use crate::player::sink::clamped_volume;
use crate::player::sink::Sink;
use crate::player::source::DoneCallback;
use crate::playlist::next_track_rel;
use crate::playlist::Playlist;
use crate::track::Track;

verus! {

/// The events the owning loop consumes: a bridge command arrived, or the
/// sink reported a lifecycle change.
#[derive(Clone, Copy, Debug, PartialEq, Eq, Structural)]
pub enum MusicPlayerEvent {
    Tick,
    PlaybackStarted,
    PlaybackProgress,
    PlaybackStopped,
    PlaybackEnded,
}

#[derive(Clone, Copy, Debug, PartialEq, Eq, Structural)]
pub enum MusicPlayerStatus {
    Stopped,
    Playing,
    Paused,
}

/// The three-state playback report published to the media-control
/// bridge, positions in milliseconds.
#[derive(Clone, Copy, Debug, PartialEq, Eq, Structural)]
pub enum PlaybackReport {
    Playing { position_ms: u64 },
    Paused { position_ms: u64 },
    Stopped,
}

/// An inbound transport command from the media-control bridge, as plain
/// values: the volume in milli-units, the position in milliseconds.
#[derive(Clone, Copy, Debug, PartialEq, Eq, Structural)]
pub enum MediaCommand {
    Play,
    Pause,
    Toggle,
    Stop,
    Next,
    Previous,
    SetVolume(i64),
    SetPosition(u64),
}

/// What the owning loop must do after an event is handled: nothing,
/// publish a playback report to the bridge, or open the playlist's
/// current track and hand it back through `play_track`.
#[derive(Clone, Copy, Debug, PartialEq, Eq, Structural)]
pub enum EventAction {
    Nothing,
    PublishReport(PlaybackReport),
    LoadCurrent,
}

/// The player: one sink, a status, and the currently loaded track.
///
/// Invariant beyond the sink's own: a Stopped status is set whenever the
/// sink reports empty, the reverse only once the renderer drains.
pub struct MusicPlayer {
    pub sink: Sink,
    pub status: MusicPlayerStatus,
    pub track: Option<Track>,
}

impl MusicPlayer {
    /// The sink is well formed, and a Stopped status is only ever
    /// reported with the sink's stopped flag set. The reverse need not
    /// hold: a stop takes effect on the renderer asynchronously.
    pub open spec fn wf(self) -> bool {
        &&& self.sink.wf()
        &&& (self.status is Stopped ==> self.sink.stopped)
    }

    /// The report the bridge should show for the current state.
    pub open spec fn spec_report(self) -> PlaybackReport {
        match self.status {
            MusicPlayerStatus::Playing => PlaybackReport::Playing {
                position_ms: self.sink.position_ms,
            },
            MusicPlayerStatus::Paused => PlaybackReport::Paused {
                position_ms: self.sink.position_ms,
            },
            MusicPlayerStatus::Stopped => PlaybackReport::Stopped,
        }
    }

    /// A stopped player with an idle sink and no track loaded.
    pub fn new() -> (p: MusicPlayer)
        ensures
            p.wf(),
            p.status is Stopped,
            p.track is None,
            p.sink.stopped,
            !p.sink.paused,
            p.sink.volume == 1000u32,
            p.sink.position_ms == 0,
            p.sink.pending_seek is None,
            p.sink.queue@ == Seq::<DoneCallback>::empty(),
    {
        MusicPlayer { sink: Sink::new(), status: MusicPlayerStatus::Stopped, track: None }
    }

    /// Load `track`, whose opened and decoded stream is `source`: the
    /// sink restarts on this source alone, unpaused, and the player is
    /// Playing. The caller only reaches this once the file opened, so
    /// a failed open leaves the player untouched.
    pub fn play_track(&mut self, track: Track, source: DoneCallback)
        requires
            old(self).wf(),
            source.wf(),
            !source.done,
            source.position_ms == 0,
        ensures
            final(self).wf(),
            final(self).status is Playing,
            final(self).track == Some(track),
            final(self).sink.queue@ == seq![source],
            final(self).sink.position_ms == 0,
            !final(self).sink.stopped,
            !final(self).sink.paused,
            final(self).sink.volume == old(self).sink.volume,
            final(self).sink.pending_seek == old(self).sink.pending_seek,
    {
        self.sink.stop();
        self.sink.add(source);
        self.sink.play();
        self.status = MusicPlayerStatus::Playing;
        self.track = Some(track);
    }

    /// Resume. On a live sink this unpauses and reports Playing. On an
    /// empty sink nothing changes here: the answer says whether a track
    /// is loaded, and the caller should then reopen the current track
    /// and call `play_track`.
    pub fn play(&mut self) -> (needs_load: bool)
        requires
            old(self).wf(),
        ensures
            final(self).wf(),
            needs_load == (old(self).sink.stopped && old(self).track is Some),
            old(self).sink.stopped ==> *final(self) == *old(self),
            !old(self).sink.stopped ==> {
                &&& final(self).status is Playing
                &&& !final(self).sink.paused
                &&& final(self).sink.stopped == old(self).sink.stopped
                &&& final(self).sink.volume == old(self).sink.volume
                &&& final(self).sink.position_ms == old(self).sink.position_ms
                &&& final(self).sink.pending_seek == old(self).sink.pending_seek
                &&& final(self).sink.queue@ == old(self).sink.queue@
                &&& final(self).track == old(self).track
            },
    {
        if self.sink.is_empty() {
            self.track.is_some()
        } else {
            self.sink.play();
            self.status = MusicPlayerStatus::Playing;
            false
        }
    }

    /// Pause a live sink and report Paused; a no-op on an empty sink.
    pub fn pause(&mut self)
        requires
            old(self).wf(),
        ensures
            final(self).wf(),
            old(self).sink.stopped ==> *final(self) == *old(self),
            !old(self).sink.stopped ==> {
                &&& final(self).status is Paused
                &&& final(self).sink.paused
                &&& final(self).sink.stopped == old(self).sink.stopped
                &&& final(self).sink.volume == old(self).sink.volume
                &&& final(self).sink.position_ms == old(self).sink.position_ms
                &&& final(self).sink.pending_seek == old(self).sink.pending_seek
                &&& final(self).sink.queue@ == old(self).sink.queue@
                &&& final(self).track == old(self).track
            },
    {
        if self.sink.is_empty() {
            return;
        }
        self.sink.pause();
        self.status = MusicPlayerStatus::Paused;
    }

    /// Always safe: request the sink stop and report Stopped.
    pub fn stop(&mut self)
        requires
            old(self).wf(),
        ensures
            final(self).wf(),
            final(self).status is Stopped,
            final(self).sink.stopped,
            final(self).sink.paused == old(self).sink.paused,
            final(self).sink.volume == old(self).sink.volume,
            final(self).sink.position_ms == old(self).sink.position_ms,
            final(self).sink.pending_seek == old(self).sink.pending_seek,
            final(self).sink.queue@ == old(self).sink.queue@,
            final(self).track == old(self).track,
    {
        self.sink.stop();
        self.status = MusicPlayerStatus::Stopped;
    }

    /// Pause when playing unpaused, otherwise resume; the answer is
    /// `play`'s, and false when this paused.
    pub fn toggle(&mut self) -> (needs_load: bool)
        requires
            old(self).wf(),
        ensures
            final(self).wf(),
            old(self).sink.paused ==> {
                &&& needs_load == (old(self).sink.stopped && old(self).track is Some)
                &&& (old(self).sink.stopped ==> *final(self) == *old(self))
                &&& (!old(self).sink.stopped ==> final(self).status is Playing && !final(self).sink.paused)
            },
            !old(self).sink.paused ==> {
                &&& !needs_load
                &&& (old(self).sink.stopped ==> *final(self) == *old(self))
                &&& (!old(self).sink.stopped ==> final(self).status is Paused && final(self).sink.paused)
            },
            final(self).sink.stopped == old(self).sink.stopped,
            final(self).sink.volume == old(self).sink.volume,
            final(self).sink.position_ms == old(self).sink.position_ms,
            final(self).sink.pending_seek == old(self).sink.pending_seek,
            final(self).sink.queue@ == old(self).sink.queue@,
            final(self).track == old(self).track,
    {
        if self.is_paused() {
            self.play()
        } else {
            self.pause();
            false
        }
    }

    /// Record a seek request for the sink and answer the report the
    /// bridge should be given at once, without waiting for the periodic
    /// announcement.
    pub fn seek(&mut self, position_ms: u64) -> (r: PlaybackReport)
        requires
            old(self).wf(),
        ensures
            final(self).wf(),
            final(self).sink.pending_seek == Some(position_ms),
            final(self).status == old(self).status,
            final(self).track == old(self).track,
            final(self).sink.paused == old(self).sink.paused,
            final(self).sink.stopped == old(self).sink.stopped,
            final(self).sink.volume == old(self).sink.volume,
            final(self).sink.position_ms == old(self).sink.position_ms,
            final(self).sink.queue@ == old(self).sink.queue@,
            r == final(self).spec_report(),
    {
        self.sink.seek(position_ms);
        self.report()
    }

    pub fn is_paused(&self) -> (r: bool)
        ensures
            r == self.sink.paused,
    {
        self.sink.is_paused()
    }

    /// Whether the sink reports nothing playing.
    pub fn is_empty(&self) -> (r: bool)
        ensures
            r == self.sink.stopped,
    {
        self.sink.is_empty()
    }

    /// Set the volume. The sink keeps the request clamped into its own
    /// range; the answer is the value the bridge should show, clamped
    /// into `[0, 1000]` milli-units.
    pub fn set_volume(&mut self, volume_milli: i64) -> (bridge_milli: i64)
        requires
            old(self).wf(),
        ensures
            final(self).wf(),
            final(self).sink.volume as int == clamped_volume(volume_milli as int),
            bridge_milli == (if volume_milli < 0 {
                0int
            } else if volume_milli > 1000 {
                1000int
            } else {
                volume_milli as int
            }),
            final(self).status == old(self).status,
            final(self).track == old(self).track,
            final(self).sink.paused == old(self).sink.paused,
            final(self).sink.stopped == old(self).sink.stopped,
            final(self).sink.position_ms == old(self).sink.position_ms,
            final(self).sink.pending_seek == old(self).sink.pending_seek,
            final(self).sink.queue@ == old(self).sink.queue@,
    {
        let bridge_milli = if volume_milli < 0 {
            0
        } else if volume_milli > 1000 {
            1000
        } else {
            volume_milli
        };
        self.sink.set_volume(volume_milli);
        bridge_milli
    }

    /// The sink's volume multiplier in milli-units.
    pub fn volume(&self) -> (r: u32)
        ensures
            r == self.sink.volume,
    {
        self.sink.volume()
    }

    /// The last observed playback position in milliseconds.
    pub fn position(&self) -> (r: u64)
        ensures
            r == self.sink.position_ms,
    {
        self.sink.position()
    }

    /// The currently loaded track, if any.
    pub fn current_track(&self) -> (r: Option<&Track>)
        ensures
            match r {
                Some(t) => self.track == Some(*t),
                None => self.track is None,
            },
    {
        self.track.as_ref()
    }

    /// The report the bridge should show right now.
    pub fn report(&self) -> (r: PlaybackReport)
        ensures
            r == self.spec_report(),
    {
        match self.status {
            MusicPlayerStatus::Playing => PlaybackReport::Playing {
                position_ms: self.sink.position_ms,
            },
            MusicPlayerStatus::Paused => PlaybackReport::Paused {
                position_ms: self.sink.position_ms,
            },
            MusicPlayerStatus::Stopped => PlaybackReport::Stopped,
        }
    }

    /// Apply one inbound bridge command, then, as every command handler
    /// does, fall back to Stopped if the sink reports empty. The answer
    /// says whether the caller should reopen the current track.
    pub fn mpris_handle(&mut self, command: MediaCommand) -> (needs_load: bool)
        requires
            old(self).wf(),
        ensures
            final(self).wf(),
            final(self).track == old(self).track,
            needs_load ==> command is Play || command is Toggle,
            needs_load ==> old(self).sink.stopped && old(self).track is Some,
            // handling re-establishes the stopped invariant
            final(self).sink.stopped ==> final(self).status is Stopped,
            // no command touches the queue or the position snapshot,
            // only Stop the stopped flag, only SetVolume the volume,
            // only SetPosition the pending seek, and only the three
            // transport commands the pause flag
            final(self).sink.queue@ == old(self).sink.queue@,
            final(self).sink.position_ms == old(self).sink.position_ms,
            !(command is Stop) ==> final(self).sink.stopped == old(self).sink.stopped,
            !(command matches MediaCommand::SetVolume(_)) ==> final(self).sink.volume == old(
                self,
            ).sink.volume,
            !(command matches MediaCommand::SetPosition(_)) ==> final(self).sink.pending_seek
                == old(self).sink.pending_seek,
            !(command is Play || command is Pause || command is Toggle) ==> final(self).sink.paused
                == old(self).sink.paused,
            command is Play ==> {
                &&& needs_load == (old(self).sink.stopped && old(self).track is Some)
                &&& (old(self).sink.stopped ==> final(self).status is Stopped && final(self).sink == old(self).sink)
                &&& (!old(self).sink.stopped ==> final(self).status is Playing && !final(self).sink.paused)
            },
            command is Pause ==> {
                &&& !needs_load
                &&& (old(self).sink.stopped ==> final(self).status is Stopped && final(self).sink == old(self).sink)
                &&& (!old(self).sink.stopped ==> final(self).status is Paused && final(self).sink.paused)
            },
            command is Toggle ==> {
                &&& (old(self).sink.stopped ==> final(self).status is Stopped && final(self).sink == old(self).sink && needs_load == (old(self).track is Some
                    && old(self).sink.paused))
                &&& (!old(self).sink.stopped && old(self).sink.paused ==> final(self).status is Playing && !final(self).sink.paused && !needs_load)
                &&& (!old(self).sink.stopped && !old(self).sink.paused ==> final(self).status is Paused && final(self).sink.paused && !needs_load)
            },
            command is Stop ==> !needs_load && final(self).status is Stopped && final(self).sink.stopped,
            command matches MediaCommand::SetVolume(v) ==> {
                &&& !needs_load
                &&& final(self).sink.volume as int == clamped_volume(v as int)
                &&& (old(self).sink.stopped ==> final(self).status is Stopped)
                &&& (!old(self).sink.stopped ==> final(self).status == old(self).status)
            },
            command matches MediaCommand::SetPosition(p) ==> {
                &&& !needs_load
                &&& final(self).sink.pending_seek == Some(p)
                &&& (old(self).sink.stopped ==> final(self).status is Stopped)
                &&& (!old(self).sink.stopped ==> final(self).status == old(self).status)
            },
            command is Next || command is Previous ==> {
                &&& !needs_load
                &&& final(self).sink == old(self).sink
                &&& (old(self).sink.stopped ==> final(self).status is Stopped)
                &&& (!old(self).sink.stopped ==> final(self).status == old(self).status)
            },
    {
        let needs_load = match command {
            MediaCommand::SetVolume(v) => {
                let _ = self.set_volume(v);
                false
            },
            MediaCommand::Play => self.play(),
            MediaCommand::Pause => {
                self.pause();
                false
            },
            MediaCommand::Toggle => self.toggle(),
            MediaCommand::Stop => {
                self.stop();
                false
            },
            MediaCommand::SetPosition(p) => {
                let _ = self.seek(p);
                false
            },
            MediaCommand::Next => false,
            MediaCommand::Previous => false,
        };
        if self.is_empty() {
            self.status = MusicPlayerStatus::Stopped;
        }
        needs_load
    }

    /// Ask the playlist for the track after the current one under its
    /// mode. When one exists the cursor now rests on it and the caller
    /// should open it; when none does, playback stops here.
    pub fn play_next(&mut self, playlist: &mut Playlist) -> (has_next: bool)
        requires
            old(self).wf(),
            old(playlist).wf(),
        ensures
            final(self).wf(),
            final(playlist).wf(),
            next_track_rel(*old(playlist), *final(playlist)),
            has_next == (old(playlist).tracks@.len() > 0 && !(old(playlist).mode is NoRepeat)),
            has_next ==> *final(self) == *old(self),
            !has_next ==> {
                &&& final(self).status is Stopped
                &&& final(self).sink.stopped
                &&& final(self).track == old(self).track
            },
    {
        let has_next = playlist.next_track().is_some();
        if !has_next {
            self.stop();
        }
        has_next
    }

    /// Consume one event from the unified channel and answer what the
    /// owning loop must do: report progress for ticks and progress
    /// events, advance the playlist when a track ended naturally, and
    /// nothing for an explicit stop or a started notice.
    pub fn handle_event(&mut self, playlist: &mut Playlist, event: MusicPlayerEvent) -> (action:
        EventAction)
        requires
            old(self).wf(),
            old(playlist).wf(),
        ensures
            final(self).wf(),
            final(playlist).wf(),
            event is Tick || event is PlaybackProgress ==> {
                &&& *final(self) == *old(self)
                &&& *final(playlist) == *old(playlist)
                &&& action == EventAction::PublishReport(old(self).spec_report())
            },
            event is PlaybackStarted || event is PlaybackStopped ==> {
                &&& *final(self) == *old(self)
                &&& *final(playlist) == *old(playlist)
                &&& action is Nothing
            },
            event is PlaybackEnded ==> {
                &&& next_track_rel(*old(playlist), *final(playlist))
                &&& (old(playlist).tracks@.len() > 0 && !(old(playlist).mode is NoRepeat) ==> {
                    &&& action is LoadCurrent
                    &&& *final(self) == *old(self)
                })
                &&& (!(old(playlist).tracks@.len() > 0 && !(old(playlist).mode is NoRepeat)) ==> {
                    &&& action is Nothing
                    &&& final(self).status is Stopped
                    &&& final(self).sink.stopped
                })
            },
    {
        match event {
            MusicPlayerEvent::Tick => EventAction::PublishReport(self.report()),
            MusicPlayerEvent::PlaybackProgress => EventAction::PublishReport(self.report()),
            MusicPlayerEvent::PlaybackStarted => EventAction::Nothing,
            MusicPlayerEvent::PlaybackStopped => EventAction::Nothing,
            MusicPlayerEvent::PlaybackEnded => {
                if self.play_next(playlist) {
                    EventAction::LoadCurrent
                } else {
                    EventAction::Nothing
                }
            },
        }
    }
}

} // verus!
