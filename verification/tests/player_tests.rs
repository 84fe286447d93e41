use ferrum_player::player::source::DoneCallback;
use ferrum_player::player::{
    EventAction, MediaCommand, MusicPlayer, MusicPlayerEvent, MusicPlayerStatus, PlaybackReport,
};
use ferrum_player::playlist::{Playlist, PlaylistMode};
use ferrum_player::track::Track;

fn track(name: &str) -> Track {
    Track::from_path(name.to_string())
}

#[test]
fn new_player_is_stopped() {
    let p = MusicPlayer::new();
    assert!(matches!(p.status, MusicPlayerStatus::Stopped));
    assert!(p.current_track().is_none());
    assert!(p.is_empty());
    assert!(!p.is_paused());
    assert_eq!(p.report(), PlaybackReport::Stopped);
}

#[test]
fn play_track_starts_playing() {
    let mut p = MusicPlayer::new();
    p.play_track(track("a"), DoneCallback::new(5000));
    assert!(matches!(p.status, MusicPlayerStatus::Playing));
    assert_eq!(p.current_track().unwrap().path, "a");
    assert!(!p.is_empty());
    assert_eq!(p.position(), 0);
}

#[test]
fn play_on_an_empty_player_asks_for_a_load_only_with_a_track() {
    let mut p = MusicPlayer::new();
    assert!(!p.play());
    p.play_track(track("a"), DoneCallback::new(100));
    p.stop();
    assert!(p.play());
}

#[test]
fn pause_and_resume() {
    let mut p = MusicPlayer::new();
    p.play_track(track("a"), DoneCallback::new(5000));
    p.pause();
    assert!(matches!(p.status, MusicPlayerStatus::Paused));
    assert!(p.is_paused());
    assert!(!p.play());
    assert!(matches!(p.status, MusicPlayerStatus::Playing));
    assert!(!p.is_paused());
}

#[test]
fn pause_on_an_empty_player_changes_nothing() {
    let mut p = MusicPlayer::new();
    p.pause();
    assert!(matches!(p.status, MusicPlayerStatus::Stopped));
    assert!(!p.is_paused());
}

#[test]
fn stop_reports_stopped() {
    let mut p = MusicPlayer::new();
    p.play_track(track("a"), DoneCallback::new(5000));
    p.stop();
    assert!(matches!(p.status, MusicPlayerStatus::Stopped));
    assert!(p.is_empty());
    assert_eq!(p.report(), PlaybackReport::Stopped);
}

#[test]
fn toggle_alternates_pause_and_play() {
    let mut p = MusicPlayer::new();
    p.play_track(track("a"), DoneCallback::new(5000));
    p.toggle();
    assert!(p.is_paused());
    p.toggle();
    assert!(!p.is_paused());
}

#[test]
fn set_volume_clamps_for_sink_and_bridge() {
    let mut p = MusicPlayer::new();
    assert_eq!(p.set_volume(-1000), 0);
    assert_eq!(p.volume(), 0);
    assert_eq!(p.set_volume(5000), 1000);
    assert_eq!(p.volume(), 1200);
    assert_eq!(p.set_volume(800), 800);
    assert_eq!(p.volume(), 800);
}

#[test]
fn seek_returns_an_immediate_report() {
    let mut p = MusicPlayer::new();
    p.play_track(track("a"), DoneCallback::new(5000));
    let report = p.seek(3000);
    assert_eq!(report, PlaybackReport::Playing { position_ms: 0 });
    assert_eq!(p.sink.control_step(5), None);
    assert_eq!(p.position(), 3000);
    assert_eq!(p.report(), PlaybackReport::Playing { position_ms: 3000 });
}

#[test]
fn report_follows_status_and_position() {
    let mut p = MusicPlayer::new();
    p.play_track(track("a"), DoneCallback::new(5000));
    p.sink.control_step(1200);
    assert_eq!(p.report(), PlaybackReport::Playing { position_ms: 1200 });
    p.pause();
    p.sink.control_step(500);
    assert_eq!(p.report(), PlaybackReport::Paused { position_ms: 1200 });
}

#[test]
fn bridge_commands_drive_the_player() {
    let mut p = MusicPlayer::new();
    p.play_track(track("a"), DoneCallback::new(5000));
    assert!(!p.mpris_handle(MediaCommand::Pause));
    assert!(matches!(p.status, MusicPlayerStatus::Paused));
    assert!(!p.mpris_handle(MediaCommand::Play));
    assert!(matches!(p.status, MusicPlayerStatus::Playing));
    assert!(!p.mpris_handle(MediaCommand::Toggle));
    assert!(p.is_paused());
    assert!(!p.mpris_handle(MediaCommand::SetVolume(2000)));
    assert_eq!(p.volume(), 1200);
    assert!(!p.mpris_handle(MediaCommand::SetPosition(2500)));
    assert!(!p.mpris_handle(MediaCommand::Stop));
    assert!(matches!(p.status, MusicPlayerStatus::Stopped));
}

#[test]
fn bridge_commands_leave_the_rest_of_the_sink_alone() {
    let mut p = MusicPlayer::new();
    p.play_track(track("a"), DoneCallback::new(5000));
    p.sink.control_step(1000);
    assert!(!p.mpris_handle(MediaCommand::SetVolume(500)));
    assert!(!p.mpris_handle(MediaCommand::Pause));
    assert!(!p.mpris_handle(MediaCommand::Play));
    // the commands moved only what they are about: the sink is still
    // live, on the same source, at the same position
    assert!(!p.is_empty());
    assert_eq!(p.position(), 1000);
    assert_eq!(p.volume(), 500);
    assert!(matches!(p.status, MusicPlayerStatus::Playing));
}

#[test]
fn bridge_play_on_an_empty_player_asks_for_a_load() {
    let mut p = MusicPlayer::new();
    assert!(!p.mpris_handle(MediaCommand::Play));
    p.play_track(track("a"), DoneCallback::new(100));
    p.stop();
    assert!(p.mpris_handle(MediaCommand::Play));
    // the sink is still empty, so the player stays stopped until the load
    assert!(matches!(p.status, MusicPlayerStatus::Stopped));
}

#[test]
fn unhandled_bridge_commands_change_nothing() {
    let mut p = MusicPlayer::new();
    p.play_track(track("a"), DoneCallback::new(5000));
    assert!(!p.mpris_handle(MediaCommand::Next));
    assert!(!p.mpris_handle(MediaCommand::Previous));
    assert!(matches!(p.status, MusicPlayerStatus::Playing));
}

#[test]
fn tick_and_progress_events_publish_a_report() {
    let mut p = MusicPlayer::new();
    let mut pl = Playlist::new(vec![track("a")]);
    p.play_track(track("a"), DoneCallback::new(5000));
    p.sink.control_step(700);
    let action = p.handle_event(&mut pl, MusicPlayerEvent::Tick);
    assert_eq!(
        action,
        EventAction::PublishReport(PlaybackReport::Playing { position_ms: 700 })
    );
    let action = p.handle_event(&mut pl, MusicPlayerEvent::PlaybackProgress);
    assert_eq!(
        action,
        EventAction::PublishReport(PlaybackReport::Playing { position_ms: 700 })
    );
}

#[test]
fn stopped_event_does_not_advance_the_playlist() {
    let mut p = MusicPlayer::new();
    let mut pl = Playlist::new(vec![track("a"), track("b")]);
    p.play_track(track("a"), DoneCallback::new(5000));
    let action = p.handle_event(&mut pl, MusicPlayerEvent::PlaybackStopped);
    assert_eq!(action, EventAction::Nothing);
    assert_eq!(pl.current_index, 0);
}

#[test]
fn ended_event_without_a_next_track_stops_playback() {
    let mut p = MusicPlayer::new();
    let mut pl = Playlist::new(vec![track("a"), track("b")]);
    pl.set_mode(PlaylistMode::NoRepeat);
    p.play_track(track("a"), DoneCallback::new(100));
    let action = p.handle_event(&mut pl, MusicPlayerEvent::PlaybackEnded);
    assert_eq!(action, EventAction::Nothing);
    assert!(matches!(p.status, MusicPlayerStatus::Stopped));
}

#[test]
fn repeat_playlist_plays_on_after_a_natural_end() {
    // Repeat mode, tracks [a, b, c], cursor on a: play, let the stream
    // end, handle the ended event, and the player moves on to b.
    let mut p = MusicPlayer::new();
    let mut pl = Playlist::new(vec![track("a"), track("b"), track("c")]);
    let first = pl.current_track().unwrap().clone();
    p.play_track(first, DoneCallback::new(1000));
    assert!(matches!(p.status, MusicPlayerStatus::Playing));
    assert_eq!(p.current_track().unwrap().path, "a");

    // the stream drains naturally
    let event = p.sink.control_step(1000);
    assert_eq!(event, Some(MusicPlayerEvent::PlaybackEnded));

    let action = p.handle_event(&mut pl, MusicPlayerEvent::PlaybackEnded);
    assert_eq!(action, EventAction::LoadCurrent);
    let next = pl.current_track().unwrap().clone();
    assert_eq!(next.path, "b");
    p.play_track(next, DoneCallback::new(1000));
    assert!(matches!(p.status, MusicPlayerStatus::Playing));
    assert_eq!(p.current_track().unwrap().path, "b");
}
