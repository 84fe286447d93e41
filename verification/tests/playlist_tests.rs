use ferrum_player::playlist::{Playlist, PlaylistError, PlaylistMode};
use ferrum_player::track::Track;

fn track(name: &str) -> Track {
    Track::from_path(name.to_string())
}

fn three_track_playlist() -> Playlist {
    Playlist::new(vec![track("a"), track("b"), track("c")])
}

#[test]
fn new_playlist_defaults() {
    let p = three_track_playlist();
    assert!(matches!(p.mode(), PlaylistMode::Repeat));
    assert_eq!(p.current_index, 0);
    assert_eq!(p.tracks().len(), 3);
    assert!(p.previous_index.is_empty());
}

#[test]
fn current_track_on_empty_is_none() {
    let p = Playlist::new(Vec::new());
    assert!(p.current_track().is_none());
}

#[test]
fn repeat_mode_wraps_to_start() {
    let mut p = three_track_playlist();
    p.select_track(2).unwrap();
    let next = p.next_track().expect("repeat always yields a track");
    assert_eq!(next.path, "a");
    assert_eq!(p.current_index, 0);
}

#[test]
fn repeat_mode_steps_forward() {
    let mut p = three_track_playlist();
    let next = p.next_track().unwrap();
    assert_eq!(next.path, "b");
    assert_eq!(p.current_index, 1);
}

#[test]
fn no_repeat_mode_always_signals_end() {
    let mut p = three_track_playlist();
    p.set_mode(PlaylistMode::NoRepeat);
    assert!(p.next_track().is_none());
    p.select_track(1).unwrap();
    assert!(p.next_track().is_none());
    p.select_track(2).unwrap();
    assert!(p.next_track().is_none());
}

#[test]
fn repeat_single_stays_put() {
    let mut p = three_track_playlist();
    p.select_track(1).unwrap();
    p.set_mode(PlaylistMode::RepeatSingle);
    let next = p.next_track().unwrap();
    assert_eq!(next.path, "b");
    assert_eq!(p.current_index, 1);
}

#[test]
fn shuffle_jump_lands_in_range_and_remembers() {
    let mut p = three_track_playlist();
    p.select_track(1).unwrap();
    p.set_mode(PlaylistMode::Shuffle);
    let next = p.next_track();
    assert!(next.is_some());
    assert!(p.current_index < 3);
    assert_eq!(p.previous_index, vec![1]);
}

#[test]
fn shuffle_previous_retraces_visited_indices() {
    let mut p = three_track_playlist();
    p.set_mode(PlaylistMode::Shuffle);
    let mut visited = vec![p.current_index];
    for _ in 0..8 {
        assert!(p.next_track().is_some());
        visited.push(p.current_index);
    }
    for step in 0..8 {
        assert!(p.previous_track().is_some());
        let expected = visited[visited.len() - 2 - step];
        assert_eq!(p.current_index, expected);
    }
    assert_eq!(p.current_index, visited[0]);
    assert!(p.previous_index.is_empty());
}

#[test]
fn shuffle_jumps_spread_over_the_list() {
    let tracks: Vec<Track> = (0..200).map(|i| track(&format!("t{i}"))).collect();
    let mut p = Playlist::new(tracks);
    p.set_mode(PlaylistMode::Shuffle);
    let mut seen = Vec::new();
    for _ in 0..50 {
        p.next_track();
        assert!(p.current_index < 200);
        seen.push(p.current_index);
    }
    // a uniform draw over 200 indices repeats the same one 50 times
    // only with vanishing probability
    assert!(seen.iter().any(|&i| i != seen[0]));
}

#[test]
fn shuffle_reorders_sooner_or_later() {
    let tracks: Vec<Track> = (0..100).map(|i| track(&format!("t{i}"))).collect();
    let original: Vec<String> = tracks.iter().map(|t| t.path.clone()).collect();
    let mut p = Playlist::new(tracks);
    let mut changed = false;
    for _ in 0..20 {
        p.shuffle();
        let now: Vec<String> = p.tracks().iter().map(|t| t.path.clone()).collect();
        if now != original {
            changed = true;
        }
        let mut sorted = now.clone();
        sorted.sort();
        let mut expected = original.clone();
        expected.sort();
        assert_eq!(sorted, expected);
    }
    // twenty uniform permutations of 100 elements are all the identity
    // only with vanishing probability
    assert!(changed);
}

#[test]
fn previous_track_decrements_without_history() {
    let mut p = three_track_playlist();
    p.select_track(2).unwrap();
    let prev = p.previous_track().unwrap();
    assert_eq!(prev.path, "b");
    assert_eq!(p.current_index, 1);
}

#[test]
fn previous_track_saturates_at_zero() {
    let mut p = three_track_playlist();
    let prev = p.previous_track().unwrap();
    assert_eq!(prev.path, "a");
    assert_eq!(p.current_index, 0);
}

#[test]
fn previous_track_on_empty_is_none() {
    let mut p = Playlist::new(Vec::new());
    assert!(p.previous_track().is_none());
}

#[test]
fn select_track_on_empty_playlist_is_an_error() {
    let mut p = Playlist::new(Vec::new());
    assert_eq!(p.select_track(0), Err(PlaylistError::EmptyPlaylist));
    assert_eq!(p.select_track(7), Err(PlaylistError::EmptyPlaylist));
    assert_eq!(p.current_index, 0);
    assert!(p.current_track().is_none());
}

#[test]
fn select_track_clamps_past_the_end() {
    let mut p = three_track_playlist();
    p.select_track(10).unwrap();
    assert_eq!(p.current_index, 2);
}

#[test]
fn select_track_clears_history() {
    let mut p = three_track_playlist();
    p.set_mode(PlaylistMode::Shuffle);
    p.next_track();
    assert!(!p.previous_index.is_empty());
    p.select_track(0).unwrap();
    assert!(p.previous_index.is_empty());
}

#[test]
fn shuffle_keeps_the_same_tracks() {
    let mut p = three_track_playlist();
    p.shuffle();
    let mut paths: Vec<String> = p.tracks().iter().map(|t| t.path.clone()).collect();
    paths.sort();
    assert_eq!(paths, vec!["a".to_string(), "b".to_string(), "c".to_string()]);
    assert_eq!(p.current_index, 0);
}

#[test]
fn clear_empties_everything() {
    let mut p = three_track_playlist();
    p.select_track(2).unwrap();
    p.clear();
    assert_eq!(p.tracks().len(), 0);
    assert_eq!(p.current_index, 0);
    assert!(p.previous_index.is_empty());
    assert!(p.current_track().is_none());
}

#[test]
fn append_grows_the_tail() {
    let mut p = Playlist::new(Vec::new());
    p.append(track("a"));
    p.append(track("b"));
    assert_eq!(p.tracks().len(), 2);
    assert_eq!(p.tracks()[1].path, "b");
}

#[test]
fn append_multiple_keeps_order() {
    let mut p = three_track_playlist();
    p.append_multiple(vec![track("d"), track("e")]);
    assert_eq!(p.tracks().len(), 5);
    assert_eq!(p.tracks()[3].path, "d");
    assert_eq!(p.tracks()[4].path, "e");
}

#[test]
fn mode_round_trip() {
    let mut p = three_track_playlist();
    p.set_mode(PlaylistMode::RepeatSingle);
    assert!(matches!(p.mode(), PlaylistMode::RepeatSingle));
    p.set_mode(PlaylistMode::NoRepeat);
    assert!(matches!(p.mode(), PlaylistMode::NoRepeat));
}
