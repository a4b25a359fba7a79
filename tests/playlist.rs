use juke::{
    after_load_failure, is_audio_file, LoadRetry, PlayerError, Playlist, PlaylistError,
    RepeatMode, ShuffleState, Track,
};

fn playlist_of(names: &[&str]) -> Playlist {
    let mut playlist = Playlist::new();
    for name in names {
        playlist.add_track(Track::new(name.to_string()));
    }
    playlist
}

fn current_path(playlist: &Playlist) -> String {
    playlist.current_track().unwrap().path.clone()
}

#[test]
fn test_track_display_name() {
    let mut track = Track::new("/music/song.mp3".to_string());
    assert_eq!(track.display_name(), "song.mp3");

    track.title = Some("My Song".to_string());
    assert_eq!(track.display_name(), "My Song");
}

#[test]
fn test_shuffle_state_toggle() {
    let mut state = ShuffleState::Off;
    state.toggle();
    assert_eq!(state, ShuffleState::On);
    state.toggle();
    assert_eq!(state, ShuffleState::Off);
}

#[test]
fn test_repeat_mode_cycle() {
    let mut mode = RepeatMode::Off;
    mode.cycle();
    assert_eq!(mode, RepeatMode::All);
    mode.cycle();
    assert_eq!(mode, RepeatMode::Single);
    mode.cycle();
    assert_eq!(mode, RepeatMode::Off);
}

#[test]
fn test_empty_playlist() {
    let playlist = Playlist::new();
    assert!(playlist.is_empty());
    assert_eq!(playlist.len(), 0);
    assert!(playlist.current_track().is_none());
}

#[test]
fn test_playlist_navigation() {
    let mut playlist = Playlist::new();
    playlist.add_track(Track::new("track1.mp3".to_string()));
    playlist.add_track(Track::new("track2.mp3".to_string()));
    playlist.add_track(Track::new("track3.mp3".to_string()));

    assert_eq!(playlist.current_index(), 0);

    assert!(playlist.next());
    assert_eq!(playlist.current_index(), 1);

    assert!(playlist.next());
    assert_eq!(playlist.current_index(), 2);

    assert!(!playlist.next());
    assert_eq!(playlist.current_index(), 2);

    assert!(playlist.previous());
    assert_eq!(playlist.current_index(), 1);
}

#[test]
fn test_playlist_repeat_all() {
    let mut playlist = Playlist::new();
    playlist.add_track(Track::new("track1.mp3".to_string()));
    playlist.add_track(Track::new("track2.mp3".to_string()));

    playlist.cycle_repeat();
    assert_eq!(playlist.repeat_mode(), RepeatMode::All);

    playlist.goto(1);
    assert_eq!(playlist.current_index(), 1);

    assert!(playlist.next());
    assert_eq!(playlist.current_index(), 0);
}

#[test]
fn test_is_audio_file() {
    assert!(is_audio_file("song.mp3"));
    assert!(is_audio_file("song.MP3"));
    assert!(is_audio_file("song.flac"));
    assert!(is_audio_file("song.ogg"));
    assert!(!is_audio_file("song.txt"));
    assert!(!is_audio_file("song.wav"));
}

fn scan_for_audio(dir: &std::path::Path, found: &mut Vec<Track>) {
    if let Ok(entries) = dir.read_dir() {
        for entry in entries.flatten() {
            let path = entry.path();
            if path.is_dir() {
                scan_for_audio(&path, found);
            } else {
                let text = path.to_string_lossy().to_string();
                if is_audio_file(&text) {
                    found.push(Track::new(text));
                }
            }
        }
    }
}

#[test]
fn test_load_music_directory() {
    let music_dir = std::path::Path::new("music");
    if music_dir.exists() && music_dir.is_dir() {
        let mut found = Vec::new();
        scan_for_audio(music_dir, &mut found);
        match Playlist::from_directory(found) {
            Ok(playlist) => {
                println!("\nLoaded {} tracks from music directory", playlist.len());
                for track in playlist.tracks() {
                    println!("  - {}", track.display_name());
                    if let Some(artist) = &track.artist {
                        println!("    Artist: {}", artist);
                    }
                    if let Some(album) = &track.album {
                        println!("    Album: {}", album);
                    }
                    if let Some(duration) = &track.duration {
                        println!("    Duration: {}:{:02}", duration / 60, duration % 60);
                    }
                }
            }
            Err(e) => {
                println!("Note: Could not load music directory: {:?}", e);
            }
        }
    } else {
        println!("Skipping music directory test - directory not found");
    }
}

#[test]
fn first_track_is_current_after_construction() {
    for n in 1..6 {
        let tracks: Vec<Track> = (0..n).map(|i| Track::new(format!("t{}.mp3", i))).collect();
        let playlist = Playlist::from_tracks(tracks).unwrap();
        assert_eq!(current_path(&playlist), "t0.mp3");
        assert_eq!(playlist.current_index(), 0);
    }
}

#[test]
fn construction_without_tracks_fails() {
    assert!(matches!(Playlist::from_tracks(Vec::new()), Err(PlaylistError::EmptyPlaylist)));
    assert!(matches!(Playlist::from_m3u(Vec::new()), Err(PlaylistError::EmptyPlaylist)));
    assert!(matches!(Playlist::from_directory(Vec::new()), Err(PlaylistError::EmptyPlaylist)));
}

#[test]
fn next_walks_to_last_then_stops() {
    let mut playlist = playlist_of(&["a.mp3", "b.mp3", "c.mp3", "d.mp3"]);
    for _ in 0..3 {
        assert!(playlist.next());
    }
    assert_eq!(playlist.current_index(), 3);
    assert_eq!(current_path(&playlist), "d.mp3");
    assert!(!playlist.next());
    assert_eq!(playlist.current_index(), 3);
}

#[test]
fn repeat_all_wraps_both_ways() {
    let mut playlist = playlist_of(&["a.mp3", "b.mp3", "c.mp3"]);
    playlist.cycle_repeat();
    assert!(playlist.previous());
    assert_eq!(playlist.current_index(), 2);
    assert!(playlist.next());
    assert_eq!(playlist.current_index(), 0);
}

#[test]
fn previous_at_start_without_repeat_stays() {
    let mut playlist = playlist_of(&["a.mp3", "b.mp3"]);
    assert!(!playlist.previous());
    assert_eq!(playlist.current_index(), 0);
}

#[test]
fn repeat_single_never_moves() {
    let mut playlist = playlist_of(&["a.mp3", "b.mp3", "c.mp3"]);
    playlist.cycle_repeat();
    playlist.cycle_repeat();
    assert_eq!(playlist.repeat_mode(), RepeatMode::Single);
    playlist.goto(1);
    for _ in 0..5 {
        assert!(playlist.next());
        assert_eq!(playlist.current_index(), 1);
    }
    playlist.cycle_repeat();
    assert_eq!(playlist.repeat_mode(), RepeatMode::Off);
}

#[test]
fn goto_out_of_range_is_refused() {
    let mut playlist = playlist_of(&["a.mp3", "b.mp3", "c.mp3"]);
    playlist.goto(1);
    assert!(!playlist.goto(5));
    assert_eq!(playlist.current_index(), 1);
    assert!(!playlist.goto(3));
    assert!(playlist.goto(2));
    assert_eq!(playlist.current_index(), 2);
}

#[test]
fn empty_playlist_navigation_is_a_no_op() {
    let mut playlist = Playlist::new();
    assert!(!playlist.next());
    assert!(!playlist.previous());
    assert!(!playlist.goto(0));
    playlist.toggle_shuffle();
    assert!(playlist.current_track().is_none());
    assert_eq!(playlist.current_index(), 0);
}

#[test]
fn shuffle_on_keeps_current_track() {
    for n in 1..8 {
        for start in 0..n {
            let names: Vec<String> = (0..n).map(|i| format!("t{}.mp3", i)).collect();
            let refs: Vec<&str> = names.iter().map(|s| s.as_str()).collect();
            let mut playlist = playlist_of(&refs);
            playlist.goto(start);
            let before = current_path(&playlist);
            playlist.toggle_shuffle();
            assert_eq!(playlist.shuffle_state(), ShuffleState::On);
            assert_eq!(playlist.current_index(), 0);
            assert_eq!(current_path(&playlist), before);
        }
    }
}

#[test]
fn shuffle_order_visits_each_track_once() {
    let names: Vec<String> = (0..9).map(|i| format!("t{}.mp3", i)).collect();
    let refs: Vec<&str> = names.iter().map(|s| s.as_str()).collect();
    let mut playlist = playlist_of(&refs);
    playlist.toggle_shuffle();
    let mut seen = vec![current_path(&playlist)];
    while playlist.next() {
        seen.push(current_path(&playlist));
    }
    seen.sort();
    let mut expected = names.clone();
    expected.sort();
    assert_eq!(seen, expected);
}

#[test]
fn shuffle_off_keeps_current_track() {
    let names: Vec<String> = (0..6).map(|i| format!("t{}.mp3", i)).collect();
    let refs: Vec<&str> = names.iter().map(|s| s.as_str()).collect();
    let mut playlist = playlist_of(&refs);
    playlist.toggle_shuffle();
    playlist.next();
    playlist.next();
    let before = current_path(&playlist);
    playlist.toggle_shuffle();
    assert_eq!(playlist.shuffle_state(), ShuffleState::Off);
    assert_eq!(current_path(&playlist), before);
    let expected_index = names.iter().position(|n| *n == before).unwrap();
    assert_eq!(playlist.current_index(), expected_index);
}

#[test]
fn add_track_under_shuffle_keeps_current_track() {
    let mut playlist = playlist_of(&["a.mp3", "b.mp3", "c.mp3"]);
    playlist.toggle_shuffle();
    playlist.next();
    let before = current_path(&playlist);
    playlist.add_track(Track::new("d.mp3".to_string()));
    assert_eq!(playlist.len(), 4);
    assert_eq!(current_path(&playlist), before);
    assert_eq!(playlist.current_index(), 0);
    let mut seen = vec![current_path(&playlist)];
    while playlist.next() {
        seen.push(current_path(&playlist));
    }
    seen.sort();
    assert_eq!(seen, vec!["a.mp3", "b.mp3", "c.mp3", "d.mp3"]);
}

#[test]
fn directory_tracks_come_in_path_order() {
    let found = vec![Track::new("b.mp3".to_string()), Track::new("a.mp3".to_string())];
    let playlist = Playlist::from_directory(found).unwrap();
    let paths: Vec<&str> = playlist.tracks().iter().map(|t| t.path.as_str()).collect();
    assert_eq!(paths, vec!["a.mp3", "b.mp3"]);
    assert_eq!(current_path(&playlist), "a.mp3");
}

#[test]
fn directory_order_compares_components() {
    let found = vec![
        Track::new("music/a-b.mp3".to_string()),
        Track::new("music/z.mp3".to_string()),
        Track::new("music/a/x.mp3".to_string()),
        Track::new("music/B.mp3".to_string()),
    ];
    let playlist = Playlist::from_directory(found).unwrap();
    let paths: Vec<&str> = playlist.tracks().iter().map(|t| t.path.as_str()).collect();
    assert_eq!(paths, vec!["music/B.mp3", "music/a/x.mp3", "music/a-b.mp3", "music/z.mp3"]);
}

#[test]
fn decode_failure_moves_on_until_none_remain() {
    let mut playlist = playlist_of(&["a.mp3", "b.mp3"]);
    let decode = PlayerError::DecodeError("bad".to_string());
    assert_eq!(after_load_failure(&mut playlist, &decode, 1), LoadRetry::LoadNext);
    assert_eq!(playlist.current_index(), 1);
    assert_eq!(after_load_failure(&mut playlist, &decode, 2), LoadRetry::NoPlayableTrack);
    assert_eq!(playlist.current_index(), 1);
}

#[test]
fn decode_failure_under_repeat_is_bounded() {
    let mut playlist = playlist_of(&["a.mp3", "b.mp3"]);
    playlist.cycle_repeat();
    let decode = PlayerError::DecodeError("bad".to_string());
    assert_eq!(after_load_failure(&mut playlist, &decode, 1), LoadRetry::LoadNext);
    assert_eq!(playlist.current_index(), 1);
    assert_eq!(after_load_failure(&mut playlist, &decode, 2), LoadRetry::NoPlayableTrack);
}

#[test]
fn other_load_failures_are_fatal() {
    let mut playlist = playlist_of(&["a.mp3", "b.mp3"]);
    let file = PlayerError::FileError("missing".to_string());
    let init = PlayerError::InitializationError("no device".to_string());
    assert_eq!(after_load_failure(&mut playlist, &file, 1), LoadRetry::Fatal);
    assert_eq!(after_load_failure(&mut playlist, &init, 1), LoadRetry::Fatal);
    assert_eq!(playlist.current_index(), 0);
}

#[test]
fn display_name_falls_back_to_file_name() {
    let track = Track::new("/music/album/".to_string());
    assert_eq!(track.display_name(), "album");
    let track = Track::new("/".to_string());
    assert_eq!(track.display_name(), "");
}
