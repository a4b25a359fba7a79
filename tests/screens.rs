use juke::browser::{contains_text, matches_folded};
use juke::{key_action, Action, Key};
use juke::{
    load_playlist, render_progress_bar, truncate_for_display, truncate_text, Playlist,
    PlaylistSource, Track, TrackBrowser, UIMode,
};

fn library() -> Playlist {
    let mut playlist = Playlist::new();
    let mut a = Track::new("/m/alpha.mp3".to_string());
    a.artist = Some("The Band".to_string());
    let mut b = Track::new("/m/beta.mp3".to_string());
    b.title = Some("Bright Song".to_string());
    let mut c = Track::new("/m/gamma.ogg".to_string());
    c.album = Some("Bright Lights".to_string());
    playlist.add_track(a);
    playlist.add_track(b);
    playlist.add_track(c);
    playlist
}

#[test]
fn truncation_marks_the_cut() {
    assert_eq!(truncate_text("short", 10), "short");
    assert_eq!(truncate_text("exactly10!", 10), "exactly10!");
    assert_eq!(truncate_text("a longer title", 10), "a longe...");
    assert_eq!(truncate_text("abcdef", 2), "...");
    assert_eq!(truncate_text("héllo wörld", 8), "héllo...");
}

#[test]
fn display_truncation_keeps_ten_characters() {
    assert_eq!(truncate_for_display("abcdefghijklmnop", 12, 4), "abcdefg...");
    assert_eq!(truncate_for_display("abcdefghijklmnop", 30, 4), "abcdefghijklmnop");
    assert_eq!(truncate_for_display("abcdefghijklmn", 20, 6), "abcdefghijklmn");
    assert_eq!(truncate_for_display("abcdefghijklmnopqrstu", 20, 6), "abcdefghijk...");
}

#[test]
fn progress_bar_rounds_the_fraction_played() {
    assert_eq!(render_progress_bar(0, 10_000, 4), "⣀⣀⣀⣀");
    assert_eq!(render_progress_bar(5_000, 10_000, 4), "⣿⣿⣀⣀");
    assert_eq!(render_progress_bar(1_250, 10_000, 4), "⣿⣀⣀⣀");
    assert_eq!(render_progress_bar(1_240, 10_000, 4), "⣀⣀⣀⣀");
    assert_eq!(render_progress_bar(20_000, 10_000, 3), "⣿⣿⣿");
    assert_eq!(render_progress_bar(5_000, 999, 4), "");
    assert_eq!(render_progress_bar(5_000, 10_000, 0), "");
}

#[test]
fn substring_search() {
    assert!(contains_text("bright song", "song"));
    assert!(contains_text("bright song", ""));
    assert!(!contains_text("song", "songs"));
    assert!(matches_folded("li", "x", "y", "lights"));
    assert!(!matches_folded("zz", "x", "y", "lights"));
}

#[test]
fn search_filters_by_name_artist_and_album() {
    let playlist = library();
    let mut browser = TrackBrowser::new();
    assert_eq!(browser.ui_mode(), UIMode::Normal);
    browser.search_input('x', &playlist);
    assert_eq!(browser.search_query(), "");
    browser.set_ui_mode(UIMode::TrackList, &playlist);
    assert_eq!(browser.filtered_indices(), &[0, 1, 2]);
    assert_eq!(browser.selected(), 0);
    browser.search_input('B', &playlist);
    assert_eq!(browser.search_query(), "B");
    assert_eq!(browser.filtered_indices(), &[0, 1, 2]);
    browser.search_input('R', &playlist);
    assert_eq!(browser.filtered_indices(), &[1, 2]);
    browser.search_input('i', &playlist);
    browser.search_input('g', &playlist);
    browser.search_input('h', &playlist);
    browser.search_input('t', &playlist);
    browser.search_input(' ', &playlist);
    browser.search_input('s', &playlist);
    assert_eq!(browser.filtered_indices(), &[1]);
    browser.search_backspace(&playlist);
    browser.search_backspace(&playlist);
    assert_eq!(browser.search_query(), "BRight");
    assert_eq!(browser.filtered_indices(), &[1, 2]);
    browser.clear_search();
    assert_eq!(browser.search_query(), "");
}

#[test]
fn selection_moves_and_plays() {
    let mut playlist = library();
    playlist.goto(1);
    let mut browser = TrackBrowser::new();
    browser.set_ui_mode(UIMode::TrackList, &playlist);
    assert_eq!(browser.selected(), 1);
    browser.track_list_down();
    assert_eq!(browser.selected(), 2);
    browser.track_list_down();
    assert_eq!(browser.selected(), 2);
    browser.track_list_up();
    browser.track_list_up();
    browser.track_list_up();
    assert_eq!(browser.selected(), 0);
    assert!(browser.track_list_play_selected(&mut playlist));
    assert_eq!(playlist.current_index(), 0);
    browser.set_ui_mode(UIMode::Normal, &playlist);
    assert_eq!(browser.ui_mode(), UIMode::Normal);
    assert!(!browser.track_list_play_selected(&mut playlist));
}

#[test]
fn playlist_source_by_path() {
    assert_eq!(load_playlist("list.m3u", true, false), Some(PlaylistSource::M3u));
    assert_eq!(load_playlist("list.M3U", true, false), None);
    assert_eq!(load_playlist("music", false, true), Some(PlaylistSource::Directory));
    assert_eq!(load_playlist("song.mp3", true, false), None);
    assert_eq!(load_playlist("gone", false, false), None);
}

#[test]
fn keys_map_to_actions_per_screen() {
    assert_eq!(key_action(UIMode::Normal, Key::Char('q'), false), Action::Quit);
    assert_eq!(key_action(UIMode::Normal, Key::Right, false), Action::NextTrack);
    assert_eq!(key_action(UIMode::Normal, Key::Right, true), Action::SeekForward);
    assert_eq!(key_action(UIMode::Normal, Key::Left, true), Action::SeekBackward);
    assert_eq!(
        key_action(UIMode::Normal, Key::Char('t'), false),
        Action::ShowScreen(UIMode::TrackList)
    );
    assert_eq!(key_action(UIMode::Normal, Key::Char('x'), false), Action::Nothing);
    assert_eq!(key_action(UIMode::TrackList, Key::Char('q'), false), Action::SearchInput('q'));
    assert_eq!(
        key_action(UIMode::TrackList, Key::Esc, false),
        Action::ShowScreen(UIMode::Normal)
    );
    assert_eq!(key_action(UIMode::Help, Key::Up, false), Action::ShowScreen(UIMode::Normal));
}

#[test]
fn backspace_removes_multibyte_characters() {
    let playlist = library();
    let mut browser = TrackBrowser::new();
    browser.set_ui_mode(UIMode::TrackList, &playlist);
    browser.search_input('é', &playlist);
    browser.search_input('ß', &playlist);
    browser.search_backspace(&playlist);
    assert_eq!(browser.search_query(), "é");
    browser.search_backspace(&playlist);
    browser.search_backspace(&playlist);
    assert_eq!(browser.search_query(), "");
}
