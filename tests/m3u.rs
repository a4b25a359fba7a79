use juke::m3u::m3u_text;
use juke::{parse_m3u, Playlist, Track};

fn lines(text: &[&str]) -> Vec<String> {
    text.iter().map(|l| l.to_string()).collect()
}

#[test]
fn extinf_sets_duration_and_title() {
    let entries = parse_m3u(&lines(&["#EXTM3U", "#EXTINF:125,My Song", "track.mp3"]), "/music");
    assert_eq!(entries.len(), 1);
    assert_eq!(entries[0].path, "/music/track.mp3");
    let extinf = entries[0].extinf.as_ref().unwrap();
    assert_eq!(extinf.seconds, 125);
    assert_eq!(extinf.title, "My Song");

    let mut read = Track::new("/music/track.mp3".to_string());
    read.title = Some("Embedded Title".to_string());
    read.artist = Some("Someone".to_string());
    read.duration = Some(7);
    let track = entries[0].clone().into_track(read);
    assert_eq!(track.duration, Some(125));
    assert_eq!(track.title.as_deref(), Some("My Song"));
    assert_eq!(track.artist.as_deref(), Some("Someone"));
}

#[test]
fn entries_keep_file_order() {
    let entries = parse_m3u(&lines(&["  b.mp3  ", "", "# a comment", "a.mp3", "/abs/c.ogg"]), "list");
    let paths: Vec<&str> = entries.iter().map(|e| e.path.as_str()).collect();
    assert_eq!(paths, vec!["list/b.mp3", "list/a.mp3", "/abs/c.ogg"]);
    assert!(entries.iter().all(|e| e.extinf.is_none()));
}

#[test]
fn extinf_applies_to_the_next_path_only() {
    let entries = parse_m3u(&lines(&["#EXTINF:5,One", "one.mp3", "two.mp3"]), "");
    assert_eq!(entries.len(), 2);
    assert_eq!(entries[0].path, "one.mp3");
    assert_eq!(entries[0].extinf.as_ref().unwrap().title, "One");
    assert!(entries[1].extinf.is_none());
}

#[test]
fn invalid_or_negative_duration_gives_nothing() {
    let entries = parse_m3u(
        &lines(&[
            "#EXTINF:-3,Neg",
            "a.mp3",
            "#EXTINF:abc,Bad",
            "b.mp3",
            "#EXTINF:99999999999999999999,Huge",
            "c.mp3",
            "#EXTINF:-0,Zero",
            "d.mp3",
            "#EXTINF:+7,Plus",
            "e.mp3",
            "#EXTINF:7 no comma",
            "f.mp3",
        ]),
        "",
    );
    assert_eq!(entries.len(), 6);
    assert!(entries[0].extinf.is_none());
    assert!(entries[1].extinf.is_none());
    assert!(entries[2].extinf.is_none());
    assert_eq!(entries[3].extinf.as_ref().unwrap().seconds, 0);
    assert_eq!(entries[4].extinf.as_ref().unwrap().seconds, 7);
    assert!(entries[5].extinf.is_none());
}

#[test]
fn title_keeps_commas_after_the_first() {
    let entries = parse_m3u(&lines(&["#EXTINF:60,Artist, The - Song", "x.flac"]), "");
    assert_eq!(entries[0].extinf.as_ref().unwrap().title, "Artist, The - Song");
}

#[test]
fn m3u_tracks_make_a_playlist() {
    let entries = parse_m3u(&lines(&["b.mp3", "a.mp3"]), "");
    let tracks: Vec<Track> = entries
        .into_iter()
        .map(|e| {
            let read = Track::new(e.path.clone());
            e.into_track(read)
        })
        .collect();
    let playlist = Playlist::from_m3u(tracks).unwrap();
    assert_eq!(playlist.current_track().unwrap().path, "b.mp3");
}

#[test]
fn written_playlist_lists_every_track() {
    let mut named = Track::new("/music/one.mp3".to_string());
    named.title = Some("One".to_string());
    named.duration = Some(125);
    let plain = Track::new("/music/two.ogg".to_string());
    let mut playlist = Playlist::new();
    playlist.add_track(named);
    playlist.add_track(plain);
    let text = playlist.save_m3u();
    assert_eq!(
        text,
        "#EXTM3U\n#EXTINF:125,One\n/music/one.mp3\n#EXTINF:-1,two.ogg\n/music/two.ogg\n"
    );
    assert_eq!(m3u_text(&[]), "#EXTM3U\n");
    assert_eq!(
        m3u_text(&[Track::new("/".to_string())]),
        "#EXTM3U\n#EXTINF:-1,Unknown\n/\n"
    );
}

#[test]
fn written_playlist_reads_back() {
    let mut t = Track::new("/m/a.mp3".to_string());
    t.title = Some("A".to_string());
    t.duration = Some(0);
    let text = m3u_text(&[t]);
    let read: Vec<String> = text.lines().map(|l| l.to_string()).collect();
    let entries = parse_m3u(&read, "/m");
    assert_eq!(entries.len(), 1);
    assert_eq!(entries[0].path, "/m/a.mp3");
    let extinf = entries[0].extinf.as_ref().unwrap();
    assert_eq!(extinf.seconds, 0);
    assert_eq!(extinf.title, "A");
}

#[test]
fn absolute_paths_are_kept() {
    let entries = parse_m3u(&lines(&["/abs/one.mp3"]), "/music");
    assert_eq!(entries[0].path, "/abs/one.mp3");
}
