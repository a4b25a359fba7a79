//! The driver's decisions around track loading: what to do when loading the
//! current track failed.

use vstd::prelude::*;
use crate::player::PlayerError;
use crate::playlist::{next_step, Playlist};
use crate::text::same_text;
use crate::track::{extension_of, path_extension};

verus! {

/// What the driver does after loading the current track failed.
#[derive(Debug, Clone, Copy, PartialEq, Eq, Structural)]
pub enum LoadRetry {
    /// The playlist moved on: load its current track.
    LoadNext,
    /// No track that could be played remains: stop with that error.
    NoPlayableTrack,
    /// The failure lies in the environment, not the file: give it up.
    Fatal,
}

/// Decides what follows a failed load of the current track, where
/// `attempts` loads have failed since the track last changed by the
/// user's or the playlist's doing.
///
/// A file that cannot be decoded is skipped: the playlist advances as `next`
/// does, and the driver loads the new current track, until `next` answers
/// false or every track has been tried once. Any other failure is fatal.
pub fn after_load_failure(playlist: &mut Playlist, error: &PlayerError, attempts: usize) -> (r:
    LoadRetry)
    requires
        old(playlist).wf(),
    ensures
        final(playlist).wf(),
        final(playlist).tracks_spec() == old(playlist).tracks_spec(),
        final(playlist).shuffle_spec() == old(playlist).shuffle_spec(),
        final(playlist).order_spec() == old(playlist).order_spec(),
        final(playlist).repeat_spec() == old(playlist).repeat_spec(),
        !(error is DecodeError) ==> r == LoadRetry::Fatal && final(playlist).index_spec()
            == old(playlist).index_spec(),
        error is DecodeError && attempts >= old(playlist).len_spec() ==> r
            == LoadRetry::NoPlayableTrack && final(playlist).index_spec()
            == old(playlist).index_spec(),
        error is DecodeError && attempts < old(playlist).len_spec() ==> {
            let step = next_step(
                old(playlist).index_spec(),
                old(playlist).len_spec(),
                old(playlist).repeat_spec(),
            );
            &&& final(playlist).index_spec() == step.0
            &&& r == if step.1 {
                LoadRetry::LoadNext
            } else {
                LoadRetry::NoPlayableTrack
            }
        },
{
    match error {
        PlayerError::DecodeError(_) => {
            if attempts >= playlist.len() {
                LoadRetry::NoPlayableTrack
            } else if playlist.next() {
                LoadRetry::LoadNext
            } else {
                LoadRetry::NoPlayableTrack
            }
        },
        _ => LoadRetry::Fatal,
    }
}

/// Where a playlist comes from.
#[derive(Debug, Clone, Copy, PartialEq, Eq, Structural)]
pub enum PlaylistSource {
    /// A playlist file in M3U form.
    M3u,
    /// A directory to scan for audio files.
    Directory,
}

/// Where the playlist named by `path` comes from: a file whose extension is
/// `m3u` is a playlist file; else a directory is scanned; anything else is
/// refused. `is_file` and `is_dir` say what the path names on disk.
pub open spec fn playlist_source_spec(path: Seq<char>, is_file: bool, is_dir: bool) -> Option<
    PlaylistSource,
> {
    if is_file && path_extension(path) == Some("m3u"@) {
        Some(PlaylistSource::M3u)
    } else if is_dir {
        Some(PlaylistSource::Directory)
    } else {
        None
    }
}

/// Where the playlist named by `path` comes from, given what it names on
/// disk; none where it is neither a playlist file nor a directory.
pub fn load_playlist(path: &str, is_file: bool, is_dir: bool) -> (r: Option<PlaylistSource>)
    ensures
        r == playlist_source_spec(path@, is_file, is_dir),
{
    if is_file {
        match extension_of(path) {
            Some(e) => {
                if same_text(e.as_str(), "m3u") {
                    return Some(PlaylistSource::M3u);
                }
            },
            None => {},
        }
    }
    if is_dir {
        Some(PlaylistSource::Directory)
    } else {
        None
    }
}

} // verus!
