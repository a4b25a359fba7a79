//! A track of the playlist, and what the file system path of a track tells.

use vstd::prelude::*;
use crate::text::same_text;

verus! {

/// A track: its path and the metadata known of it.
#[derive(Debug, Clone)]
pub struct Track {
    /// Where the audio file lies; it identifies the track.
    pub path: String,
    pub title: Option<String>,
    pub artist: Option<String>,
    pub album: Option<String>,
    /// The playing time, in whole seconds, where it is known.
    pub duration: Option<u64>,
}

/// The views of an optional string.
pub open spec fn opt_view(o: Option<String>) -> Option<Seq<char>> {
    match o {
        Some(s) => Some(s@),
        None => None,
    }
}

/// The final component of a path, as std's `Path::file_name` reads it.
pub uninterp spec fn path_file_name(path: Seq<char>) -> Option<Seq<char>>;

/// The extension of a path's final component, as std's `Path::extension` reads it.
pub uninterp spec fn path_extension(path: Seq<char>) -> Option<Seq<char>>;

/// The lower-case form of a text, as std's `str::to_lowercase` gives it.
pub uninterp spec fn lower_of(s: Seq<char>) -> Seq<char>;

/// Relies on std's `Path::file_name`: the final component of the path, if any.
#[verifier::external_body]
pub(crate) fn file_name_of(path: &str) -> (r: Option<String>)
    ensures
        opt_view(r) == path_file_name(path@),
{
    match std::path::Path::new(path).file_name() {
        Some(n) => Some(n.to_string_lossy().into_owned()),
        None => None,
    }
}

/// Relies on std's `Path::extension`: the extension of the final component, if any.
#[verifier::external_body]
pub(crate) fn extension_of(path: &str) -> (r: Option<String>)
    ensures
        opt_view(r) == path_extension(path@),
{
    match std::path::Path::new(path).extension() {
        Some(e) => Some(e.to_string_lossy().into_owned()),
        None => None,
    }
}

/// Relies on std's `str::to_lowercase`: the lower-case form of the text.
#[verifier::external_body]
pub(crate) fn lowercase(s: &str) -> (r: String)
    ensures
        r@ == lower_of(s@),
{
    s.to_lowercase()
}

/// The name under which a track is shown: its title, else its file name,
/// else nothing.
pub open spec fn display_name_spec(t: Track) -> Seq<char> {
    match t.title {
        Some(title) => title@,
        None => match path_file_name(t.path@) {
            Some(n) => n,
            None => Seq::empty(),
        },
    }
}

impl Track {
    /// A track at `path` with no metadata.
    pub fn new(path: String) -> (r: Track)
        ensures
            r.path == path,
            r.title is None,
            r.artist is None,
            r.album is None,
            r.duration is None,
    {
        Track { path, title: None, artist: None, album: None, duration: None }
    }

    /// The track's title, or its file name where it has none.
    pub fn display_name(&self) -> (r: String)
        ensures
            r@ == display_name_spec(*self),
    {
        match &self.title {
            Some(t) => t.clone(),
            None => match file_name_of(self.path.as_str()) {
                Some(n) => n,
                None => String::new(),
            },
        }
    }
}

/// The extensions, in lower case, of the audio files that the player takes.
pub open spec fn is_audio_extension_spec(ext: Seq<char>) -> bool {
    ext == "mp3"@ || ext == "flac"@ || ext == "ogg"@
}

/// Whether a lower-case extension names an audio format that the player takes.
pub fn is_audio_extension(ext: &str) -> (r: bool)
    ensures
        r == is_audio_extension_spec(ext@),
{
    same_text(ext, "mp3") || same_text(ext, "flac") || same_text(ext, "ogg")
}

/// Whether the file at `path` is an audio file, told by its extension in any case.
pub open spec fn is_audio_file_spec(path: Seq<char>) -> bool {
    match path_extension(path) {
        Some(e) => is_audio_extension_spec(lower_of(e)),
        None => false,
    }
}

/// Whether the file at `path` is an audio file, told by its extension in any case.
pub fn is_audio_file(path: &str) -> (r: bool)
    ensures
        r == is_audio_file_spec(path@),
{
    match extension_of(path) {
        Some(e) => {
            let lower = lowercase(e.as_str());
            is_audio_extension(lower.as_str())
        },
        None => false,
    }
}

} // verus!
