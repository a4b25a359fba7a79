//! The core of a terminal music player: playlist navigation with shuffle and
//! repeat, playback position tracking, the M3U playlist format, and the
//! state behind the player's screens.

pub mod browser;
pub mod config;
pub mod display;
pub mod driver;
pub mod input;
pub mod m3u;
pub mod player;
pub mod playlist;
pub mod scan;
mod text;
pub mod track;

pub use browser::{TrackBrowser, UIMode};
pub use config::{Config, KeyBinding, KeyConfig, PlaybackConfig};
pub use display::{render_progress_bar, truncate_for_display, truncate_text};
pub use driver::{after_load_failure, load_playlist, LoadRetry, PlaylistSource};
pub use m3u::{parse_m3u, ExtInf, M3uEntry};
pub use player::{PlaybackState, PlayerError, PositionTracker, Transport};
pub use playlist::{Playlist, PlaylistError, RepeatMode, ShuffleState};
pub use track::{is_audio_file, Track};
pub use input::{key_action, Action, Key};
