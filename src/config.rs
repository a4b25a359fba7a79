//! The player's settings: the seek step and the key bindings.

use vstd::prelude::*;
use crate::text::same_text;

verus! {

/// The playback settings.
#[derive(Debug, Clone)]
pub struct PlaybackConfig {
    /// How far a seek moves, in seconds; at least one.
    pub seek_step: u32,
}

/// The keys bound to one action: one key, or several.
#[derive(Debug, Clone)]
pub enum KeyBinding {
    Single(String),
    Multiple(Vec<String>),
}

/// The key bindings of all actions.
#[derive(Debug, Clone)]
pub struct KeyConfig {
    pub play_pause: KeyBinding,
    pub next: KeyBinding,
    pub prev: KeyBinding,
    pub seek_forward: KeyBinding,
    pub seek_back: KeyBinding,
    pub shuffle: KeyBinding,
    pub repeat: KeyBinding,
    pub track_list: KeyBinding,
    pub search: KeyBinding,
    pub help: KeyBinding,
    pub quit: KeyBinding,
}

/// All settings.
#[derive(Debug, Clone)]
pub struct Config {
    pub playback: PlaybackConfig,
    pub keys: KeyConfig,
}

/// The seek step that stands in for an invalid one, and the default.
pub const DEFAULT_SEEK_STEP: u32 = 10;

/// The texts of a sequence of strings.
pub open spec fn string_views(s: Seq<String>) -> Seq<Seq<char>> {
    s.map_values(|k: String| k@)
}

/// The texts of a sequence of string slices.
pub open spec fn str_views(s: Seq<&str>) -> Seq<Seq<char>> {
    s.map_values(|k: &str| k@)
}

/// The key names of a binding, in order.
pub open spec fn binding_keys(b: KeyBinding) -> Seq<Seq<char>> {
    match b {
        KeyBinding::Single(k) => seq![k@],
        KeyBinding::Multiple(ks) => string_views(ks@),
    }
}

impl KeyBinding {
    /// The key names of the binding, in order.
    pub fn keys(&self) -> (r: Vec<&str>)
        ensures
            str_views(r@) == binding_keys(*self),
    {
        match self {
            KeyBinding::Single(key) => {
                let mut r: Vec<&str> = Vec::new();
                r.push(key.as_str());
                assert(str_views(r@) =~= binding_keys(*self));
                r
            },
            KeyBinding::Multiple(keys) => {
                let mut r: Vec<&str> = Vec::new();
                let mut i: usize = 0;
                while i < keys.len()
                    invariant
                        i <= keys@.len(),
                        r@.len() == i,
                        str_views(r@) =~= string_views(keys@.take(i as int)),
                    decreases keys@.len() - i,
                {
                    let ghost before = r@;
                    r.push(keys[i].as_str());
                    assert(keys@.take(i + 1) =~= keys@.take(i as int).push(keys@[i as int]));
                    assert(r@.last()@ == keys@[i as int]@);
                    assert(r@.drop_last() == before);
                    assert forall|j: int| 0 <= j <= i implies str_views(r@)[j] == string_views(
                        keys@.take(i + 1),
                    )[j] by {
                        if j < i {
                            assert(r@[j] == before[j]);
                            assert(str_views(before)[j] == string_views(keys@.take(i as int))[j]);
                        }
                    }
                    assert(str_views(r@) =~= string_views(keys@.take(i + 1)));
                    i = i + 1;
                }
                assert(keys@.take(i as int) =~= keys@);
                r
            },
        }
    }

    /// Whether the binding holds the key named `key`.
    pub fn contains(&self, key: &str) -> (r: bool)
        ensures
            r == binding_keys(*self).contains(key@),
    {
        let keys = self.keys();
        let ghost names = str_views(keys@);
        let mut i: usize = 0;
        while i < keys.len()
            invariant
                i <= keys@.len(),
                names == str_views(keys@),
                names == binding_keys(*self),
                forall|j: int| 0 <= j < i ==> names[j] != key@,
            decreases keys@.len() - i,
        {
            if same_text(keys[i], key) {
                assert(names[i as int] == key@);
                assert(names.contains(key@));
                return true;
            }
            i = i + 1;
        }
        assert(!names.contains(key@));
        false
    }
}

fn single(key: &str) -> (r: KeyBinding)
    ensures
        binding_keys(r) == seq![key@],
{
    KeyBinding::Single(key.to_owned())
}

fn pair(a: &str, b: &str) -> (r: KeyBinding)
    ensures
        binding_keys(r) == seq![a@, b@],
{
    let mut ks: Vec<String> = Vec::new();
    ks.push(a.to_owned());
    ks.push(b.to_owned());
    let r = KeyBinding::Multiple(ks);
    assert(binding_keys(r) =~= seq![a@, b@]);
    r
}

impl Default for PlaybackConfig {
    /// A seek step of ten seconds.
    fn default() -> (r: PlaybackConfig)
        ensures
            r.seek_step == DEFAULT_SEEK_STEP,
    {
        PlaybackConfig { seek_step: DEFAULT_SEEK_STEP }
    }
}

impl Default for KeyConfig {
    /// Space plays and pauses; `n` or Right goes to the next track, `p` or
    /// Left to the previous; Shift with Right or Left seeks; `S` toggles
    /// shuffle, `r` cycles repeat, `t` shows the track list, `/` searches,
    /// `?` or `h` shows help, and `q` or Esc quits.
    fn default() -> (r: KeyConfig)
        ensures
            binding_keys(r.play_pause) == seq!["Space"@],
            binding_keys(r.next) == seq!["n"@, "Right"@],
            binding_keys(r.prev) == seq!["p"@, "Left"@],
            binding_keys(r.seek_forward) == seq!["Shift+Right"@],
            binding_keys(r.seek_back) == seq!["Shift+Left"@],
            binding_keys(r.shuffle) == seq!["S"@],
            binding_keys(r.repeat) == seq!["r"@],
            binding_keys(r.track_list) == seq!["t"@],
            binding_keys(r.search) == seq!["/"@],
            binding_keys(r.help) == seq!["?"@, "h"@],
            binding_keys(r.quit) == seq!["q"@, "Esc"@],
    {
        KeyConfig {
            play_pause: single("Space"),
            next: pair("n", "Right"),
            prev: pair("p", "Left"),
            seek_forward: single("Shift+Right"),
            seek_back: single("Shift+Left"),
            shuffle: single("S"),
            repeat: single("r"),
            track_list: single("t"),
            search: single("/"),
            help: pair("?", "h"),
            quit: pair("q", "Esc"),
        }
    }
}

impl Default for Config {
    /// The default playback settings and key bindings.
    fn default() -> (r: Config)
        ensures
            r.playback.seek_step == DEFAULT_SEEK_STEP,
            binding_keys(r.keys.play_pause) == seq!["Space"@],
            binding_keys(r.keys.next) == seq!["n"@, "Right"@],
            binding_keys(r.keys.prev) == seq!["p"@, "Left"@],
            binding_keys(r.keys.seek_forward) == seq!["Shift+Right"@],
            binding_keys(r.keys.seek_back) == seq!["Shift+Left"@],
            binding_keys(r.keys.shuffle) == seq!["S"@],
            binding_keys(r.keys.repeat) == seq!["r"@],
            binding_keys(r.keys.track_list) == seq!["t"@],
            binding_keys(r.keys.search) == seq!["/"@],
            binding_keys(r.keys.help) == seq!["?"@, "h"@],
            binding_keys(r.keys.quit) == seq!["q"@, "Esc"@],
    {
        Config { playback: PlaybackConfig::default(), keys: KeyConfig::default() }
    }
}

impl Config {
    /// Puts the settings within their bounds: a seek step of zero becomes
    /// the default step. Nothing else changes.
    pub fn validate(&mut self)
        ensures
            final(self).playback.seek_step == (if old(self).playback.seek_step == 0 {
                DEFAULT_SEEK_STEP
            } else {
                old(self).playback.seek_step
            }),
            final(self).keys == old(self).keys,
    {
        if self.playback.seek_step == 0 {
            self.playback.seek_step = DEFAULT_SEEK_STEP;
        }
    }
}

} // verus!
