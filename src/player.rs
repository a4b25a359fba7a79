//! Playback position and transport decisions. The audio output itself lies
//! outside the library: the caller performs what these functions decide, and
//! hands in readings of a monotonic clock, in milliseconds.

use vstd::prelude::*;

verus! {

/// What the player is doing.
#[derive(Debug, Clone, Copy, PartialEq, Eq, Structural)]
pub enum PlaybackState {
    Playing,
    Paused,
    Stopped,
}

/// Why the audio output could not do what was asked; the text says more.
#[derive(Debug)]
pub enum PlayerError {
    /// The audio device or the terminal could not be set up.
    InitializationError(String),
    /// The track's file could not be opened.
    FileError(String),
    /// The track's audio could not be decoded.
    DecodeError(String),
}

/// `a + b`, or `u64::MAX` where that does not fit.
pub open spec fn sat_add(a: int, b: int) -> nat {
    if a + b > u64::MAX {
        u64::MAX as nat
    } else {
        (a + b) as nat
    }
}

/// The time run since `start` at clock reading `now`; none before `start`.
pub open spec fn since(start: nat, now: nat) -> nat {
    if now >= start {
        (now - start) as nat
    } else {
        0
    }
}

/// The position at clock reading `now` of a tracker that holds `elapsed`
/// from before its last pause, and has run since `start` if it runs.
pub open spec fn position_at(elapsed: nat, start: Option<nat>, now: nat) -> nat {
    match start {
        Some(s) => sat_add(elapsed as int, since(s, now) as int),
        None => elapsed,
    }
}

/// The tracker after `on_play` at `now`: (elapsed, start).
pub open spec fn play_spec(elapsed: nat, start: Option<nat>, now: nat) -> (nat, Option<nat>) {
    match start {
        Some(s) => (elapsed, Some(s)),
        None => (elapsed, Some(now)),
    }
}

/// The tracker after `on_pause` at `now`: (elapsed, start).
pub open spec fn pause_spec(elapsed: nat, start: Option<nat>, now: nat) -> (nat, Option<nat>) {
    (position_at(elapsed, start, now), None)
}

/// The tracker after `on_seek` to `target` at `now`: (elapsed, start).
pub open spec fn seek_spec(elapsed: nat, start: Option<nat>, target: nat, now: nat) -> (
    nat,
    Option<nat>,
) {
    (target, if start is Some { Some(now) } else { None })
}

/// The playing time of the loaded track, measured from clock readings,
/// since the audio output reports no position of its own.
///
/// It holds the time played before the last pause and, while playback runs,
/// the clock reading at which it started running.
#[derive(Debug, Clone, Copy)]
pub struct PositionTracker {
    elapsed_before_pause: u64,
    playback_start: Option<u64>,
}

impl PositionTracker {
    /// The time played before the last pause, in milliseconds.
    pub closed spec fn elapsed_spec(&self) -> nat {
        self.elapsed_before_pause as nat
    }

    /// The clock reading at which playback started running, while it runs.
    pub closed spec fn start_spec(&self) -> Option<nat> {
        match self.playback_start {
            Some(s) => Some(s as nat),
            None => None,
        }
    }

    /// A tracker at zero, not running.
    pub fn new() -> (r: PositionTracker)
        ensures
            r.elapsed_spec() == 0,
            r.start_spec() is None,
    {
        PositionTracker { elapsed_before_pause: 0, playback_start: None }
    }

    /// A track was loaded: back to zero, not running.
    pub fn on_load(&mut self)
        ensures
            final(self).elapsed_spec() == 0,
            final(self).start_spec() is None,
    {
        self.elapsed_before_pause = 0;
        self.playback_start = None;
    }

    /// Playback runs from clock reading `now`; nothing changes if it ran already.
    pub fn on_play(&mut self, now: u64)
        ensures
            (final(self).elapsed_spec(), final(self).start_spec()) == play_spec(
                old(self).elapsed_spec(),
                old(self).start_spec(),
                now as nat,
            ),
    {
        if self.playback_start.is_none() {
            self.playback_start = Some(now);
        }
    }

    /// Playback pauses at clock reading `now`: the time run since it started
    /// is added to the time played; nothing changes if it was paused.
    pub fn on_pause(&mut self, now: u64)
        ensures
            (final(self).elapsed_spec(), final(self).start_spec()) == pause_spec(
                old(self).elapsed_spec(),
                old(self).start_spec(),
                now as nat,
            ),
    {
        self.elapsed_before_pause = self.position(now);
        self.playback_start = None;
    }

    /// The position moved to `target` at clock reading `now`: a running
    /// tracker runs on from there, a paused one stays there.
    pub fn on_seek(&mut self, target: u64, now: u64)
        ensures
            (final(self).elapsed_spec(), final(self).start_spec()) == seek_spec(
                old(self).elapsed_spec(),
                old(self).start_spec(),
                target as nat,
                now as nat,
            ),
    {
        self.elapsed_before_pause = target;
        if self.playback_start.is_some() {
            self.playback_start = Some(now);
        }
    }

    /// The position at clock reading `now`, in milliseconds.
    pub fn position(&self, now: u64) -> (r: u64)
        ensures
            r == position_at(self.elapsed_spec(), self.start_spec(), now as nat),
    {
        match self.playback_start {
            Some(start) => self.elapsed_before_pause.saturating_add(now.saturating_sub(start)),
            None => self.elapsed_before_pause,
        }
    }

    /// Whether playback runs.
    pub fn is_running(&self) -> (r: bool)
        ensures
            r == self.start_spec() is Some,
    {
        self.playback_start.is_some()
    }
}

/// Loading a track, playing from `t0`, pausing `d` later: the position is
/// `d`, at any later reading; seeking to `t` then, while paused, makes the
/// position exactly `t`, at any reading.
pub proof fn lemma_play_pause_seek(t0: nat, d: nat, t: nat, later: nat, seek_at: nat, after: nat)
    requires
        t0 + d <= u64::MAX,
    ensures
        ({
            let played = play_spec(0, None, t0);
            let paused = pause_spec(played.0, played.1, t0 + d);
            let sought = seek_spec(paused.0, paused.1, t, seek_at);
            &&& position_at(paused.0, paused.1, later) == d
            &&& position_at(sought.0, sought.1, after) == t
        }),
{
}

/// The player's transport state: what it is doing, the length of the loaded
/// track, and the position tracker. A track is loaded exactly while the
/// state is not Stopped, and the tracker runs exactly while it is Playing.
pub struct Transport {
    state: PlaybackState,
    duration_ms: u64,
    tracker: PositionTracker,
}

impl Transport {
    /// What the player is doing.
    pub closed spec fn state_spec(&self) -> PlaybackState {
        self.state
    }

    /// The length of the loaded track, in milliseconds; zero when none is.
    pub closed spec fn duration_spec(&self) -> nat {
        self.duration_ms as nat
    }

    /// The position tracker of the loaded track.
    pub closed spec fn tracker_spec(&self) -> PositionTracker {
        self.tracker
    }

    /// The position at clock reading `now`.
    pub open spec fn position_spec(&self, now: nat) -> nat {
        position_at(self.tracker_spec().elapsed_spec(), self.tracker_spec().start_spec(), now)
    }

    /// The transport's invariant: the tracker runs exactly while playing, and
    /// the track's length fits in a `u64`.
    pub open spec fn wf(&self) -> bool {
        &&& (self.tracker_spec().start_spec() is Some <==> self.state_spec()
            == PlaybackState::Playing)
        &&& self.duration_spec() <= u64::MAX
    }

    /// Nothing loaded, stopped, at zero.
    pub fn new() -> (r: Transport)
        ensures
            r.wf(),
            r.state_spec() == PlaybackState::Stopped,
            r.duration_spec() == 0,
            r.tracker_spec().elapsed_spec() == 0,
    {
        Transport { state: PlaybackState::Stopped, duration_ms: 0, tracker: PositionTracker::new() }
    }

    /// A track of `duration_ms` milliseconds was loaded: paused at zero.
    pub fn on_load(&mut self, duration_ms: u64)
        ensures
            final(self).wf(),
            final(self).state_spec() == PlaybackState::Paused,
            final(self).duration_spec() == duration_ms,
            final(self).tracker_spec().elapsed_spec() == 0,
    {
        self.state = PlaybackState::Paused;
        self.duration_ms = duration_ms;
        self.tracker.on_load();
    }

    /// Starts or resumes playback at clock reading `now`. Returns whether the
    /// audio output is to start playing: only where a track is loaded and
    /// not already playing.
    pub fn play(&mut self, now: u64) -> (r: bool)
        requires
            old(self).wf(),
        ensures
            final(self).wf(),
            r == (old(self).state_spec() == PlaybackState::Paused),
            final(self).state_spec() == (if r {
                PlaybackState::Playing
            } else {
                old(self).state_spec()
            }),
            r ==> final(self).tracker_spec().start_spec() == Some(now as nat),
            final(self).tracker_spec().elapsed_spec() == old(self).tracker_spec().elapsed_spec(),
            !r ==> final(self).tracker_spec() == old(self).tracker_spec(),
            final(self).duration_spec() == old(self).duration_spec(),
    {
        if self.state == PlaybackState::Paused {
            self.state = PlaybackState::Playing;
            self.tracker.on_play(now);
            true
        } else {
            false
        }
    }

    /// Pauses playback at clock reading `now`. Returns whether the audio
    /// output is to pause: only where it was playing.
    pub fn pause(&mut self, now: u64) -> (r: bool)
        requires
            old(self).wf(),
        ensures
            final(self).wf(),
            r == (old(self).state_spec() == PlaybackState::Playing),
            final(self).state_spec() == (if r {
                PlaybackState::Paused
            } else {
                old(self).state_spec()
            }),
            r ==> final(self).tracker_spec().elapsed_spec() == old(self).position_spec(now as nat),
            final(self).position_spec(now as nat) == old(self).position_spec(now as nat),
            !r ==> final(self).tracker_spec() == old(self).tracker_spec(),
            final(self).duration_spec() == old(self).duration_spec(),
    {
        if self.state == PlaybackState::Playing {
            self.state = PlaybackState::Paused;
            self.tracker.on_pause(now);
            true
        } else {
            false
        }
    }

    /// Pauses when playing, else plays. Returns whether the audio output is
    /// to play (`Some(true)`), to pause (`Some(false)`), or nothing.
    pub fn toggle_play_pause(&mut self, now: u64) -> (r: Option<bool>)
        requires
            old(self).wf(),
        ensures
            final(self).wf(),
            r == (match old(self).state_spec() {
                PlaybackState::Playing => Some(false),
                PlaybackState::Paused => Some(true),
                PlaybackState::Stopped => None,
            }),
            final(self).state_spec() == (match old(self).state_spec() {
                PlaybackState::Playing => PlaybackState::Paused,
                PlaybackState::Paused => PlaybackState::Playing,
                PlaybackState::Stopped => PlaybackState::Stopped,
            }),
            final(self).duration_spec() == old(self).duration_spec(),
            final(self).position_spec(now as nat) == old(self).position_spec(now as nat),
            old(self).state_spec() == PlaybackState::Playing
                ==> final(self).tracker_spec().elapsed_spec() == old(self).position_spec(now as nat),
            old(self).state_spec() == PlaybackState::Paused
                ==> final(self).tracker_spec().start_spec() == Some(now as nat),
            old(self).state_spec() == PlaybackState::Stopped ==> final(self).tracker_spec()
                == old(self).tracker_spec(),
    {
        if self.state == PlaybackState::Playing {
            self.pause(now);
            Some(false)
        } else if self.play(now) {
            Some(true)
        } else {
            None
        }
    }

    /// Unloads the track: stopped, at zero.
    pub fn stop(&mut self)
        ensures
            final(self).wf(),
            final(self).state_spec() == PlaybackState::Stopped,
            final(self).duration_spec() == 0,
            final(self).tracker_spec().elapsed_spec() == 0,
    {
        self.state = PlaybackState::Stopped;
        self.duration_ms = 0;
        self.tracker.on_load();
    }

    /// Where a seek `step_ms` forward at clock reading `now` goes: none where
    /// it would reach the end of the track (or no track is loaded).
    pub fn seek_forward_target(&self, step_ms: u64, now: u64) -> (r: Option<u64>)
        ensures
            ({
                let target = sat_add(self.position_spec(now as nat) as int, step_ms as int);
                r == if target >= self.duration_spec() {
                    None::<u64>
                } else {
                    Some(target as u64)
                }
            }),
    {
        let target = self.tracker.position(now).saturating_add(step_ms);
        if target >= self.duration_ms {
            None
        } else {
            Some(target)
        }
    }

    /// Where a seek `step_ms` back at clock reading `now` goes, not before
    /// the start; none where no track is loaded.
    pub fn seek_backward_target(&self, step_ms: u64, now: u64) -> (r: Option<u64>)
        ensures
            r == if self.state_spec() == PlaybackState::Stopped {
                None::<u64>
            } else {
                Some(
                    (if self.position_spec(now as nat) >= step_ms {
                        self.position_spec(now as nat) - step_ms
                    } else {
                        0
                    }) as u64,
                )
            },
    {
        if self.state == PlaybackState::Stopped {
            None
        } else {
            Some(self.tracker.position(now).saturating_sub(step_ms))
        }
    }

    /// The audio output was moved to `target` at clock reading `now`: the
    /// position is `target`, and playback runs on from there if it ran.
    pub fn on_seek(&mut self, target: u64, now: u64)
        requires
            old(self).wf(),
        ensures
            final(self).wf(),
            final(self).state_spec() == old(self).state_spec(),
            final(self).duration_spec() == old(self).duration_spec(),
            final(self).position_spec(now as nat) == target,
            final(self).tracker_spec().elapsed_spec() == target,
            final(self).tracker_spec().start_spec() == (if old(self).state_spec()
                == PlaybackState::Playing {
                Some(now as nat)
            } else {
                None
            }),
            forall|later: nat| #[trigger]
                final(self).position_spec(later) == if old(self).state_spec()
                    == PlaybackState::Playing {
                    sat_add(target as int, since(now as nat, later) as int)
                } else {
                    target as nat
                },
    {
        self.tracker.on_seek(target, now);
    }

    /// The position at clock reading `now`, in milliseconds.
    pub fn current_position(&self, now: u64) -> (r: u64)
        ensures
            r == self.position_spec(now as nat),
    {
        self.tracker.position(now)
    }

    /// The length of the loaded track, in milliseconds.
    pub fn duration(&self) -> (r: u64)
        ensures
            r == self.duration_spec(),
    {
        self.duration_ms
    }

    /// What the player is doing.
    pub fn state(&self) -> (r: PlaybackState)
        ensures
            r == self.state_spec(),
    {
        self.state
    }

    /// Whether a track is loaded.
    pub fn has_track(&self) -> (r: bool)
        ensures
            r == (self.state_spec() != PlaybackState::Stopped),
    {
        self.state != PlaybackState::Stopped
    }
}

} // verus!
