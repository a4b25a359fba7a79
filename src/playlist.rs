//! Playlist navigation: the ordered track collection, the current position,
//! the shuffle order and the repeat policy.

use vstd::prelude::*;
use vstd::seq_lib::*;
use crate::track::Track;
use crate::scan::{sort_by_path, sorted_by_path};
use crate::m3u::{m3u_text, m3u_text_spec};

verus! {

/// Whether navigation walks the tracks in a shuffled order.
#[derive(Debug, Clone, Copy, PartialEq, Eq, Structural)]
pub enum ShuffleState {
    Off,
    On,
}

impl ShuffleState {
    /// Flips the state: Off becomes On and On becomes Off.
    pub fn toggle(&mut self)
        ensures
            *final(self) == (match *old(self) {
                ShuffleState::Off => ShuffleState::On,
                ShuffleState::On => ShuffleState::Off,
            }),
    {
        *self = match *self {
            ShuffleState::Off => ShuffleState::On,
            ShuffleState::On => ShuffleState::Off,
        };
    }
}

/// What `next` and `previous` do at the ends of the playlist.
#[derive(Debug, Clone, Copy, PartialEq, Eq, Structural)]
pub enum RepeatMode {
    Off,
    All,
    Single,
}

/// The repeat mode that follows `m` in the cycle Off, All, Single, Off.
pub open spec fn next_repeat_mode(m: RepeatMode) -> RepeatMode {
    match m {
        RepeatMode::Off => RepeatMode::All,
        RepeatMode::All => RepeatMode::Single,
        RepeatMode::Single => RepeatMode::Off,
    }
}

impl RepeatMode {
    /// Moves to the next mode of the cycle Off, All, Single, Off.
    pub fn cycle(&mut self)
        ensures
            *final(self) == next_repeat_mode(*old(self)),
    {
        *self = match *self {
            RepeatMode::Off => RepeatMode::All,
            RepeatMode::All => RepeatMode::Single,
            RepeatMode::Single => RepeatMode::Off,
        };
    }
}


/// Why a playlist could not be made.
#[derive(Debug)]
pub enum PlaylistError {
    /// Reading the playlist's source failed; the text says why.
    IoError(String),
    /// The source held no track.
    EmptyPlaylist,
}

/// The positions `0..n`, in order.
pub open spec fn index_range(n: nat) -> Seq<usize> {
    Seq::new(n, |i: int| i as usize)
}

/// Whether `order` is a permutation of `0..n`: sorting it gives exactly `0..n`.
pub open spec fn is_permutation_of_range(order: Seq<usize>, n: nat) -> bool {
    order.to_multiset() == index_range(n).to_multiset()
}

/// The position and the answer that `next` gives at `index` of `n` tracks.
pub open spec fn next_step(index: nat, n: nat, repeat: RepeatMode) -> (nat, bool) {
    if n == 0 {
        (index, false)
    } else {
        match repeat {
            RepeatMode::Single => (index, true),
            RepeatMode::All => ((index + 1) % n, true),
            RepeatMode::Off => if index + 1 < n {
                ((index + 1) as nat, true)
            } else {
                (index, false)
            },
        }
    }
}

/// The position and the answer that `previous` gives at `index` of `n` tracks.
pub open spec fn previous_step(index: nat, n: nat, repeat: RepeatMode) -> (nat, bool) {
    if n == 0 {
        (index, false)
    } else if index > 0 {
        ((index - 1) as nat, true)
    } else if repeat == RepeatMode::All {
        ((n - 1) as nat, true)
    } else {
        (index, false)
    }
}

/// The position reached from `index` by `k` calls of `next`.
pub open spec fn next_steps(index: nat, n: nat, repeat: RepeatMode, k: nat) -> nat
    decreases k,
{
    if k == 0 {
        index
    } else {
        next_steps(next_step(index, n, repeat).0, n, repeat, (k - 1) as nat)
    }
}

/// Relies on rand's `SliceRandom::shuffle` with the thread-local generator:
/// it only swaps elements, so the same values stay, in some order.
#[verifier::external_body]
fn shuffle_in_place(v: &mut Vec<usize>)
    ensures
        final(v)@.to_multiset() == old(v)@.to_multiset(),
        final(v)@.len() == old(v)@.len(),
{
    rand::seq::SliceRandom::shuffle(v.as_mut_slice(), &mut rand::thread_rng());
}

/// An ordered collection of tracks with a current position, a shuffle order
/// and a repeat policy.
///
/// The position is logical: with shuffle on it indexes the shuffle order,
/// whose entries index the tracks; with shuffle off it indexes the tracks.
pub struct Playlist {
    tracks: Vec<Track>,
    current_index: usize,
    shuffle: ShuffleState,
    shuffle_indices: Vec<usize>,
    repeat: RepeatMode,
}

impl Playlist {
    /// The tracks, in the order they were loaded.
    pub closed spec fn tracks_spec(&self) -> Seq<Track> {
        self.tracks@
    }

    /// The logical position of the current track.
    pub closed spec fn index_spec(&self) -> nat {
        self.current_index as nat
    }

    /// Whether shuffle is on.
    pub closed spec fn shuffle_spec(&self) -> ShuffleState {
        self.shuffle
    }

    /// The shuffle order: logical position to track index. Meaningful while
    /// shuffle is on.
    pub closed spec fn order_spec(&self) -> Seq<usize> {
        self.shuffle_indices@
    }

    /// The repeat mode.
    pub closed spec fn repeat_spec(&self) -> RepeatMode {
        self.repeat
    }

    /// The number of tracks.
    pub open spec fn len_spec(&self) -> nat {
        self.tracks_spec().len()
    }

    /// The playlist's invariant: the tracks can be counted in a `usize`, the
    /// position lies among them (it is zero while there are none), and with
    /// shuffle on the shuffle order is a permutation of the track indices.
    pub open spec fn wf(&self) -> bool {
        &&& self.len_spec() <= usize::MAX
        &&& (self.len_spec() == 0 ==> self.index_spec() == 0)
        &&& (self.len_spec() > 0 ==> self.index_spec() < self.len_spec())
        &&& (self.shuffle_spec() == ShuffleState::On ==> is_permutation_of_range(
            self.order_spec(),
            self.len_spec(),
        ))
    }

    /// The index into the tracks of the current track.
    pub open spec fn actual_index_spec(&self) -> int {
        if self.shuffle_spec() == ShuffleState::On {
            self.order_spec()[self.index_spec() as int] as int
        } else {
            self.index_spec() as int
        }
    }

    /// The current track; none when there are no tracks.
    pub open spec fn current_track_spec(&self) -> Option<Track> {
        if self.len_spec() == 0 {
            None
        } else {
            Some(self.tracks_spec()[self.actual_index_spec()])
        }
    }

    /// An empty playlist.
    pub fn new() -> (r: Playlist)
        ensures
            r.wf(),
            r.tracks_spec().len() == 0,
            r.index_spec() == 0,
            r.shuffle_spec() == ShuffleState::Off,
            r.repeat_spec() == RepeatMode::Off,
    {
        Playlist {
            tracks: Vec::new(),
            current_index: 0,
            shuffle: ShuffleState::Off,
            shuffle_indices: Vec::new(),
            repeat: RepeatMode::Off,
        }
    }

    /// A playlist of `tracks` in the given order, positioned on the first,
    /// with shuffle and repeat off; an error when there is no track.
    pub fn from_tracks(tracks: Vec<Track>) -> (r: Result<Playlist, PlaylistError>)
        ensures
            tracks@.len() == 0 <==> r is Err,
            r matches Err(e) ==> e is EmptyPlaylist,
            r matches Ok(p) ==> {
                &&& p.wf()
                &&& p.tracks_spec() == tracks@
                &&& p.index_spec() == 0
                &&& p.shuffle_spec() == ShuffleState::Off
                &&& p.repeat_spec() == RepeatMode::Off
                &&& p.current_track_spec() == Some(tracks@[0])
            },
    {
        if tracks.len() == 0 {
            return Err(PlaylistError::EmptyPlaylist);
        }
        Ok(
            Playlist {
                tracks,
                current_index: 0,
                shuffle: ShuffleState::Off,
                shuffle_indices: Vec::new(),
                repeat: RepeatMode::Off,
            },
        )
    }
}


impl Playlist {
    /// A playlist of the audio files that a directory scan found, in path
    /// order, positioned on the first; an error when none was found.
    pub fn from_directory(found: Vec<Track>) -> (r: Result<Playlist, PlaylistError>)
        ensures
            found@.len() == 0 <==> r is Err,
            r matches Err(e) ==> e is EmptyPlaylist,
            r matches Ok(p) ==> {
                &&& p.wf()
                &&& p.tracks_spec().to_multiset() == found@.to_multiset()
                &&& sorted_by_path(p.tracks_spec())
                &&& p.index_spec() == 0
                &&& p.shuffle_spec() == ShuffleState::Off
                &&& p.repeat_spec() == RepeatMode::Off
                &&& p.current_track_spec() == Some(p.tracks_spec()[0])
            },
    {
        proof {
            to_multiset_len(found@);
        }
        let sorted = sort_by_path(found);
        proof {
            to_multiset_len(sorted@);
        }
        Playlist::from_tracks(sorted)
    }

    /// A playlist of the tracks of a playlist file, in file order,
    /// positioned on the first; an error when the file listed none.
    pub fn from_m3u(tracks: Vec<Track>) -> (r: Result<Playlist, PlaylistError>)
        ensures
            tracks@.len() == 0 <==> r is Err,
            r matches Err(e) ==> e is EmptyPlaylist,
            r matches Ok(p) ==> {
                &&& p.wf()
                &&& p.tracks_spec() == tracks@
                &&& p.index_spec() == 0
                &&& p.shuffle_spec() == ShuffleState::Off
                &&& p.repeat_spec() == RepeatMode::Off
                &&& p.current_track_spec() == Some(tracks@[0])
            },
    {
        Playlist::from_tracks(tracks)
    }

    /// The text of a playlist file that lists the tracks in load order.
    pub fn save_m3u(&self) -> (r: String)
        ensures
            r@ == m3u_text_spec(self.tracks_spec()),
    {
        m3u_text(self.tracks.as_slice())
    }
}

impl Playlist {
    /// The current track: the one at the current position, read through the
    /// shuffle order while shuffle is on; none when there are no tracks.
    pub fn current_track(&self) -> (r: Option<&Track>)
        requires
            self.wf(),
        ensures
            r is None <==> self.len_spec() == 0,
            r matches Some(t) ==> self.current_track_spec() == Some(*t),
    {
        if self.tracks.len() == 0 {
            return None;
        }
        let index = self.get_actual_index(self.current_index);
        Some(&self.tracks[index])
    }

    /// The track index that a logical position stands for.
    fn get_actual_index(&self, index: usize) -> (r: usize)
        requires
            self.wf(),
            index < self.len_spec(),
        ensures
            r == (if self.shuffle_spec() == ShuffleState::On {
                self.order_spec()[index as int]
            } else {
                index
            }),
            r < self.len_spec(),
    {
        if self.shuffle == ShuffleState::On {
            proof {
                lemma_permutation_in_range(self.shuffle_indices@, self.tracks@.len());
            }
            self.shuffle_indices[index]
        } else {
            index
        }
    }

    /// The logical position of the current track.
    pub fn current_index(&self) -> (r: usize)
        ensures
            r == self.index_spec(),
    {
        self.current_index
    }

    /// Advances by the repeat mode. Returns whether the caller should load
    /// the track now current: under Single the position stays and the answer
    /// is true; under All the position wraps from the last to the first;
    /// under Off the last position stays and the answer is false.
    pub fn next(&mut self) -> (r: bool)
        requires
            old(self).wf(),
        ensures
            final(self).wf(),
            (final(self).index_spec(), r) == next_step(
                old(self).index_spec(),
                old(self).len_spec(),
                old(self).repeat_spec(),
            ),
            final(self).tracks_spec() == old(self).tracks_spec(),
            final(self).shuffle_spec() == old(self).shuffle_spec(),
            final(self).order_spec() == old(self).order_spec(),
            final(self).repeat_spec() == old(self).repeat_spec(),
    {
        let n = self.tracks.len();
        if n == 0 {
            return false;
        }
        match self.repeat {
            RepeatMode::Single => true,
            RepeatMode::All => {
                self.current_index = (self.current_index + 1) % n;
                true
            },
            RepeatMode::Off => {
                if self.current_index + 1 < n {
                    self.current_index = self.current_index + 1;
                    true
                } else {
                    false
                }
            },
        }
    }

    /// Steps back one position. At the first position it wraps to the last
    /// under All repeat and otherwise stays and answers false.
    pub fn previous(&mut self) -> (r: bool)
        requires
            old(self).wf(),
        ensures
            final(self).wf(),
            (final(self).index_spec(), r) == previous_step(
                old(self).index_spec(),
                old(self).len_spec(),
                old(self).repeat_spec(),
            ),
            final(self).tracks_spec() == old(self).tracks_spec(),
            final(self).shuffle_spec() == old(self).shuffle_spec(),
            final(self).order_spec() == old(self).order_spec(),
            final(self).repeat_spec() == old(self).repeat_spec(),
    {
        let n = self.tracks.len();
        if n == 0 {
            return false;
        }
        if self.current_index > 0 {
            self.current_index = self.current_index - 1;
            true
        } else if self.repeat == RepeatMode::All {
            self.current_index = n - 1;
            true
        } else {
            false
        }
    }

    /// Moves to the logical position `index` if it lies among the tracks, and
    /// says whether it did.
    pub fn goto(&mut self, index: usize) -> (r: bool)
        requires
            old(self).wf(),
        ensures
            final(self).wf(),
            r == (index < old(self).len_spec()),
            final(self).index_spec() == (if r {
                index as nat
            } else {
                old(self).index_spec()
            }),
            final(self).tracks_spec() == old(self).tracks_spec(),
            final(self).shuffle_spec() == old(self).shuffle_spec(),
            final(self).order_spec() == old(self).order_spec(),
            final(self).repeat_spec() == old(self).repeat_spec(),
    {
        if index < self.tracks.len() {
            self.current_index = index;
            true
        } else {
            false
        }
    }

    /// Moves to the next repeat mode of the cycle Off, All, Single, Off.
    pub fn cycle_repeat(&mut self)
        requires
            old(self).wf(),
        ensures
            final(self).wf(),
            final(self).repeat_spec() == next_repeat_mode(old(self).repeat_spec()),
            final(self).tracks_spec() == old(self).tracks_spec(),
            final(self).index_spec() == old(self).index_spec(),
            final(self).shuffle_spec() == old(self).shuffle_spec(),
            final(self).order_spec() == old(self).order_spec(),
    {
        self.repeat.cycle();
    }

    /// Whether shuffle is on.
    pub fn shuffle_state(&self) -> (r: ShuffleState)
        ensures
            r == self.shuffle_spec(),
    {
        self.shuffle
    }

    /// The repeat mode.
    pub fn repeat_mode(&self) -> (r: RepeatMode)
        ensures
            r == self.repeat_spec(),
    {
        self.repeat
    }

    /// The number of tracks.
    pub fn len(&self) -> (r: usize)
        ensures
            r == self.len_spec(),
    {
        self.tracks.len()
    }

    /// Whether there is no track.
    pub fn is_empty(&self) -> (r: bool)
        ensures
            r == (self.len_spec() == 0),
    {
        self.tracks.len() == 0
    }

    /// The tracks, in the order they were loaded.
    pub fn tracks(&self) -> (r: &[Track])
        ensures
            r@ == self.tracks_spec(),
    {
        self.tracks.as_slice()
    }
}

impl Playlist {
    /// Draws a new shuffle order and turns it so that track `keep` comes
    /// first; the position goes to that first entry.
    fn regenerate_shuffle(&mut self, keep: usize)
        requires
            old(self).len_spec() > 0 ==> keep < old(self).len_spec(),
        ensures
            final(self).tracks_spec() == old(self).tracks_spec(),
            final(self).shuffle_spec() == old(self).shuffle_spec(),
            final(self).repeat_spec() == old(self).repeat_spec(),
            final(self).index_spec() == 0,
            is_permutation_of_range(final(self).order_spec(), final(self).len_spec()),
            final(self).len_spec() > 0 ==> final(self).order_spec()[0] == keep,
    {
        let n = self.tracks.len();
        let mut indices: Vec<usize> = Vec::new();
        let mut i: usize = 0;
        while i < n
            invariant
                i <= n,
                indices@ == index_range(i as nat),
            decreases n - i,
        {
            indices.push(i);
            i = i + 1;
            assert(indices@ =~= index_range(i as nat));
        }
        let ghost range = indices@;
        shuffle_in_place(&mut indices);
        if n > 0 {
            proof {
                broadcast use to_multiset_contains;

                assert(range[keep as int] == keep);
                assert(range.contains(keep));
                assert(range.to_multiset().count(keep) > 0);
                assert(indices@.contains(keep));
            }
            let mut pos: usize = 0;
            while pos < indices.len() && indices[pos] != keep
                invariant
                    pos <= indices.len(),
                    indices@.contains(keep),
                    forall|j: int| 0 <= j < pos ==> indices@[j] != keep,
                decreases indices.len() - pos,
            {
                pos = pos + 1;
            }
            proof {
                if pos == indices.len() {
                    let j = choose|j: int| 0 <= j < indices@.len() && indices@[j] == keep;
                    assert(indices@[j] != keep);
                }
            }
            let ghost before = indices@;
            let first = indices[0];
            indices.set(0, keep);
            indices.set(pos, first);
            proof {
                broadcast use to_multiset_update;

                let mid = before.update(0, keep);
                assert(mid.to_multiset() == before.to_multiset().insert(keep).remove(first));
                assert(indices@ == mid.update(pos as int, first));
                assert(mid[pos as int] == keep) by {
                    if pos != 0 {
                        assert(mid[pos as int] == before[pos as int]);
                    }
                }
                assert(indices@.to_multiset() == mid.to_multiset().insert(first).remove(keep));
                assert(indices@.to_multiset() =~= before.to_multiset());
                if pos != 0 {
                    assert(indices@[0] == keep);
                }
            }
        }
        self.shuffle_indices = indices;
        self.current_index = 0;
    }

    /// Turns shuffle on or off; the current track stays current either way.
    ///
    /// Turning it on draws a new shuffle order that begins with the current
    /// track, and moves the position there. Turning it off moves the position
    /// to the current track's place among the tracks, so that navigation goes
    /// on in load order from the track that is playing.
    pub fn toggle_shuffle(&mut self)
        requires
            old(self).wf(),
        ensures
            final(self).wf(),
            final(self).shuffle_spec() != old(self).shuffle_spec(),
            final(self).current_track_spec() == old(self).current_track_spec(),
            final(self).shuffle_spec() == ShuffleState::On ==> final(self).index_spec() == 0,
            final(self).shuffle_spec() == ShuffleState::Off ==> final(self).index_spec()
                == (if old(self).len_spec() > 0 {
                old(self).actual_index_spec()
            } else {
                0
            }),
            final(self).tracks_spec() == old(self).tracks_spec(),
            final(self).repeat_spec() == old(self).repeat_spec(),
            final(self).shuffle_spec() == ShuffleState::On ==> is_permutation_of_range(
                final(self).order_spec(),
                final(self).len_spec(),
            ),
    {
        let n = self.tracks.len();
        let keep = if n > 0 {
            self.get_actual_index(self.current_index)
        } else {
            0
        };
        self.shuffle.toggle();
        if self.shuffle == ShuffleState::On {
            self.regenerate_shuffle(keep);
        } else {
            self.current_index = keep;
        }
    }

    /// Appends a track. With shuffle on a new shuffle order is drawn that
    /// begins with the current track; the current track stays current.
    ///
    /// A playlist of `usize::MAX` tracks, which no `Vec` of tracks can reach
    /// (std's `Vec::push` refuses past `isize::MAX` bytes), is left as it is.
    pub fn add_track(&mut self, track: Track)
        requires
            old(self).wf(),
        ensures
            final(self).wf(),
            final(self).shuffle_spec() == old(self).shuffle_spec(),
            final(self).repeat_spec() == old(self).repeat_spec(),
            final(self).shuffle_spec() == ShuffleState::On ==> is_permutation_of_range(
                final(self).order_spec(),
                final(self).len_spec(),
            ),
            old(self).len_spec() == usize::MAX ==> *final(self) == *old(self),
            old(self).len_spec() < usize::MAX ==> {
                &&& final(self).tracks_spec() == old(self).tracks_spec().push(track)
                &&& final(self).current_track_spec() == (if old(self).len_spec() > 0 {
                    old(self).current_track_spec()
                } else {
                    Some(track)
                })
                &&& final(self).index_spec() == (if old(self).shuffle_spec()
                    == ShuffleState::On {
                    0
                } else {
                    old(self).index_spec()
                })
            },
    {
        let n = self.tracks.len();
        if n == usize::MAX {
            return;
        }
        let keep = if n > 0 {
            self.get_actual_index(self.current_index)
        } else {
            0
        };
        self.tracks.push(track);
        if self.shuffle == ShuffleState::On {
            self.regenerate_shuffle(keep);
        }
    }
}

impl Default for Playlist {
    /// An empty playlist.
    fn default() -> (r: Playlist)
        ensures
            r.wf(),
            r.tracks_spec().len() == 0,
            r.index_spec() == 0,
            r.shuffle_spec() == ShuffleState::Off,
            r.repeat_spec() == RepeatMode::Off,
    {
        Playlist::new()
    }
}

/// Each entry of a permutation of `0..n` is below `n`, and there are `n`.
proof fn lemma_permutation_in_range(order: Seq<usize>, n: nat)
    requires
        is_permutation_of_range(order, n),
    ensures
        order.len() == n,
        forall|i: int| 0 <= i < order.len() ==> (#[trigger] order[i]) < n,
{
    broadcast use to_multiset_len, to_multiset_contains;

    let range = index_range(n);
    assert(order.len() == order.to_multiset().len());
    assert(range.len() == range.to_multiset().len());
    assert forall|i: int| 0 <= i < order.len() implies (#[trigger] order[i]) < n by {
        let x = order[i];
        assert(order.contains(x));
        assert(order.to_multiset().count(x) > 0);
        assert(range.to_multiset().count(x) > 0);
        assert(range.contains(x));
        let j = choose|j: int| 0 <= j < range.len() && range[j] == x;
        assert(range[j] == j as usize);
    }
}


/// From position `i`, `k` calls of `next` under Off repeat that stay short of
/// the last position each move one step.
proof fn lemma_next_steps_off(i: nat, n: nat, k: nat)
    requires
        i + k < n,
    ensures
        next_steps(i, n, RepeatMode::Off, k) == i + k,
    decreases k,
{
    if k > 0 {
        lemma_next_steps_off(i + 1, n, (k - 1) as nat);
    }
}

/// Under Off repeat, `len - 1` calls of `next` from the first position reach
/// the last one, and the call after that answers false and stays there.
pub proof fn lemma_next_walks_to_last(n: nat)
    requires
        n > 0,
    ensures
        next_steps(0, n, RepeatMode::Off, (n - 1) as nat) == n - 1,
        next_step((n - 1) as nat, n, RepeatMode::Off) == ((n - 1) as nat, false),
{
    lemma_next_steps_off(0, n, (n - 1) as nat);
}

/// Under All repeat, `next` from the last position answers true and goes to
/// the first, and `previous` from the first answers true and goes to the last.
pub proof fn lemma_repeat_all_wraps(n: nat)
    requires
        n > 0,
    ensures
        next_step((n - 1) as nat, n, RepeatMode::All) == (0nat, true),
        previous_step(0, n, RepeatMode::All) == ((n - 1) as nat, true),
{
    assert(((n - 1) + 1) % (n as int) == 0) by {
        vstd::arithmetic::div_mod::lemma_mod_self_0(n as int);
    }
}

/// Under Single repeat, `next` on a playlist that has tracks always answers
/// true and never moves the position.
pub proof fn lemma_repeat_single_stays(index: nat, n: nat)
    requires
        n > 0,
    ensures
        next_step(index, n, RepeatMode::Single) == (index, true),
{
}

/// While shuffle is on, the shuffle order of a well-formed playlist is a
/// bijection on the track indices: it has one entry per track, each entry is a
/// track index, no two entries are equal, and sorting it gives exactly `0..len`.
pub proof fn lemma_shuffle_order_is_bijection(p: &Playlist)
    requires
        p.wf(),
        p.shuffle_spec() == ShuffleState::On,
    ensures
        p.order_spec().len() == p.len_spec(),
        forall|i: int| 0 <= i < p.len_spec() ==> (#[trigger] p.order_spec()[i]) < p.len_spec(),
        p.order_spec().no_duplicates(),
        is_permutation_of_range(p.order_spec(), p.len_spec()),
{
    let order = p.order_spec();
    let n = p.len_spec();
    let range = index_range(n);
    lemma_permutation_in_range(order, n);
    assert forall|i: int, j: int|
        0 <= i < range.len() && 0 <= j < range.len() && i != j implies range[i] != range[j] by {
        assert(range[i] == i as usize && range[j] == j as usize);
    }
    range.lemma_multiset_has_no_duplicates();
    order.lemma_multiset_has_no_duplicates_conv();
}

} // verus!
