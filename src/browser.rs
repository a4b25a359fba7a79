//! The track list screen: a search over the tracks' names, artists and
//! albums, and a selection among the tracks that match.

use vstd::prelude::*;
use crate::playlist::Playlist;
use crate::text::chars_of;
use crate::track::{display_name_spec, lower_of, lowercase, Track};

verus! {

/// Which screen the display shows.
#[derive(Debug, Clone, Copy, PartialEq, Eq, Structural)]
pub enum UIMode {
    Normal,
    TrackList,
    Help,
}

/// Whether `q` occurs in `t` as a run of consecutive characters.
pub open spec fn is_infix(q: Seq<char>, t: Seq<char>) -> bool {
    exists|i: int| 0 <= i && i + q.len() <= t.len() && #[trigger] t.subrange(i, i + q.len()) == q
}

/// Whether `q` occurs in `t`.
pub fn contains_text(t: &str, q: &str) -> (r: bool)
    ensures
        r == is_infix(q@, t@),
{
    let tc = chars_of(t);
    let qc = chars_of(q);
    if qc.len() == 0 {
        assert(t@.subrange(0int, 0int + q@.len()) =~= q@);
        return true;
    }
    if qc.len() > tc.len() {
        return false;
    }
    let last = tc.len() - qc.len();
    let mut i: usize = 0;
    while i <= last
        invariant
            tc@ == t@,
            qc@ == q@,
            last == tc.len() - qc.len(),
            0 < qc.len() <= tc.len(),
            i <= last + 1,
            forall|k: int| 0 <= k < i ==> #[trigger] t@.subrange(k, k + q@.len()) != q@,
        decreases last + 1 - i,
    {
        let mut j: usize = 0;
        while j < qc.len() && tc[i + j] == qc[j]
            invariant
                i <= last,
                last == tc.len() - qc.len(),
                j <= qc.len(),
                forall|m: int| 0 <= m < j ==> tc@[i + m] == qc@[m],
            decreases qc.len() - j,
        {
            j = j + 1;
        }
        if j == qc.len() {
            assert(t@.subrange(i as int, i + q@.len()) =~= q@);
            return true;
        }
        assert(t@.subrange(i as int, i + q@.len())[j as int] != q@[j as int]);
        i = i + 1;
    }
    assert forall|k: int| 0 <= k && k + q@.len() <= t@.len() implies #[trigger] t@.subrange(
        k,
        k + q@.len(),
    ) != q@ by {
        assert(k <= last);
    }
    false
}

/// Whether a search, in lower case, matches a track's name, artist or
/// album, each in lower case.
pub fn matches_folded(query: &str, name: &str, artist: &str, album: &str) -> (r: bool)
    ensures
        r == (is_infix(query@, name@) || is_infix(query@, artist@) || is_infix(query@, album@)),
{
    contains_text(name, query) || contains_text(artist, query) || contains_text(album, query)
}

/// The text of an optional string; empty for none.
pub open spec fn opt_text(o: Option<String>) -> Seq<char> {
    match o {
        Some(s) => s@,
        None => Seq::empty(),
    }
}

/// Whether the search `query`, in lower case, matches the track: it is
/// empty, or it occurs in the track's name, artist or album in lower case.
pub open spec fn track_matches_spec(t: Track, query: Seq<char>) -> bool {
    ||| query.len() == 0
    ||| is_infix(query, lower_of(display_name_spec(t)))
    ||| is_infix(query, lower_of(opt_text(t.artist)))
    ||| is_infix(query, lower_of(opt_text(t.album)))
}

/// Whether the search `query`, in lower case, matches the track.
pub fn track_matches(t: &Track, query: &str) -> (r: bool)
    ensures
        r == track_matches_spec(*t, query@),
{
    if query.unicode_len() == 0 {
        return true;
    }
    let name = lowercase(t.display_name().as_str());
    let artist = match &t.artist {
        Some(a) => lowercase(a.as_str()),
        None => lowercase(""),
    };
    let album = match &t.album {
        Some(a) => lowercase(a.as_str()),
        None => lowercase(""),
    };
    proof {
        reveal_strlit("");
        assert(opt_text(t.artist) == (match t.artist { Some(a) => a@, None => ""@ }));
        assert(opt_text(t.album) == (match t.album { Some(a) => a@, None => ""@ }));
    }
    matches_folded(query, name.as_str(), artist.as_str(), album.as_str())
}

/// The indices of the tracks that the search `query`, in lower case,
/// matches, in order.
pub open spec fn filter_spec(tracks: Seq<Track>, query: Seq<char>) -> Seq<usize>
    decreases tracks.len(),
{
    if tracks.len() == 0 {
        Seq::empty()
    } else {
        let prev = filter_spec(tracks.drop_last(), query);
        if track_matches_spec(tracks.last(), query) {
            prev.push((tracks.len() - 1) as usize)
        } else {
            prev
        }
    }
}

/// The first place of `x` in `s`, if any.
pub open spec fn position_of(s: Seq<usize>, x: usize) -> Option<nat>
    decreases s.len(),
{
    if s.len() == 0 {
        None
    } else if s[0] == x {
        Some(0)
    } else {
        match position_of(s.drop_first(), x) {
            Some(k) => Some(k + 1),
            None => None,
        }
    }
}

proof fn lemma_position_of(s: Seq<usize>, x: usize, k: int)
    requires
        0 <= k <= s.len(),
        forall|j: int| 0 <= j < k ==> s[j] != x,
    ensures
        k < s.len() && s[k] == x ==> position_of(s, x) == Some(k as nat),
        k == s.len() ==> position_of(s, x) is None,
    decreases k,
{
    if k > 0 {
        lemma_position_of(s.drop_first(), x, k - 1);
    }
}

/// Relies on std's `String::push`: appends the character.
#[verifier::external_body]
fn push_char(s: &mut String, c: char)
    ensures
        final(s)@ == old(s)@.push(c),
{
    s.push(c);
}

/// Removes and returns the last character, none where the text is empty.
fn pop_char(s: &mut String) -> (r: Option<char>)
    ensures
        old(s)@.len() == 0 ==> r is None && final(s)@ == old(s)@,
        old(s)@.len() > 0 ==> r == Some(old(s)@.last()) && final(s)@ == old(s)@.drop_last(),
{
    let n = s.as_str().unicode_len();
    if n == 0 {
        return None;
    }
    let c = s.as_str().get_char(n - 1);
    let rest = s.as_str().substring_char(0, n - 1).to_owned();
    proof {
        assert(rest@ =~= old(s)@.drop_last());
    }
    *s = rest;
    Some(c)
}

/// The state of the track list screen: which screen is shown, the search
/// typed so far, the indices of the tracks that match it, and which of
/// those is selected.
pub struct TrackBrowser {
    ui_mode: UIMode,
    search_query: String,
    filtered_indices: Vec<usize>,
    selected: usize,
}

impl TrackBrowser {
    /// The screen shown.
    pub closed spec fn mode_spec(&self) -> UIMode {
        self.ui_mode
    }

    /// The search typed so far.
    pub closed spec fn query_spec(&self) -> Seq<char> {
        self.search_query@
    }

    /// The indices of the matching tracks, in order.
    pub closed spec fn filtered_spec(&self) -> Seq<usize> {
        self.filtered_indices@
    }

    /// The place, among the matching tracks, of the selected one.
    pub closed spec fn selected_spec(&self) -> nat {
        self.selected as nat
    }

    /// The normal screen, with no search and nothing matched.
    pub fn new() -> (r: TrackBrowser)
        ensures
            r.mode_spec() == UIMode::Normal,
            r.query_spec().len() == 0,
            r.filtered_spec().len() == 0,
            r.selected_spec() == 0,
    {
        TrackBrowser {
            ui_mode: UIMode::Normal,
            search_query: String::new(),
            filtered_indices: Vec::new(),
            selected: 0,
        }
    }

    /// The screen shown.
    pub fn ui_mode(&self) -> (r: UIMode)
        ensures
            r == self.mode_spec(),
    {
        self.ui_mode
    }

    /// The search typed so far.
    pub fn search_query(&self) -> (r: &str)
        ensures
            r@ == self.query_spec(),
    {
        self.search_query.as_str()
    }

    /// The indices of the tracks that match the search, in order.
    pub fn filtered_indices(&self) -> (r: &[usize])
        ensures
            r@ == self.filtered_spec(),
    {
        self.filtered_indices.as_slice()
    }

    /// The place, among the matching tracks, of the selected one.
    pub fn selected(&self) -> (r: usize)
        ensures
            r == self.selected_spec(),
    {
        self.selected
    }

    /// Matches the search against the playlist's tracks, and goes back to
    /// the first match where the selection lies past the last.
    fn update_filtered_indices(&mut self, playlist: &Playlist)
        ensures
            final(self).filtered_spec() == filter_spec(
                playlist.tracks_spec(),
                lower_of(old(self).query_spec()),
            ),
            final(self).selected_spec() == (if old(self).selected_spec()
                < final(self).filtered_spec().len() {
                old(self).selected_spec()
            } else {
                0
            }),
            final(self).mode_spec() == old(self).mode_spec(),
            final(self).query_spec() == old(self).query_spec(),
    {
        let query = lowercase(self.search_query.as_str());
        let tracks = playlist.tracks();
        let mut found: Vec<usize> = Vec::new();
        let mut i: usize = 0;
        assert(tracks@.take(0) =~= Seq::<Track>::empty());
        while i < tracks.len()
            invariant
                i <= tracks@.len(),
                tracks@ == playlist.tracks_spec(),
                query@ == lower_of(self.search_query@),
                found@ == filter_spec(tracks@.take(i as int), query@),
            decreases tracks@.len() - i,
        {
            let m = track_matches(&tracks[i], query.as_str());
            proof {
                assert(tracks@.take(i + 1).drop_last() =~= tracks@.take(i as int));
                assert(tracks@.take(i + 1).last() == tracks@[i as int]);
            }
            if m {
                found.push(i);
            }
            i = i + 1;
        }
        assert(tracks@.take(i as int) =~= tracks@);
        self.filtered_indices = found;
        if self.selected >= self.filtered_indices.len() {
            self.selected = 0;
        }
    }

    /// Shows screen `mode`. Opening the track list matches the search
    /// against the tracks and selects the current position's track where it
    /// matches, else the first match; any other screen clears the search.
    pub fn set_ui_mode(&mut self, mode: UIMode, playlist: &Playlist)
        ensures
            final(self).mode_spec() == mode,
            mode == UIMode::TrackList ==> {
                &&& final(self).query_spec() == old(self).query_spec()
                &&& final(self).filtered_spec() == filter_spec(
                    playlist.tracks_spec(),
                    lower_of(old(self).query_spec()),
                )
                &&& final(self).selected_spec() == match position_of(
                    final(self).filtered_spec(),
                    playlist.index_spec() as usize,
                ) {
                    Some(k) => k,
                    None => 0,
                }
            },
            mode != UIMode::TrackList ==> {
                &&& final(self).query_spec().len() == 0
                &&& final(self).filtered_spec() == old(self).filtered_spec()
                &&& final(self).selected_spec() == old(self).selected_spec()
            },
    {
        self.ui_mode = mode;
        if mode == UIMode::TrackList {
            self.update_filtered_indices(playlist);
            let current = playlist.current_index();
            let mut k: usize = 0;
            while k < self.filtered_indices.len() && self.filtered_indices[k] != current
                invariant
                    k <= self.filtered_indices@.len(),
                    forall|j: int| 0 <= j < k ==> self.filtered_indices@[j] != current,
                decreases self.filtered_indices@.len() - k,
            {
                k = k + 1;
            }
            proof {
                lemma_position_of(self.filtered_indices@, current, k as int);
            }
            self.selected = if k < self.filtered_indices.len() {
                k
            } else {
                0
            };
        } else {
            self.search_query = String::new();
        }
    }

    /// On the track list, adds `c` to the search and matches again; the
    /// selection goes back to the first match where it lies past the last.
    pub fn search_input(&mut self, c: char, playlist: &Playlist)
        ensures
            old(self).mode_spec() == UIMode::TrackList ==> {
                &&& final(self).query_spec() == old(self).query_spec().push(c)
                &&& final(self).filtered_spec() == filter_spec(
                    playlist.tracks_spec(),
                    lower_of(old(self).query_spec().push(c)),
                )
                &&& final(self).selected_spec() == (if old(self).selected_spec()
                    < final(self).filtered_spec().len() {
                    old(self).selected_spec()
                } else {
                    0
                })
            },
            old(self).mode_spec() != UIMode::TrackList ==> *final(self) == *old(self),
            final(self).mode_spec() == old(self).mode_spec(),
    {
        if self.ui_mode == UIMode::TrackList {
            push_char(&mut self.search_query, c);
            self.update_filtered_indices(playlist);
        }
    }

    /// On the track list, removes the last character of the search, if
    /// any, and matches again; the selection goes back to the first match
    /// where it lies past the last.
    pub fn search_backspace(&mut self, playlist: &Playlist)
        ensures
            old(self).mode_spec() == UIMode::TrackList ==> {
                &&& final(self).query_spec() == (if old(self).query_spec().len() > 0 {
                    old(self).query_spec().drop_last()
                } else {
                    old(self).query_spec()
                })
                &&& final(self).filtered_spec() == filter_spec(
                    playlist.tracks_spec(),
                    lower_of(final(self).query_spec()),
                )
                &&& final(self).selected_spec() == (if old(self).selected_spec()
                    < final(self).filtered_spec().len() {
                    old(self).selected_spec()
                } else {
                    0
                })
            },
            old(self).mode_spec() != UIMode::TrackList ==> *final(self) == *old(self),
            final(self).mode_spec() == old(self).mode_spec(),
    {
        if self.ui_mode == UIMode::TrackList {
            pop_char(&mut self.search_query);
            self.update_filtered_indices(playlist);
        }
    }

    /// Clears the search.
    pub fn clear_search(&mut self)
        ensures
            final(self).query_spec().len() == 0,
            final(self).mode_spec() == old(self).mode_spec(),
            final(self).filtered_spec() == old(self).filtered_spec(),
            final(self).selected_spec() == old(self).selected_spec(),
    {
        self.search_query = String::new();
    }

    /// On the track list, selects the match above, if any.
    pub fn track_list_up(&mut self)
        ensures
            final(self).selected_spec() == (if old(self).mode_spec() == UIMode::TrackList
                && old(self).selected_spec() > 0 {
                (old(self).selected_spec() - 1) as nat
            } else {
                old(self).selected_spec()
            }),
            final(self).mode_spec() == old(self).mode_spec(),
            final(self).query_spec() == old(self).query_spec(),
            final(self).filtered_spec() == old(self).filtered_spec(),
    {
        if self.ui_mode == UIMode::TrackList && self.selected > 0 {
            self.selected = self.selected - 1;
        }
    }

    /// On the track list, selects the match below, if any.
    pub fn track_list_down(&mut self)
        ensures
            final(self).selected_spec() == (if old(self).mode_spec() == UIMode::TrackList
                && old(self).selected_spec() + 1 < old(self).filtered_spec().len() {
                old(self).selected_spec() + 1
            } else {
                old(self).selected_spec()
            }),
            final(self).mode_spec() == old(self).mode_spec(),
            final(self).query_spec() == old(self).query_spec(),
            final(self).filtered_spec() == old(self).filtered_spec(),
    {
        if self.ui_mode == UIMode::TrackList {
            let max_index = self.filtered_indices.len().saturating_sub(1);
            if self.selected < max_index {
                self.selected = self.selected + 1;
            }
        }
    }

    /// On the track list, moves the playlist to the selected match's index
    /// and says whether it did, in which case the caller loads the track.
    pub fn track_list_play_selected(&mut self, playlist: &mut Playlist) -> (r: bool)
        requires
            old(playlist).wf(),
        ensures
            final(playlist).wf(),
            r == (old(self).mode_spec() == UIMode::TrackList && old(self).selected_spec()
                < old(self).filtered_spec().len() && old(self).filtered_spec()[old(
                self,
            ).selected_spec() as int] < old(playlist).len_spec()),
            final(playlist).index_spec() == (if r {
                old(self).filtered_spec()[old(self).selected_spec() as int] as nat
            } else {
                old(playlist).index_spec()
            }),
            final(playlist).tracks_spec() == old(playlist).tracks_spec(),
            final(playlist).shuffle_spec() == old(playlist).shuffle_spec(),
            final(playlist).order_spec() == old(playlist).order_spec(),
            final(playlist).repeat_spec() == old(playlist).repeat_spec(),
            *final(self) == *old(self),
    {
        if self.ui_mode == UIMode::TrackList && self.selected < self.filtered_indices.len() {
            let index = self.filtered_indices[self.selected];
            playlist.goto(index)
        } else {
            false
        }
    }
}

} // verus!
