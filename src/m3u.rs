//! The M3U playlist format: reading the entries of a playlist file, line by
//! line, and writing a playlist back out.

use vstd::prelude::*;
use crate::text::{chars_of, is_white_space, is_white_space_spec};
use crate::track::{file_name_of, path_file_name, Track};

verus! {

/// The value of a decimal digit.
pub open spec fn digit_of(c: char) -> Option<nat> {
    if c == '0' { Some(0) }
    else if c == '1' { Some(1) }
    else if c == '2' { Some(2) }
    else if c == '3' { Some(3) }
    else if c == '4' { Some(4) }
    else if c == '5' { Some(5) }
    else if c == '6' { Some(6) }
    else if c == '7' { Some(7) }
    else if c == '8' { Some(8) }
    else if c == '9' { Some(9) }
    else { None }
}

/// Whether every character is a decimal digit.
pub open spec fn all_digits(s: Seq<char>) -> bool {
    forall|i: int| 0 <= i < s.len() ==> (#[trigger] digit_of(s[i])) is Some
}

/// The value of a string of decimal digits.
pub open spec fn digits_value(s: Seq<char>) -> nat
    decreases s.len(),
{
    if s.len() == 0 {
        0
    } else {
        digits_value(s.drop_last()) * 10 + digit_of(s.last()).unwrap_or(0)
    }
}

/// What std's `str::parse::<i64>` accepts: an optional sign, then one or
/// more decimal digits, of a value that fits in an `i64`.
pub open spec fn parse_i64_spec(s: Seq<char>) -> Option<int> {
    let signed = s.len() > 0 && (s[0] == '-' || s[0] == '+');
    let body = if signed { s.drop_first() } else { s };
    let v = if signed && s[0] == '-' { -digits_value(body) } else { digits_value(body) as int };
    if body.len() == 0 || !all_digits(body) || v < i64::MIN || v > i64::MAX {
        None
    } else {
        Some(v)
    }
}

/// The duration, in seconds, that an `#EXTINF` line's duration field gives:
/// the integer it reads as, where that is not negative.
pub open spec fn extinf_seconds(s: Seq<char>) -> Option<nat> {
    match parse_i64_spec(s) {
        Some(v) => if v >= 0 { Some(v as nat) } else { None },
        None => None,
    }
}

fn digit(c: char) -> (r: Option<u64>)
    ensures
        match r {
            Some(d) => digit_of(c) == Some(d as nat),
            None => digit_of(c) is None,
        },
{
    if c == '0' { Some(0) }
    else if c == '1' { Some(1) }
    else if c == '2' { Some(2) }
    else if c == '3' { Some(3) }
    else if c == '4' { Some(4) }
    else if c == '5' { Some(5) }
    else if c == '6' { Some(6) }
    else if c == '7' { Some(7) }
    else if c == '8' { Some(8) }
    else if c == '9' { Some(9) }
    else { None }
}

proof fn lemma_digits_value_grows(s: Seq<char>, k: int)
    requires
        0 <= k <= s.len(),
    ensures
        digits_value(s) >= digits_value(s.take(k)),
    decreases s.len(),
{
    if k < s.len() {
        lemma_digits_value_grows(s.drop_last(), k);
        assert(s.drop_last().take(k) =~= s.take(k));
    } else {
        assert(s.take(k) =~= s);
    }
}

proof fn lemma_digits_value_step(s: Seq<char>, i: int)
    requires
        0 <= i < s.len(),
    ensures
        digits_value(s.take(i + 1)) == digits_value(s.take(i)) * 10 + digit_of(s[i]).unwrap_or(0),
{
    assert(s.take(i + 1).drop_last() =~= s.take(i));
}

/// The duration, in seconds, in the characters `cs[lo..hi]` of an `#EXTINF`
/// line; none where they do not read as an integer or it is negative.
pub fn parse_seconds(cs: &Vec<char>, lo: usize, hi: usize) -> (r: Option<u64>)
    requires
        lo <= hi <= cs@.len(),
    ensures
        match r {
            Some(v) => extinf_seconds(cs@.subrange(lo as int, hi as int)) == Some(v as nat),
            None => extinf_seconds(cs@.subrange(lo as int, hi as int)) is None,
        },
{
    let ghost s = cs@.subrange(lo as int, hi as int);
    if lo == hi {
        return None;
    }
    let negative = cs[lo] == '-';
    let start = if cs[lo] == '-' || cs[lo] == '+' { lo + 1 } else { lo };
    let ghost body = cs@.subrange(start as int, hi as int);
    assert(body =~= (if s[0] == '-' || s[0] == '+' { s.drop_first() } else { s }));
    if start == hi {
        return None;
    }
    let mut v: u64 = 0;
    let mut nonzero = false;
    let mut i: usize = start;
    while i < hi
        invariant
            start <= i <= hi <= cs@.len(),
            body == cs@.subrange(start as int, hi as int),
            s == cs@.subrange(lo as int, hi as int),
            s.len() > 0,
            negative == (s[0] == '-'),
            body == (if s[0] == '-' || s[0] == '+' { s.drop_first() } else { s }),
            body.len() > 0,
            all_digits(body.take(i - start)),
            nonzero == (digits_value(body.take(i - start)) > 0),
            !negative ==> v == digits_value(body.take(i - start)),
            v <= i64::MAX,
        decreases hi - i,
    {
        let ghost k = i - start;
        proof {
            lemma_digits_value_step(body, k);
            assert(body[k] == cs@[i as int]);
        }
        let d = match digit(cs[i]) {
            None => {
                proof {
                    assert(!all_digits(body));
                }
                return None;
            },
            Some(d) => d,
        };
        proof {
            let prev = digits_value(body.take(k));
            let next = digits_value(body.take(k + 1));
            assert(next > 0 <==> (prev > 0 || d > 0)) by (nonlinear_arith)
                requires
                    next == prev * 10 + d,
            ;
        }
        if d != 0 {
            nonzero = true;
        }
        if !negative {
            if v > (9223372036854775807u64 - d) / 10 {
                proof {
                    assert(digits_value(body.take(k + 1)) > i64::MAX) by (nonlinear_arith)
                        requires
                            digits_value(body.take(k + 1)) == v * 10 + d,
                            v > (9223372036854775807 - d) / 10,
                            d <= 9,
                    ;
                    lemma_digits_value_grows(body, k + 1);
                }
                return None;
            }
            v = v * 10 + d;
        }
        proof {
            assert(body.take(k + 1) =~= body.take(k).push(body[k]));
        }
        i = i + 1;
    }
    proof {
        assert(body.take(hi - start) =~= body);
    }
    if negative {
        if nonzero {
            None
        } else {
            Some(0)
        }
    } else {
        Some(v)
    }
}

/// The text without its leading white space.
pub open spec fn trim_start_spec(s: Seq<char>) -> Seq<char>
    decreases s.len(),
{
    if s.len() > 0 && is_white_space_spec(s[0]) {
        trim_start_spec(s.drop_first())
    } else {
        s
    }
}

/// The text without its trailing white space.
pub open spec fn trim_end_spec(s: Seq<char>) -> Seq<char>
    decreases s.len(),
{
    if s.len() > 0 && is_white_space_spec(s.last()) {
        trim_end_spec(s.drop_last())
    } else {
        s
    }
}

/// The text without white space at either end, as std's `str::trim` gives it.
pub open spec fn trim_spec(s: Seq<char>) -> Seq<char> {
    trim_end_spec(trim_start_spec(s))
}

/// Where the text without white space at either end begins and ends.
fn trim_bounds(cs: &Vec<char>) -> (r: (usize, usize))
    ensures
        r.0 <= r.1 <= cs@.len(),
        cs@.subrange(r.0 as int, r.1 as int) == trim_spec(cs@),
{
    let n = cs.len();
    let mut i: usize = 0;
    assert(cs@.subrange(0, n as int) =~= cs@);
    while i < n && is_white_space(cs[i])
        invariant
            i <= n == cs@.len(),
            trim_start_spec(cs@) == trim_start_spec(cs@.subrange(i as int, n as int)),
        decreases n - i,
    {
        assert(cs@.subrange(i as int, n as int).drop_first() =~= cs@.subrange(i + 1, n as int));
        i = i + 1;
    }
    let mut j: usize = n;
    while j > i && is_white_space(cs[j - 1])
        invariant
            i <= j <= n == cs@.len(),
            trim_spec(cs@) == trim_end_spec(cs@.subrange(i as int, j as int)),
        decreases j,
    {
        assert(cs@.subrange(i as int, j as int).drop_last() =~= cs@.subrange(i as int, j - 1));
        j = j - 1;
    }
    (i, j)
}

/// The index of the first `c` in the text, if any.
pub open spec fn first_index_of(s: Seq<char>, c: char) -> Option<nat>
    decreases s.len(),
{
    if s.len() == 0 {
        None
    } else if s[0] == c {
        Some(0)
    } else {
        match first_index_of(s.drop_first(), c) {
            Some(k) => Some(k + 1),
            None => None,
        }
    }
}

proof fn lemma_first_index_of(s: Seq<char>, c: char, k: int)
    requires
        0 <= k <= s.len(),
        forall|j: int| 0 <= j < k ==> s[j] != c,
    ensures
        k < s.len() && s[k] == c ==> first_index_of(s, c) == Some(k as nat),
        k == s.len() ==> first_index_of(s, c) is None,
    decreases k,
{
    if k > 0 {
        lemma_first_index_of(s.drop_first(), c, k - 1);
    }
}

/// The index of the first `c` among `cs[lo..hi]`, counted from `lo`.
fn find_char(cs: &Vec<char>, lo: usize, hi: usize, c: char) -> (r: Option<usize>)
    requires
        lo <= hi <= cs@.len(),
    ensures
        match r {
            Some(k) => lo + k < hi && first_index_of(cs@.subrange(lo as int, hi as int), c)
                == Some(k as nat),
            None => first_index_of(cs@.subrange(lo as int, hi as int), c) is None,
        },
{
    let ghost s = cs@.subrange(lo as int, hi as int);
    let mut i: usize = lo;
    while i < hi && cs[i] != c
        invariant
            lo <= i <= hi <= cs@.len(),
            s == cs@.subrange(lo as int, hi as int),
            forall|j: int| 0 <= j < i - lo ==> s[j] != c,
        decreases hi - i,
    {
        i = i + 1;
    }
    proof {
        lemma_first_index_of(s, c, i - lo);
    }
    if i < hi {
        Some(i - lo)
    } else {
        None
    }
}

/// The marker that opens an `#EXTINF` line.
pub open spec fn extinf_marker() -> Seq<char> {
    seq!['#', 'E', 'X', 'T', 'I', 'N', 'F', ':']
}

/// What an `#EXTINF` line with field text `fields` (after the marker), whose
/// first comma stands at `k`, sets for the next path: its duration and the
/// title after the comma, or nothing where the duration is not valid.
pub open spec fn extinf_pending(fields: Seq<char>, k: nat) -> Option<(nat, Seq<char>)> {
    match extinf_seconds(fields.take(k as int)) {
        Some(v) => Some((v, fields.skip(k as int + 1))),
        None => None,
    }
}

/// The joined path, as std's `Path::join` gives it on the platform: `rel`
/// taken relative to `dir`.
pub uninterp spec fn path_join(dir: Seq<char>, rel: Seq<char>) -> Seq<char>;

/// Relies on std's `Path::join`: `rel` taken relative to `dir`, by the
/// rules of the platform's paths.
#[verifier::external_body]
fn join_path(dir: &str, rel: &str) -> (r: String)
    ensures
        r@ == path_join(dir@, rel@),
{
    std::path::Path::new(dir).join(rel).to_string_lossy().into_owned()
}

/// The entries of a playlist file's lines: for each path line (not blank,
/// not starting with `#`, white space trimmed) its path taken relative to
/// `dir`, with the duration and title of the `#EXTINF` line met since the
/// previous path line, if any.
pub open spec fn m3u_entries_spec(
    lines: Seq<Seq<char>>,
    dir: Seq<char>,
    pending: Option<(nat, Seq<char>)>,
) -> Seq<(Seq<char>, Option<(nat, Seq<char>)>)>
    decreases lines.len(),
{
    if lines.len() == 0 {
        Seq::empty()
    } else {
        let t = trim_spec(lines[0]);
        let rest = lines.drop_first();
        if t.len() == 0 {
            m3u_entries_spec(rest, dir, pending)
        } else if t.len() >= 8 && t.take(8) == extinf_marker() {
            match first_index_of(t.skip(8), ',') {
                Some(k) => m3u_entries_spec(rest, dir, extinf_pending(t.skip(8), k)),
                None => m3u_entries_spec(rest, dir, pending),
            }
        } else if t[0] == '#' {
            m3u_entries_spec(rest, dir, pending)
        } else {
            seq![(path_join(dir, t), pending)] + m3u_entries_spec(rest, dir, None)
        }
    }
}

/// The duration and title that an `#EXTINF` line gives the path after it.
#[derive(Debug, Clone)]
pub struct ExtInf {
    /// The duration, in whole seconds.
    pub seconds: u64,
    pub title: String,
}

/// A path line of a playlist file, with what the `#EXTINF` line before it gave.
#[derive(Debug, Clone)]
pub struct M3uEntry {
    pub path: String,
    pub extinf: Option<ExtInf>,
}

/// An `#EXTINF` line's duration and title as values.
pub open spec fn extinf_view(e: Option<ExtInf>) -> Option<(nat, Seq<char>)> {
    match e {
        Some(x) => Some((x.seconds as nat, x.title@)),
        None => None,
    }
}

/// An entry's path and `#EXTINF` values.
pub open spec fn entry_view(e: M3uEntry) -> (Seq<char>, Option<(nat, Seq<char>)>) {
    (e.path@, extinf_view(e.extinf))
}

/// The values of each entry, in order.
pub open spec fn entries_view(es: Seq<M3uEntry>) -> Seq<(Seq<char>, Option<(nat, Seq<char>)>)> {
    es.map_values(|e: M3uEntry| entry_view(e))
}

/// The texts of the lines, in order.
pub open spec fn lines_view(lines: Seq<String>) -> Seq<Seq<char>> {
    lines.map_values(|l: String| l@)
}

/// Reads the entries of a playlist file from its lines; `dir` is the
/// directory that relative paths are taken from.
pub fn parse_m3u(lines: &Vec<String>, dir: &str) -> (r: Vec<M3uEntry>)
    ensures
        entries_view(r@) == m3u_entries_spec(lines_view(lines@), dir@, None),
{
    let ghost all = lines_view(lines@);
    let mut out: Vec<M3uEntry> = Vec::new();
    let mut pending: Option<ExtInf> = None;
    let mut i: usize = 0;
    assert(all.skip(0) =~= all);
    assert(entries_view(out@) =~= Seq::empty());
    while i < lines.len()
        invariant
            i <= lines.len(),
            all == lines_view(lines@),
            entries_view(out@) + m3u_entries_spec(all.skip(i as int), dir@, extinf_view(pending))
                == m3u_entries_spec(all, dir@, None),
        decreases lines.len() - i,
    {
        let ghost rest = all.skip(i as int);
        let ghost old_out = out@;
        assert(rest[0] == lines@[i as int]@);
        assert(rest.drop_first() =~= all.skip(i + 1));
        let line = lines[i].as_str();
        let cs = chars_of(line);
        let (lo, hi) = trim_bounds(&cs);
        let ghost t = cs@.subrange(lo as int, hi as int);
        if lo == hi {
            // A blank line.
        } else if hi - lo >= 8 && cs[lo] == '#' && cs[lo + 1] == 'E' && cs[lo + 2] == 'X'
            && cs[lo + 3] == 'T' && cs[lo + 4] == 'I' && cs[lo + 5] == 'N' && cs[lo + 6] == 'F'
            && cs[lo + 7] == ':' {
            assert(t.take(8) =~= extinf_marker());
            let ghost fields = t.skip(8);
            assert(fields =~= cs@.subrange(lo + 8, hi as int));
            match find_char(&cs, lo + 8, hi, ',') {
                Some(k) => {
                    let comma = lo + 8 + k;
                    let secs = parse_seconds(&cs, lo + 8, comma);
                    assert(cs@.subrange(lo + 8, comma as int) =~= fields.take(k as int));
                    pending = match secs {
                        Some(v) => {
                            let title = line.substring_char(comma + 1, hi).to_owned();
                            assert(title@ =~= fields.skip(k + 1));
                            Some(ExtInf { seconds: v, title })
                        },
                        None => None,
                    };
                },
                None => {},
            }
        } else if cs[lo] == '#' {
            proof {
                if t.len() >= 8 && t.take(8) == extinf_marker() {
                    assert(t.take(8)[1] == 'E');
                }
            }
        } else {
            proof {
                if t.len() >= 8 && t.take(8) == extinf_marker() {
                    assert(t.take(8)[0] == '#');
                }
            }
            let text = line.substring_char(lo, hi);
            let path = join_path(dir, text);
            let e = M3uEntry { path, extinf: pending };
            out.push(e);
            pending = None;
            assert(entries_view(out@) =~= entries_view(old_out).push(entry_view(e)));
            assert(entries_view(out@) + m3u_entries_spec(all.skip(i + 1), dir@, None)
                =~= entries_view(old_out) + (seq![entry_view(e)] + m3u_entries_spec(all.skip(i + 1), dir@, None)));
        }
        i = i + 1;
    }
    assert(all.skip(i as int) =~= Seq::empty());
    assert(entries_view(out@) + Seq::empty() =~= entries_view(out@));
    out
}

impl M3uEntry {
    /// The track of this entry, given the track read from its file: the
    /// path is the entry's, the artist and album those read, and the
    /// `#EXTINF` duration and title, where the entry has them, replace those
    /// read.
    pub fn into_track(self, read: Track) -> (r: Track)
        ensures
            r.path == self.path,
            r.artist == read.artist,
            r.album == read.album,
            r.title == (match self.extinf {
                Some(x) => Some(x.title),
                None => read.title,
            }),
            r.duration == (match self.extinf {
                Some(x) => Some(x.seconds),
                None => read.duration,
            }),
    {
        match self.extinf {
            Some(x) => Track {
                path: self.path,
                title: Some(x.title),
                artist: read.artist,
                album: read.album,
                duration: Some(x.seconds),
            },
            None => Track {
                path: self.path,
                title: read.title,
                artist: read.artist,
                album: read.album,
                duration: read.duration,
            },
        }
    }
}

/// The character of a decimal digit.
pub open spec fn digit_char(d: nat) -> char {
    if d == 0 { '0' }
    else if d == 1 { '1' }
    else if d == 2 { '2' }
    else if d == 3 { '3' }
    else if d == 4 { '4' }
    else if d == 5 { '5' }
    else if d == 6 { '6' }
    else if d == 7 { '7' }
    else if d == 8 { '8' }
    else { '9' }
}

/// The decimal digits of `n`, with no leading zero.
pub open spec fn digits_text(n: nat) -> Seq<char>
    decreases n,
{
    if n < 10 {
        seq![digit_char(n)]
    } else {
        digits_text(n / 10).push(digit_char(n % 10))
    }
}

fn digit_text(d: u64) -> (r: &'static str)
    requires
        d < 10,
    ensures
        r@ == seq![digit_char(d as nat)],
{
    proof {
        reveal_strlit("0");
        reveal_strlit("1");
        reveal_strlit("2");
        reveal_strlit("3");
        reveal_strlit("4");
        reveal_strlit("5");
        reveal_strlit("6");
        reveal_strlit("7");
        reveal_strlit("8");
        reveal_strlit("9");
    }
    let r = if d == 0 { "0" }
    else if d == 1 { "1" }
    else if d == 2 { "2" }
    else if d == 3 { "3" }
    else if d == 4 { "4" }
    else if d == 5 { "5" }
    else if d == 6 { "6" }
    else if d == 7 { "7" }
    else if d == 8 { "8" }
    else { "9" };
    assert(r@ =~= seq![digit_char(d as nat)]);
    r
}

/// Appends the decimal digits of `n`.
fn push_decimal(out: &mut String, n: u64)
    ensures
        final(out)@ == old(out)@ + digits_text(n as nat),
    decreases n,
{
    if n >= 10 {
        push_decimal(out, n / 10);
    }
    out.append(digit_text(n % 10));
    proof {
        if n >= 10 {
            assert(digits_text(n as nat) == digits_text((n / 10) as nat).push(digit_char((n % 10) as nat)));
        }
    }
}

/// The title that a track is written with: its title, else its file name,
/// else `Unknown`.
pub open spec fn m3u_title(t: Track) -> Seq<char> {
    match t.title {
        Some(x) => x@,
        None => match path_file_name(t.path@) {
            Some(n) => n,
            None => "Unknown"@,
        },
    }
}

/// The two lines that a track is written as: an `#EXTINF` line with its
/// duration in seconds (`-1` where unknown) and its title, then its path.
pub open spec fn m3u_block(t: Track) -> Seq<char> {
    "#EXTINF:"@ + match t.duration {
        Some(d) => digits_text(d as nat),
        None => "-1"@,
    } + ","@ + m3u_title(t) + "\n"@ + t.path@ + "\n"@
}

/// The blocks of the tracks, in order.
pub open spec fn m3u_body(ts: Seq<Track>) -> Seq<char>
    decreases ts.len(),
{
    if ts.len() == 0 {
        Seq::empty()
    } else {
        m3u_body(ts.drop_last()) + m3u_block(ts.last())
    }
}

/// The text of a playlist file of the tracks: the `#EXTM3U` header line,
/// then each track's block.
pub open spec fn m3u_text_spec(ts: Seq<Track>) -> Seq<char> {
    "#EXTM3U\n"@ + m3u_body(ts)
}

/// The text of a playlist file of the tracks.
pub fn m3u_text(tracks: &[Track]) -> (r: String)
    ensures
        r@ == m3u_text_spec(tracks@),
{
    let mut out = String::from_str("#EXTM3U\n");
    let mut i: usize = 0;
    assert(tracks@.take(0) =~= Seq::<Track>::empty());
    while i < tracks.len()
        invariant
            i <= tracks@.len(),
            out@ == "#EXTM3U\n"@ + m3u_body(tracks@.take(i as int)),
        decreases tracks@.len() - i,
    {
        let t = &tracks[i];
        let ghost before = out@;
        out.append("#EXTINF:");
        match t.duration {
            Some(d) => push_decimal(&mut out, d),
            None => out.append("-1"),
        }
        out.append(",");
        match &t.title {
            Some(x) => out.append(x.as_str()),
            None => match file_name_of(t.path.as_str()) {
                Some(n) => out.append(n.as_str()),
                None => out.append("Unknown"),
            },
        }
        out.append("\n");
        out.append(t.path.as_str());
        out.append("\n");
        proof {
            assert(tracks@.take(i + 1).drop_last() =~= tracks@.take(i as int));
            assert(tracks@.take(i + 1).last() == *t);
            assert(out@ =~= before + m3u_block(*t));
        }
        i = i + 1;
    }
    assert(tracks@.take(i as int) =~= tracks@);
    out
}

} // verus!
