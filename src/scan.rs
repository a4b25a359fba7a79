//! The order of the tracks that a directory scan finds: by path, with the
//! components of a path compared one after the other, `/` being the only
//! separator. For normalised Unix paths, as a directory walk produces them
//! (no repeated or trailing separators, no `.` components), this is the order
//! of std's `Path::cmp`. It does not normalise, so `a//b` comes before `a/b`,
//! which `Path::cmp` holds equal; and it does not treat `\` as a separator,
//! so on Windows it can differ from `Path::cmp` (`a-b` before `a\b`).

use vstd::prelude::*;
use vstd::seq_lib::*;
use crate::text::chars_of;
use crate::track::Track;

verus! {

/// Whether character `x` comes strictly before `y` in path order: the
/// separator `/` comes before every other character, so that paths compare
/// component by component; other characters go by their code points.
pub open spec fn char_before(x: char, y: char) -> bool {
    if x == '/' {
        y != '/'
    } else {
        y != '/' && x < y
    }
}

/// Whether path `a` comes strictly before path `b`: lexicographic order on
/// characters by `char_before`, a proper prefix coming first.
pub open spec fn path_before(a: Seq<char>, b: Seq<char>) -> bool
    decreases a.len(),
{
    if a.len() == 0 {
        b.len() > 0
    } else if b.len() == 0 {
        false
    } else if a[0] != b[0] {
        char_before(a[0], b[0])
    } else {
        path_before(a.drop_first(), b.drop_first())
    }
}

/// Whether the tracks are in path order.
pub open spec fn sorted_by_path(s: Seq<Track>) -> bool {
    forall|i: int, j: int| 0 <= i < j < s.len() ==> !path_before(s[j].path@, s[i].path@)
}

proof fn lemma_path_before_transitive(a: Seq<char>, b: Seq<char>, c: Seq<char>)
    requires
        path_before(a, b),
        path_before(b, c),
    ensures
        path_before(a, c),
    decreases a.len(),
{
    if a.len() > 0 && b.len() > 0 && c.len() > 0 && a[0] == b[0] && b[0] == c[0] {
        lemma_path_before_transitive(a.drop_first(), b.drop_first(), c.drop_first());
    }
}

proof fn lemma_path_before_irreflexive(a: Seq<char>)
    ensures
        !path_before(a, a),
    decreases a.len(),
{
    if a.len() > 0 {
        lemma_path_before_irreflexive(a.drop_first());
    }
}

fn is_char_before(x: char, y: char) -> (r: bool)
    ensures
        r == char_before(x, y),
{
    if x == '/' {
        y != '/'
    } else {
        y != '/' && x < y
    }
}

/// Whether path `a` comes strictly before path `b`.
pub fn is_path_before(a: &str, b: &str) -> (r: bool)
    ensures
        r == path_before(a@, b@),
{
    let x = chars_of(a);
    let y = chars_of(b);
    let mut i: usize = 0;
    proof {
        assert(x@.skip(0) =~= x@);
        assert(y@.skip(0) =~= y@);
    }
    while i < x.len() && i < y.len() && x[i] == y[i]
        invariant
            i <= x.len(),
            i <= y.len(),
            path_before(a@, b@) == path_before(x@.skip(i as int), y@.skip(i as int)),
        decreases x.len() - i,
    {
        proof {
            assert(x@.skip(i as int).drop_first() =~= x@.skip(i + 1));
            assert(y@.skip(i as int).drop_first() =~= y@.skip(i + 1));
        }
        i = i + 1;
    }
    if i == x.len() {
        assert(x@.skip(i as int).len() == 0);
        assert(y@.skip(i as int).len() == y.len() - i);
        i < y.len()
    } else if i == y.len() {
        assert(y@.skip(i as int).len() == 0);
        assert(x@.skip(i as int).len() > 0);
        false
    } else {
        proof {
            assert(x@.skip(i as int)[0] == x@[i as int]);
            assert(y@.skip(i as int)[0] == y@[i as int]);
        }
        is_char_before(x[i], y[i])
    }
}

/// The tracks in path order: the same tracks, sorted by `path_before`.
pub fn sort_by_path(tracks: Vec<Track>) -> (r: Vec<Track>)
    ensures
        r@.to_multiset() == tracks@.to_multiset(),
        sorted_by_path(r@),
{
    broadcast use
        to_multiset_len,
        vstd::multiset::group_multiset_axioms,
        vstd::multiset::lemma_multiset_empty_len,
    ;

    let ghost all = tracks@;
    let mut rest = tracks;
    let mut out: Vec<Track> = Vec::new();
    proof {
        assert(out@.to_multiset().len() == 0);
        assert(rest@.to_multiset().add(out@.to_multiset()) =~= all.to_multiset());
    }
    while rest.len() > 0
        invariant
            rest@.to_multiset().add(out@.to_multiset()) == all.to_multiset(),
            sorted_by_path(out@),
        decreases rest.len(),
    {
        let ghost before_pop = rest@;
        let t = rest.pop().unwrap();
        proof {
            assert(before_pop =~= rest@.push(t));
        }
        let mut pos: usize = 0;
        while pos < out.len() && !is_path_before(t.path.as_str(), out[pos].path.as_str())
            invariant
                pos <= out.len(),
                forall|k: int| 0 <= k < pos ==> !path_before(t.path@, #[trigger] out@[k].path@),
            decreases out.len() - pos,
        {
            pos = pos + 1;
        }
        let ghost old_out = out@;
        out.insert(pos, t);
        proof {
            assert(out@ == old_out.insert(pos as int, t));
            to_multiset_build(rest@, t);
            to_multiset_insert(old_out, pos as int, t);
            assert(rest@.to_multiset().add(out@.to_multiset()) =~= before_pop.to_multiset().add(
                old_out.to_multiset(),
            ));
            assert forall|i: int, j: int| 0 <= i < j < out@.len() implies !path_before(
                out@[j].path@,
                out@[i].path@,
            ) by {
                if j == pos {
                    assert(out@[i] == old_out[i]);
                } else if i == pos {
                    let oj = old_out[j - 1];
                    assert(out@[j] == oj);
                    if pos < old_out.len() {
                        let op = old_out[pos as int];
                        assert(path_before(t.path@, op.path@));
                        if j - 1 > pos {
                            assert(!path_before(oj.path@, op.path@));
                        }
                        if path_before(oj.path@, t.path@) {
                            lemma_path_before_transitive(oj.path@, t.path@, op.path@);
                            if j - 1 == pos {
                                lemma_path_before_irreflexive(op.path@);
                            }
                        }
                    }
                } else {
                    let oi = if i < pos { i } else { i - 1 };
                    let oj = if j < pos { j } else { j - 1 };
                    assert(out@[i] == old_out[oi]);
                    assert(out@[j] == old_out[oj]);
                }
            }
        }
    }
    proof {
        assert(rest@.to_multiset().len() == 0);
        assert(out@.to_multiset() =~= all.to_multiset());
    }
    out
}

} // verus!
