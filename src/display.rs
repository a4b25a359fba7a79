//! Text that the terminal display shows: names cut to a width, and the
//! progress bar.

use vstd::prelude::*;
use vstd::string::StringExecFns;

verus! {

/// `text` where it has at most `max_width` characters; else its first
/// `max_width - 3` characters (none where `max_width < 3`) and `...`.
pub open spec fn truncate_spec(text: Seq<char>, max_width: nat) -> Seq<char> {
    if text.len() <= max_width {
        text
    } else {
        text.take(if max_width >= 3 { max_width - 3 } else { 0 }) + "..."@
    }
}

/// Cuts `text` to at most `max_width` characters, marking a cut with `...`.
pub fn truncate_text(text: &str, max_width: usize) -> (r: String)
    ensures
        r@ == truncate_spec(text@, max_width as nat),
{
    let n = text.unicode_len();
    if n <= max_width {
        text.to_owned()
    } else {
        let keep = max_width.saturating_sub(3);
        let mut r = text.substring_char(0, keep).to_owned();
        r.append("...");
        proof {
            assert(text@.subrange(0, keep as int) =~= text@.take(keep as int));
        }
        r
    }
}

/// The width left for text in an area `area_width` wide with `reserved`
/// columns taken, never less than ten.
pub open spec fn display_width(area_width: nat, reserved: nat) -> nat {
    let left: nat = if area_width >= reserved { (area_width - reserved) as nat } else { 0 };
    if left >= 10 { left } else { 10 }
}

/// Cuts `text` to the width left in an area `area_width` wide with
/// `reserved` columns taken, and at least ten characters.
pub fn truncate_for_display(text: &str, area_width: u16, reserved: u16) -> (r: String)
    ensures
        r@ == truncate_spec(text@, display_width(area_width as nat, reserved as nat)),
{
    let left = area_width.saturating_sub(reserved) as usize;
    let width = if left >= 10 { left } else { 10 };
    truncate_text(text, width)
}

/// The number of filled cells of a progress bar `width` cells wide, at
/// `pos_ms` of `dur_ms`: the fraction played (at most all) times the width,
/// rounded half up.
pub open spec fn filled_cells(pos_ms: nat, dur_ms: nat, width: nat) -> nat
    recommends
        dur_ms > 0,
{
    let p = if pos_ms <= dur_ms { pos_ms } else { dur_ms };
    (p * width + dur_ms / 2) / dur_ms
}

/// A run of `n` copies of `c`.
pub open spec fn repeat_char(c: char, n: nat) -> Seq<char> {
    Seq::new(n, |i: int| c)
}

/// The progress bar: filled cells `⣿`, then empty cells `⣀`, `width` in all;
/// empty where the width is zero or the track is shorter than a second.
pub open spec fn progress_bar_spec(pos_ms: nat, dur_ms: nat, width: nat) -> Seq<char> {
    if width == 0 || dur_ms < 1000 {
        Seq::empty()
    } else {
        let f = filled_cells(pos_ms, dur_ms, width);
        repeat_char('⣿', f) + repeat_char('⣀', (width - f) as nat)
    }
}

/// Appends `n` copies of the one-character text `cell`.
fn push_cells(out: &mut String, cell: &str, n: usize)
    requires
        cell@.len() == 1,
    ensures
        final(out)@ == old(out)@ + repeat_char(cell@[0], n as nat),
{
    let mut i: usize = 0;
    while i < n
        invariant
            cell@.len() == 1,
            i <= n,
            out@ == old(out)@ + repeat_char(cell@[0], i as nat),
        decreases n - i,
    {
        out.append(cell);
        i = i + 1;
        assert(out@ =~= old(out)@ + repeat_char(cell@[0], i as nat));
    }
}

/// The progress bar of a track `dur_ms` long at position `pos_ms`, `width`
/// cells wide.
pub fn render_progress_bar(pos_ms: u64, dur_ms: u64, width: usize) -> (r: String)
    ensures
        r@ == progress_bar_spec(pos_ms as nat, dur_ms as nat, width as nat),
{
    if width == 0 || dur_ms < 1000 {
        return String::new();
    }
    let p: u128 = if pos_ms <= dur_ms { pos_ms as u128 } else { dur_ms as u128 };
    let d: u128 = dur_ms as u128;
    let w: u128 = width as u128;
    assert(p * w <= d * w) by (nonlinear_arith)
        requires
            p <= d,
    ;
    assert(d * w <= 0xffff_ffff_ffff_ffffu128 * 0xffff_ffff_ffff_ffffu128) by (nonlinear_arith)
        requires
            d <= 0xffff_ffff_ffff_ffffu128,
            w <= 0xffff_ffff_ffff_ffffu128,
    ;
    let f = (p * w + d / 2) / d;
    assert(f <= w) by (nonlinear_arith)
        requires
            f as int == (p * w + d / 2) as int / d as int,
            p <= d,
            d > 0,
    ;
    let filled = f as usize;
    proof {
        reveal_strlit("⣿");
        reveal_strlit("⣀");
    }
    let mut out = String::new();
    push_cells(&mut out, "⣿", filled);
    push_cells(&mut out, "⣀", width - filled);
    assert(out@ =~= progress_bar_spec(pos_ms as nat, dur_ms as nat, width as nat));
    out
}

} // verus!
