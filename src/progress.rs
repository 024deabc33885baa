use vstd::prelude::*;
use crate::glyph::{check_glyph, check_lead, cross_glyph, cross_lead, cross_mark};
use crate::style::{
    blue, blue_of, clear_line, clear_line_seq, cursor_hide, cursor_up_one, green, green_of, hide_seq,
    padded_three, red, red_of, repeated, run_of, three_digits, up_one_seq,
};

verus! {

/// Columns kept for the brackets, the tip and the percentage beside the bar.
pub const GUTTER: u16 = 9;

/// Columns kept beside the bar of a failure frame, whose cross mark shows two columns wide.
pub const FAILURE_GUTTER: u16 = 10;

/// Progress is shown as a percentage: anything larger counts as complete.
pub const FULL: usize = 100;

/// The progress value as drawn: capped at a hundred.
pub open spec fn shown_progress(p: nat) -> nat {
    if p > 100 { 100 } else { p }
}

/// How many columns of a bar `bar_max` columns wide are filled at progress `p`.
pub open spec fn filled_len(bar_max: nat, p: nat) -> nat {
    bar_max * shown_progress(p) / 100
}

/// The width left for the bar on a terminal `cols` columns wide.
pub open spec fn bar_max_len(cols: nat, gutter: nat) -> nat {
    (cols - gutter) as nat
}

/// `| NNN%]`: the percentage that closes a bar.
pub open spec fn percent_tail(p: nat) -> Seq<char> {
    seq!['|', ' '] + three_digits(shown_progress(p)) + seq!['%', ']']
}

/// The bar while the work runs: the filled part, a tip, the empty part and the percentage.
pub open spec fn running_bar(bar_max: nat, p: nat) -> Seq<char> {
    seq!['['] + run_of('=', filled_len(bar_max, p)) + seq!['>'] + run_of(
        ' ',
        (bar_max - filled_len(bar_max, p)) as nat,
    ) + percent_tail(p)
}

/// The bar once progress reached a hundred: filled through the tip.
pub open spec fn complete_bar(bar_max: nat) -> Seq<char> {
    seq!['['] + run_of('=', bar_max) + seq!['='] + percent_tail(100)
}

/// The bar of a failed task: the cross mark stands where the tip would.
pub open spec fn failed_bar(bar_max: nat, p: nat) -> Seq<char> {
    seq!['['] + run_of('=', filled_len(bar_max, p)) + cross_glyph() + run_of(
        ' ',
        (bar_max - filled_len(bar_max, p)) as nat,
    ) + percent_tail(p)
}

/// The bar drawn at progress `p`.
pub open spec fn bar_for(bar_max: nat, p: nat) -> Seq<char> {
    if p >= 100 {
        complete_bar(bar_max)
    } else {
        running_bar(bar_max, p)
    }
}

/// Erase the bar's line and the label's line above it, and hide the cursor.
pub open spec fn rewind() -> Seq<char> {
    clear_line_seq() + up_one_seq() + seq!['\r'] + clear_line_seq() + hide_seq()
}

/// One frame of the animation: the label on its own line, and the bar in blue below it.
pub open spec fn progress_frame_text(label: Seq<char>, cols: nat, p: nat) -> Seq<char> {
    rewind() + label + seq!['\n'] + blue_of(bar_for(bar_max_len(cols, GUTTER as nat), p))
}

/// The closing line of a task that succeeded: the check mark and the label in green.
pub open spec fn progress_success_text(label: Seq<char>) -> Seq<char> {
    rewind() + check_lead_seq() + green_of(label) + seq!['\n']
}

/// The closing lines of a task that failed: the label and the bar at the last progress, in red.
pub open spec fn progress_failure_text(label: Seq<char>, cols: nat, p: nat) -> Seq<char> {
    rewind() + cross_glyph() + seq![' '] + red_of(label) + seq!['\n'] + red_of(
        failed_bar(bar_max_len(cols, FAILURE_GUTTER as nat), p),
    ) + seq!['\n']
}

/// The check mark and two spaces that open a success line.
pub open spec fn check_lead_seq() -> Seq<char> {
    check_glyph() + seq![' ', ' ']
}

/// The number of filled columns of a bar `bar_max` wide at progress `p`:
/// `bar_max * min(p, 100) / 100`, rounded down.
pub fn filled_length(bar_max: u16, p: usize) -> (r: usize)
    ensures
        r == filled_len(bar_max as nat, p as nat),
        r <= bar_max,
{
    let shown = if p > FULL { FULL } else { p };
    assert(bar_max as nat * shown as nat <= bar_max as nat * 100) by (nonlinear_arith)
        requires
            shown <= 100,
    ;
    let r = (bar_max as usize) * shown / 100;
    assert(r <= bar_max) by (nonlinear_arith)
        requires
            r == (bar_max as nat) * (shown as nat) / 100,
            shown <= 100,
    ;
    r
}

/// The erasing prefix shared by every frame.
fn rewind_text() -> (r: String)
    ensures
        r@ == rewind(),
{
    let mut r = clear_line();
    r.append(cursor_up_one().as_str());
    r.append("\r");
    r.append(clear_line().as_str());
    r.append(cursor_hide().as_str());
    proof {
        reveal_strlit("\r");
    }
    assert(r@ =~= rewind());
    r
}

/// `| NNN%]` for progress `p`.
fn percent_text(p: usize) -> (r: String)
    ensures
        r@ == percent_tail(p as nat),
{
    let shown = if p > FULL { FULL } else { p };
    let mut r = String::from_str("| ");
    r.append(padded_three(shown).as_str());
    r.append("%]");
    proof {
        reveal_strlit("| ");
        reveal_strlit("%]");
    }
    assert(r@ =~= percent_tail(p as nat));
    r
}

/// The bar itself, without color, at progress `p`, `bar_max` columns wide.
pub fn bar_text(bar_max: u16, p: usize) -> (r: String)
    ensures
        r@ == bar_for(bar_max as nat, p as nat),
{
    proof {
        reveal_strlit("[");
        reveal_strlit("=");
        reveal_strlit(">");
        reveal_strlit(" ");
    }
    let mut r = String::from_str("[");
    if p >= FULL {
        r.append(repeated("=", bar_max as usize).as_str());
        r.append("=");
        r.append(percent_text(p).as_str());
        assert(r@ =~= complete_bar(bar_max as nat));
    } else {
        let filled = filled_length(bar_max, p);
        r.append(repeated("=", filled).as_str());
        r.append(">");
        r.append(repeated(" ", bar_max as usize - filled).as_str());
        r.append(percent_text(p).as_str());
        assert(r@ =~= running_bar(bar_max as nat, p as nat));
    }
    r
}

/// One frame of the progress animation on a terminal `cols` columns wide, and whether the
/// animation goes on: it stops by itself once progress reaches a hundred.
pub fn progress_frame(label: &str, cols: u16, p: usize) -> (r: (String, bool))
    requires
        cols >= GUTTER,
    ensures
        r.0@ == progress_frame_text(label@, cols as nat, p as nat),
        r.1 == (p < 100),
{
    let mut r = rewind_text();
    r.append(label);
    r.append("\n");
    r.append(blue(bar_text(cols - GUTTER, p).as_str()).as_str());
    proof {
        reveal_strlit("\n");
    }
    assert(r@ =~= progress_frame_text(label@, cols as nat, p as nat));
    (r, p < FULL)
}

/// The line that replaces the bar once the task succeeded.
pub fn progress_success(label: &str) -> (r: String)
    ensures
        r@ == progress_success_text(label@),
{
    let mut r = rewind_text();
    r.append(check_lead());
    r.append(green(label).as_str());
    r.append("\n");
    proof {
        reveal_strlit("\n");
    }
    assert(r@ =~= progress_success_text(label@));
    r
}

/// The lines that replace the bar once the task failed, at the progress read last.
pub fn progress_failure(label: &str, cols: u16, p: usize) -> (r: String)
    requires
        cols >= FAILURE_GUTTER,
    ensures
        r@ == progress_failure_text(label@, cols as nat, p as nat),
{
    proof {
        reveal_strlit("[");
        reveal_strlit("=");
        reveal_strlit(" ");
        reveal_strlit("\n");
    }
    let bar_max = cols - FAILURE_GUTTER;
    let filled = filled_length(bar_max, p);
    let mut bar = String::from_str("[");
    bar.append(repeated("=", filled).as_str());
    bar.append(cross_mark());
    bar.append(repeated(" ", bar_max as usize - filled).as_str());
    bar.append(percent_text(p).as_str());
    assert(bar@ =~= failed_bar(bar_max as nat, p as nat));
    let mut r = rewind_text();
    r.append(cross_lead());
    r.append(red(label).as_str());
    r.append("\n");
    r.append(red(bar.as_str()).as_str());
    r.append("\n");
    assert(r@ =~= progress_failure_text(label@, cols as nat, p as nat));
    r
}

/// Progress past a hundred is drawn exactly as a hundred: the same filled length, the whole
/// bar, the same frame and the same failure lines.
pub proof fn lemma_progress_capped(label: Seq<char>, cols: nat, bar_max: nat, p: nat)
    requires
        p > 100,
    ensures
        filled_len(bar_max, p) == filled_len(bar_max, 100),
        filled_len(bar_max, p) == bar_max,
        bar_for(bar_max, p) == bar_for(bar_max, 100),
        bar_for(bar_max, p) == complete_bar(bar_max),
        progress_frame_text(label, cols, p) == progress_frame_text(label, cols, 100),
        progress_failure_text(label, cols, p) == progress_failure_text(label, cols, 100),
{
    assert(bar_max * 100 / 100 == bar_max) by (nonlinear_arith);
}

/// The filled length never exceeds the bar, and grows with progress.
pub proof fn lemma_filled_monotone(bar_max: nat, p: nat, q: nat)
    requires
        p <= q,
    ensures
        filled_len(bar_max, p) <= filled_len(bar_max, q),
        filled_len(bar_max, q) <= bar_max,
{
    let a = shown_progress(p);
    let b = shown_progress(q);
    assert(bar_max * a <= bar_max * b) by (nonlinear_arith)
        requires
            a <= b,
    ;
    vstd::arithmetic::div_mod::lemma_div_is_ordered((bar_max * a) as int, (bar_max * b) as int, 100);
    assert(bar_max * b <= bar_max * 100) by (nonlinear_arith)
        requires
            b <= 100,
    ;
    vstd::arithmetic::div_mod::lemma_div_is_ordered((bar_max * b) as int, (bar_max * 100) as int, 100);
    assert(bar_max * 100 / 100 == bar_max) by (nonlinear_arith);
}

} // verus!
