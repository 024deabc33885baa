use vstd::prelude::*;
use crate::glyph::{check_glyph, check_lead, cross_glyph, cross_lead};
use crate::style::{blue, blue_of, clear_line, clear_line_seq, green, green_of, red, red_of};

verus! {

/// The number of glyphs in the spinner's cycle.
pub const SPIN_LEN: usize = 8;

/// The spinner's cycle of braille glyphs.
pub open spec fn spin_glyphs() -> Seq<char> {
    seq!['\u{2839}', '\u{28b8}', '\u{28f0}', '\u{28e4}', '\u{28c6}', '\u{2847}', '\u{280f}', '\u{281b}']
}

/// The glyph shown at position `i` of the cycle.
pub fn spin_glyph(i: usize) -> (r: &'static str)
    requires
        i < SPIN_LEN,
    ensures
        r@ == seq![spin_glyphs()[i as int]],
{
    proof {
        reveal_strlit("\u{2839}");
        reveal_strlit("\u{28b8}");
        reveal_strlit("\u{28f0}");
        reveal_strlit("\u{28e4}");
        reveal_strlit("\u{28c6}");
        reveal_strlit("\u{2847}");
        reveal_strlit("\u{280f}");
        reveal_strlit("\u{281b}");
    }
    let r = match i {
        0 => "\u{2839}",
        1 => "\u{28b8}",
        2 => "\u{28f0}",
        3 => "\u{28e4}",
        4 => "\u{28c6}",
        5 => "\u{2847}",
        6 => "\u{280f}",
        _ => "\u{281b}",
    };
    assert(r@ =~= seq![spin_glyphs()[i as int]]);
    r
}

/// The position that follows `i` in the cycle.
pub fn next_spin(i: usize) -> (r: usize)
    requires
        i < SPIN_LEN,
    ensures
        r == (i + 1) % (SPIN_LEN as int),
        r < SPIN_LEN,
{
    (i + 1) % SPIN_LEN
}

/// A frame of a spinner with fixed text: back to the start of the line, the glyph in blue, the text.
pub open spec fn static_frame_text(i: nat, text: Seq<char>) -> Seq<char> {
    seq!['\r'] + blue_of(seq![spin_glyphs()[i as int]]) + seq![' '] + text
}

/// A frame of a spinner whose text is read anew each time: the line is erased first.
pub open spec fn dynamic_frame_text(i: nat, text: Seq<char>) -> Seq<char> {
    clear_line_seq() + static_frame_text(i, text)
}

/// The closing line: the check mark and the text in green, or the cross mark and the text in red.
pub open spec fn closing_text(succeeded: bool, text: Seq<char>) -> Seq<char> {
    seq!['\r'] + (if succeeded {
        green_of(check_glyph() + seq![' ', ' '] + text)
    } else {
        red_of(cross_glyph() + seq![' '] + text)
    }) + seq!['\n']
}

/// The closing line of a spinner whose text is read anew: the line is erased first.
pub open spec fn dynamic_closing_text(succeeded: bool, text: Seq<char>) -> Seq<char> {
    clear_line_seq() + closing_text(succeeded, text)
}

/// One frame of a spinner with fixed text, at position `i` of the cycle.
pub fn static_frame(i: usize, text: &str) -> (r: String)
    requires
        i < SPIN_LEN,
    ensures
        r@ == static_frame_text(i as nat, text@),
{
    proof {
        reveal_strlit("\r");
        reveal_strlit(" ");
    }
    let mut r = String::from_str("\r");
    r.append(blue(spin_glyph(i)).as_str());
    r.append(" ");
    r.append(text);
    assert(r@ =~= static_frame_text(i as nat, text@));
    r
}

/// One frame of a spinner whose text is read anew, at position `i` of the cycle.
pub fn dynamic_frame(i: usize, text: &str) -> (r: String)
    requires
        i < SPIN_LEN,
    ensures
        r@ == dynamic_frame_text(i as nat, text@),
{
    let mut r = clear_line();
    r.append(static_frame(i, text).as_str());
    assert(r@ =~= dynamic_frame_text(i as nat, text@));
    r
}

/// The line a spinner with fixed text ends on, by the task's outcome.
pub fn static_closing(succeeded: bool, text: &str) -> (r: String)
    ensures
        r@ == closing_text(succeeded, text@),
{
    proof {
        reveal_strlit("\r");
        reveal_strlit("\n");
    }
    let mut r = String::from_str("\r");
    if succeeded {
        let mut line = String::from_str(check_lead());
        line.append(text);
        r.append(green(line.as_str()).as_str());
    } else {
        let mut line = String::from_str(cross_lead());
        line.append(text);
        r.append(red(line.as_str()).as_str());
    }
    r.append("\n");
    assert(r@ =~= closing_text(succeeded, text@));
    r
}

/// The line a spinner whose text is read anew ends on, by the task's outcome.
pub fn dynamic_closing(succeeded: bool, text: &str) -> (r: String)
    ensures
        r@ == dynamic_closing_text(succeeded, text@),
{
    let mut r = clear_line();
    r.append(static_closing(succeeded, text).as_str());
    assert(r@ =~= dynamic_closing_text(succeeded, text@));
    r
}

/// One tick of a spinner's drawing loop at position `i`: nothing once the task is done, else
/// the frame to draw and the position that follows.
pub fn spin_tick(stop: bool, i: usize, text: &str, dynamic: bool) -> (r: Option<(String, usize)>)
    requires
        i < SPIN_LEN,
    ensures
        stop <==> r is None,
        r matches Some((frame, next)) ==> {
            &&& frame@ == (if dynamic {
                dynamic_frame_text(i as nat, text@)
            } else {
                static_frame_text(i as nat, text@)
            })
            &&& next == (i + 1) % (SPIN_LEN as int)
        },
{
    if stop {
        None
    } else if dynamic {
        Some((dynamic_frame(i, text), next_spin(i)))
    } else {
        Some((static_frame(i, text), next_spin(i)))
    }
}

} // verus!
