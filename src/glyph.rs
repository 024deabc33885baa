use vstd::prelude::*;

verus! {

/// The heavy check mark with its emoji presentation selector, shown on success.
pub open spec fn check_glyph() -> Seq<char> {
    seq!['\u{2714}', '\u{fe0f}']
}

/// The cross mark, shown on failure.
pub open spec fn cross_glyph() -> Seq<char> {
    seq!['\u{274c}']
}

/// The check mark followed by two spaces, as it opens a success line.
pub fn check_lead() -> (r: &'static str)
    ensures
        r@ == check_glyph() + seq![' ', ' '],
{
    proof {
        reveal_strlit("\u{2714}\u{fe0f}  ");
    }
    let r = "\u{2714}\u{fe0f}  ";
    assert(r@ =~= check_glyph() + seq![' ', ' ']);
    r
}

/// The cross mark alone.
pub fn cross_mark() -> (r: &'static str)
    ensures
        r@ == cross_glyph(),
{
    proof {
        reveal_strlit("\u{274c}");
    }
    let r = "\u{274c}";
    assert(r@ =~= cross_glyph());
    r
}

/// The cross mark followed by one space, as it opens a failure line.
pub fn cross_lead() -> (r: &'static str)
    ensures
        r@ == cross_glyph() + seq![' '],
{
    proof {
        reveal_strlit("\u{274c} ");
    }
    let r = "\u{274c} ";
    assert(r@ =~= cross_glyph() + seq![' ']);
    r
}

} // verus!
