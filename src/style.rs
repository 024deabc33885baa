use vstd::prelude::*;
use owo_colors::OwoColorize;

verus! {

/// The escape character that opens every control sequence.
pub const ESC: char = '\u{1b}';

/// `ESC [` followed by `body`: a control sequence introducer and its parameters.
pub open spec fn csi(body: Seq<char>) -> Seq<char> {
    seq![ESC, '['] + body
}

/// Select the foreground color with the given two-digit code.
pub open spec fn fg_code(tens: char, ones: char) -> Seq<char> {
    csi(seq![tens, ones, 'm'])
}

/// `s` drawn in the foreground color selected by `open`, then back to the default color.
pub open spec fn painted(open: Seq<char>, s: Seq<char>) -> Seq<char> {
    open + s + fg_code('3', '9')
}

/// `s` in blue.
pub open spec fn blue_of(s: Seq<char>) -> Seq<char> {
    painted(fg_code('3', '4'), s)
}

/// `s` in green.
pub open spec fn green_of(s: Seq<char>) -> Seq<char> {
    painted(fg_code('3', '2'), s)
}

/// `s` in red.
pub open spec fn red_of(s: Seq<char>) -> Seq<char> {
    painted(fg_code('3', '1'), s)
}

/// `s` in white.
pub open spec fn white_of(s: Seq<char>) -> Seq<char> {
    painted(fg_code('3', '7'), s)
}

/// `s` in magenta.
pub open spec fn magenta_of(s: Seq<char>) -> Seq<char> {
    painted(fg_code('3', '5'), s)
}

/// Erase the whole line the cursor stands on.
pub open spec fn clear_line_seq() -> Seq<char> {
    csi(seq!['2', 'K'])
}

/// Move the cursor one line up.
pub open spec fn up_one_seq() -> Seq<char> {
    csi(seq!['1', 'A'])
}

/// Hide the cursor.
pub open spec fn hide_seq() -> Seq<char> {
    csi(seq!['?', '2', '5', 'l'])
}

/// Relies on owo_colors' `blue`: the text between the codes for a blue and the default foreground.
#[verifier::external_body]
pub(crate) fn blue(s: &str) -> (r: String)
    ensures
        r@ == blue_of(s@),
{
    s.blue().to_string()
}

/// Relies on owo_colors' `green`: the text between the codes for a green and the default foreground.
#[verifier::external_body]
pub(crate) fn green(s: &str) -> (r: String)
    ensures
        r@ == green_of(s@),
{
    s.green().to_string()
}

/// Relies on owo_colors' `red`: the text between the codes for a red and the default foreground.
#[verifier::external_body]
pub(crate) fn red(s: &str) -> (r: String)
    ensures
        r@ == red_of(s@),
{
    s.red().to_string()
}

/// Relies on owo_colors' `magenta`: the text between the codes for a magenta and the default foreground.
#[verifier::external_body]
pub(crate) fn magenta(s: &str) -> (r: String)
    ensures
        r@ == magenta_of(s@),
{
    s.magenta().to_string()
}

/// Relies on owo_colors' `white`: the text between the codes for a white and the default foreground.
#[verifier::external_body]
pub(crate) fn white(s: &str) -> (r: String)
    ensures
        r@ == white_of(s@),
{
    s.white().to_string()
}

/// Relies on termion's `clear::CurrentLine`, which displays as `ESC [ 2 K`.
#[verifier::external_body]
pub(crate) fn clear_line() -> (r: String)
    ensures
        r@ == clear_line_seq(),
{
    termion::clear::CurrentLine.to_string()
}

/// Relies on termion's `cursor::Up`, which displays `Up(1)` as `ESC [ 1 A`.
#[verifier::external_body]
pub(crate) fn cursor_up_one() -> (r: String)
    ensures
        r@ == up_one_seq(),
{
    termion::cursor::Up(1).to_string()
}

/// Relies on termion's `cursor::Hide`, which displays as `ESC [ ? 2 5 l`.
#[verifier::external_body]
pub(crate) fn cursor_hide() -> (r: String)
    ensures
        r@ == hide_seq(),
{
    termion::cursor::Hide.to_string()
}

/// `n` copies of the character `c`.
pub open spec fn run_of(c: char, n: nat) -> Seq<char> {
    Seq::new(n, |_i: int| c)
}

/// A string of `n` copies of the one-character string `c`.
pub fn repeated(c: &str, n: usize) -> (r: String)
    requires
        c@.len() == 1,
    ensures
        r@ == run_of(c@[0], n as nat),
{
    let mut r = String::new();
    let mut i: usize = 0;
    while i < n
        invariant
            i <= n,
            c@.len() == 1,
            r@ == run_of(c@[0], i as nat),
        decreases n - i,
    {
        r.append(c);
        i = i + 1;
        assert(r@ =~= run_of(c@[0], i as nat));
    }
    r
}

/// The decimal digit `d`, for `d < 10`.
pub open spec fn digit_char(d: nat) -> char {
    seq!['0', '1', '2', '3', '4', '5', '6', '7', '8', '9'][d as int]
}

/// `p` written with three decimal digits, zeros in front: what `{:03}` shows of a number below 1000.
pub open spec fn three_digits(p: nat) -> Seq<char> {
    seq![digit_char(p / 100), digit_char((p / 10) % 10), digit_char(p % 10)]
}

/// The decimal digit `d` as a one-character string.
fn digit_text(d: usize) -> (r: &'static str)
    requires
        d < 10,
    ensures
        r@ == seq![digit_char(d as nat)],
{
    proof {
        reveal_strlit("0");
        reveal_strlit("1");
        reveal_strlit("2");
        reveal_strlit("3");
        reveal_strlit("4");
        reveal_strlit("5");
        reveal_strlit("6");
        reveal_strlit("7");
        reveal_strlit("8");
        reveal_strlit("9");
    }
    let r = match d {
        0 => "0",
        1 => "1",
        2 => "2",
        3 => "3",
        4 => "4",
        5 => "5",
        6 => "6",
        7 => "7",
        8 => "8",
        _ => "9",
    };
    assert(r@ =~= seq![digit_char(d as nat)]);
    r
}

/// `p` as three decimal digits with leading zeros.
pub fn padded_three(p: usize) -> (r: String)
    requires
        p < 1000,
    ensures
        r@ == three_digits(p as nat),
{
    let mut r = String::new();
    r.append(digit_text(p / 100));
    r.append(digit_text((p / 10) % 10));
    r.append(digit_text(p % 10));
    assert(r@ =~= three_digits(p as nat));
    r
}

} // verus!
