use vstd::prelude::*;
use crate::error::{Error, Result};
use crate::style::{
    blue, blue_of, clear_line, clear_line_seq, cursor_up_one, magenta, magenta_of, red, red_of,
    up_one_seq, white, white_of,
};

verus! {

/// What is left of a line once leading and trailing whitespace is removed.
pub uninterp spec fn trimmed(s: Seq<char>) -> Seq<char>;

/// `part` stands in `whole` as one contiguous run of characters.
pub open spec fn is_part_of(part: Seq<char>, whole: Seq<char>) -> bool {
    exists|i: int, j: int| 0 <= i <= j <= whole.len() && part == whole.subrange(i, j)
}

/// Every character is a space, a tab or a line break.
pub open spec fn only_spacing(s: Seq<char>) -> bool {
    forall|k: int| 0 <= k < s.len() ==> s[k] == ' ' || s[k] == '\t' || s[k] == '\n' || s[k] == '\r'
}

/// Relies on `str::trim`: the text without its leading and trailing whitespace, which depends
/// on the text alone. What is left is a contiguous part of the text; nothing is left of an
/// empty text, nor of one made of spaces, tabs and line breaks only (all of them whitespace).
#[verifier::external_body]
fn trim_text(s: &str) -> (r: String)
    ensures
        r@ == trimmed(s@),
        is_part_of(r@, s@),
        s@.len() == 0 ==> r@.len() == 0,
        only_spacing(s@) ==> r@.len() == 0,
{
    s.trim().to_string()
}

/// Relies on `str::parse`: the value that `T`'s `FromStr` reads from the text, if any.
#[verifier::external_body]
fn parse_text<T: core::str::FromStr>(s: &str) -> Option<T> {
    s.parse().ok()
}

/// Relies on `Write::write_all`: the whole text is handed to the output, or the error is returned.
#[verifier::external_body]
pub(crate) fn write_text<W: std::io::Write>(w: &mut W, s: &str) -> core::result::Result<(), std::io::Error> {
    w.write_all(s.as_bytes())
}

/// Relies on `Write::flush`.
#[verifier::external_body]
pub(crate) fn flush_output<W: std::io::Write>(w: &mut W) -> core::result::Result<(), std::io::Error> {
    w.flush()
}

/// Relies on termion's `TermRead::read_line`: the bytes up to a line break, or nothing when
/// the user aborted.
#[verifier::external_body]
pub(crate) fn read_reply<R: std::io::Read>(r: &mut R) -> core::result::Result<Option<String>, std::io::Error> {
    termion::input::TermRead::read_line(r)
}

/// A line counts as blank when there is none, or when nothing is left of it once trimmed.
pub open spec fn is_blank(line: Option<String>) -> bool {
    match line {
        None => true,
        Some(s) => trimmed(s@).len() == 0,
    }
}

/// The prompt shown when there is a default: the prompt, the default and the arrow.
pub open spec fn default_prompt_text(prompt: Seq<char>, default: Seq<char>) -> Seq<char> {
    blue_of(prompt) + magenta_of(
        seq!['(', 'd', 'e', 'f', 'a', 'u', 'l', 't', ':', ' '] + default + seq![')'],
    ) + blue_of(seq![' ', '=', '>', ' '])
}

/// The prompt shown when there is no default: the prompt and the arrow, in blue.
pub open spec fn plain_prompt_text(prompt: Seq<char>) -> Seq<char> {
    blue_of(prompt + seq![' ', '=', '>', ' '])
}

/// The prompt that offers `default` when the user enters nothing.
pub fn default_prompt(prompt: &str, default: &str) -> (r: String)
    ensures
        r@ == default_prompt_text(prompt@, default@),
{
    proof {
        reveal_strlit("(default: ");
        reveal_strlit(")");
        reveal_strlit(" => ");
    }
    let mut shown = String::from_str("(default: ");
    shown.append(default);
    shown.append(")");
    let mut r = blue(prompt);
    r.append(magenta(shown.as_str()).as_str());
    r.append(blue(" => ").as_str());
    assert(r@ =~= default_prompt_text(prompt@, default@));
    r
}

/// The prompt that asks for input without a default.
pub fn plain_prompt(prompt: &str) -> (r: String)
    ensures
        r@ == plain_prompt_text(prompt@),
{
    proof {
        reveal_strlit(" => ");
    }
    let mut line = String::from_str(prompt);
    line.append(" => ");
    blue(line.as_str())
}

/// Whether `r` is an answer a prompt may give for the line read: for a blank line the
/// default, or [`Error::NonOptionalInput`] when there is none; otherwise a parsed value or
/// [`Error::ParseError`] with the trimmed text.
pub open spec fn answers<T>(line: Option<String>, default: Option<T>, r: Result<T>) -> bool {
    if is_blank(line) {
        match default {
            Some(d) => r == Ok::<T, Error>(d),
            None => r is Err && r->Err_0 is NonOptionalInput,
        }
    } else {
        match r {
            Ok(_) => true,
            Err(e) => e matches Error::ParseError(t) && t@ == trimmed(line->Some_0@),
        }
    }
}

/// The answer a prompt gives for the line read: a blank line gives the default, or
/// [`Error::NonOptionalInput`] when there is none; otherwise the trimmed text parsed,
/// or [`Error::ParseError`] with that text (see [`parsed_answer`]).
pub fn resolve_line<T: core::str::FromStr>(line: Option<String>, default: Option<T>) -> (r: Result<T>)
    ensures
        answers(line, default, r),
{
    let text = match line {
        None => None,
        Some(n) => {
            let t = trim_text(n.as_str());
            if t.as_str().is_empty() {
                None
            } else {
                Some(t)
            }
        },
    };
    match text {
        None => match default {
            Some(d) => Ok(d),
            None => Err(Error::NonOptionalInput),
        },
        Some(t) => {
            let parsed = parse_text::<T>(t.as_str());
            parsed_answer(t, parsed)
        },
    }
}

/// The answer for a reply whose trimmed text is `text` and parsed as `parsed`: the value,
/// or [`Error::ParseError`] with the text.
pub fn parsed_answer<T>(text: String, parsed: Option<T>) -> (r: Result<T>)
    ensures
        match parsed {
            Some(v) => r == Ok::<T, Error>(v),
            None => r matches Err(Error::ParseError(t)) && t@ == text@,
        },
{
    match parsed {
        Some(v) => Ok(v),
        None => Err(Error::ParseError(text)),
    }
}

/// How one reply to a validating prompt turned out.
pub enum Attempt<T> {
    /// The reply parsed, and the check accepted the value.
    Accepted(T),
    /// The reply was blank: ask again.
    Blank,
    /// The reply did not parse: ask again.
    Unparsable,
    /// The reply parsed, but the check refused the value: ask again.
    Rejected,
    /// The input ended: asking again cannot help.
    Exhausted,
}

/// Judge one reply to a validating prompt. Only a value that `validate` accepted is ever
/// accepted; a missing line ends the asking; everything else asks again.
pub fn judge_line<T, F>(line: Option<String>, validate: &F) -> (r: Attempt<T>)
    where
        T: core::str::FromStr,
        F: Fn(&T) -> bool,
    requires
        forall|v: &T| validate.requires((v,)),
    ensures
        line is None <==> r is Exhausted,
        line is Some && is_blank(line) <==> r is Blank,
        r matches Attempt::Accepted(v) ==> validate.ensures((&v,), true),
{
    match line {
        None => Attempt::Exhausted,
        Some(n) => {
            let t = trim_text(n.as_str());
            if t.as_str().is_empty() {
                Attempt::Blank
            } else {
                let parsed = parse_text::<T>(t.as_str());
                judge_parsed(parsed, validate)
            }
        },
    }
}

/// Judge a reply that was not blank, by how its trimmed text parsed: nothing parsed is
/// [`Attempt::Unparsable`]; a value is accepted exactly when `validate` accepts it.
pub fn judge_parsed<T, F>(parsed: Option<T>, validate: &F) -> (r: Attempt<T>)
    where
        F: Fn(&T) -> bool,
    requires
        forall|v: &T| validate.requires((v,)),
    ensures
        parsed is None <==> r is Unparsable,
        match parsed {
            Some(v) => (r matches Attempt::Accepted(w) && w == v && validate.ensures((&v,), true))
                || (r is Rejected && validate.ensures((&v,), false)),
            None => true,
        },
{
    match parsed {
        None => Attempt::Unparsable,
        Some(v) => {
            if validate(&v) {
                Attempt::Accepted(v)
            } else {
                Attempt::Rejected
            }
        },
    }
}

/// Relies on `io::Error::from(ErrorKind)`: an error of the kind `UnexpectedEof`.
#[verifier::external_body]
fn input_ended() -> std::io::Error {
    std::io::Error::from(std::io::ErrorKind::UnexpectedEof)
}

/// What a validating prompt does after a reply.
pub enum Step<T> {
    /// Stop asking, with this result.
    Finish(Result<T>),
    /// Draw this and ask again.
    AskAgain(String),
}

/// The step after a reply judged `attempt`, `reply` being the line as read: an accepted
/// value is returned; the end of the input is an I/O error; anything else is asked again,
/// after a blank reply with the question in red, otherwise with the reply shown as well.
pub fn after_reply<T>(attempt: Attempt<T>, prompt: &str, req: &str, reply: &str) -> (r: Step<T>)
    ensures
        match attempt {
            Attempt::Accepted(v) => r matches Step::Finish(Ok(w)) && w == v,
            Attempt::Exhausted => r matches Step::Finish(Err(Error::Io(_))),
            Attempt::Blank => r matches Step::AskAgain(t) && t@ == blank_retry_text(prompt@, req@),
            _ => r matches Step::AskAgain(t) && t@ == wrong_retry_text(prompt@, req@, reply@),
        },
{
    match attempt {
        Attempt::Accepted(v) => Step::Finish(Ok(v)),
        Attempt::Exhausted => Step::Finish(Err(Error::Io(input_ended()))),
        Attempt::Blank => Step::AskAgain(retry(true, prompt, req, reply)),
        _ => Step::AskAgain(retry(false, prompt, req, reply)),
    }
}

/// `(requirements: ...)` in magenta.
pub open spec fn requirements_text(req: Seq<char>) -> Seq<char> {
    magenta_of(
        seq!['(', 'r', 'e', 'q', 'u', 'i', 'r', 'e', 'm', 'e', 'n', 't', 's', ':', ' '] + req + seq![')'],
    )
}

/// The question of a validating prompt: the line erased, then the prompt, the requirements
/// and the arrow.
pub open spec fn ask_text(prompt: Seq<char>, req: Seq<char>) -> Seq<char> {
    clear_line_seq() + seq!['\r'] + blue_of(prompt) + seq![' '] + requirements_text(req) + seq![' ']
        + blue_of(seq!['=', '>']) + seq![' ']
}

/// The question again, in red, after a reply that did not do.
pub open spec fn refused_text(prompt: Seq<char>, req: Seq<char>) -> Seq<char> {
    red_of(prompt) + seq![' '] + requirements_text(req) + seq![' '] + red_of(seq!['=', '>']) + seq![
        ' ',
    ]
}

/// After a blank reply: the empty line is erased and the question turns red.
pub open spec fn blank_retry_text(prompt: Seq<char>, req: Seq<char>) -> Seq<char> {
    up_one_seq() + clear_line_seq() + seq!['\r'] + refused_text(prompt, req)
}

/// After a reply that did not parse or was refused: the question turns red, the reply shown in white.
pub open spec fn wrong_retry_text(prompt: Seq<char>, req: Seq<char>, reply: Seq<char>) -> Seq<char> {
    seq!['\r'] + up_one_seq() + refused_text(prompt, req) + white_of(reply)
}

fn requirements(req: &str) -> (r: String)
    ensures
        r@ == requirements_text(req@),
{
    proof {
        reveal_strlit("(requirements: ");
        reveal_strlit(")");
    }
    let mut shown = String::from_str("(requirements: ");
    shown.append(req);
    shown.append(")");
    magenta(shown.as_str())
}

/// The question of a validating prompt.
pub fn ask(prompt: &str, req: &str) -> (r: String)
    ensures
        r@ == ask_text(prompt@, req@),
{
    proof {
        reveal_strlit("\r");
        reveal_strlit(" ");
        reveal_strlit("=>");
    }
    let mut r = clear_line();
    r.append("\r");
    r.append(blue(prompt).as_str());
    r.append(" ");
    r.append(requirements(req).as_str());
    r.append(" ");
    r.append(blue("=>").as_str());
    r.append(" ");
    assert(r@ =~= ask_text(prompt@, req@));
    r
}

fn refused(prompt: &str, req: &str) -> (r: String)
    ensures
        r@ == refused_text(prompt@, req@),
{
    proof {
        reveal_strlit(" ");
        reveal_strlit("=>");
    }
    let mut r = red(prompt);
    r.append(" ");
    r.append(requirements(req).as_str());
    r.append(" ");
    r.append(red("=>").as_str());
    r.append(" ");
    assert(r@ =~= refused_text(prompt@, req@));
    r
}

/// What to draw before asking again: after a blank reply, or after `reply` did not do.
pub fn retry(blank: bool, prompt: &str, req: &str, reply: &str) -> (r: String)
    ensures
        r@ == (if blank {
            blank_retry_text(prompt@, req@)
        } else {
            wrong_retry_text(prompt@, req@, reply@)
        }),
{
    proof {
        reveal_strlit("\r");
    }
    if blank {
        let mut r = cursor_up_one();
        r.append(clear_line().as_str());
        r.append("\r");
        r.append(refused(prompt, req).as_str());
        assert(r@ =~= blank_retry_text(prompt@, req@));
        r
    } else {
        let mut r = String::from_str("\r");
        r.append(cursor_up_one().as_str());
        r.append(refused(prompt, req).as_str());
        r.append(white(reply).as_str());
        assert(r@ =~= wrong_retry_text(prompt@, req@, reply@));
        r
    }
}

} // verus!
