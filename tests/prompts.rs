use clytia::prompt::{after_reply, ask, judge_line, judge_parsed, parsed_answer, resolve_line, retry, Attempt, Step};
use clytia::{Clytia, Error};
use owo_colors::OwoColorize;

#[test]
fn test_parsed_input_with_default() {
    let output = Vec::new();
    let input: Vec<u8> = vec![b'1', b'\n'];
    let mut cli = Clytia::new(&input as &[u8], output);
    assert!(cli.parsed_input("input a number", Some(0)).is_ok());
    let s = std::str::from_utf8(cli.output());
    assert!(s.is_ok());
    let s = s.unwrap();
    assert_eq!(
        s,
        format!(
            "{}{}{}",
            "input a number".blue(),
            "(default: 0)".magenta(),
            " => ".blue()
        )
    )
}

#[test]
fn test_parsed_input_without_default() {
    let output = Vec::new();
    let input: Vec<u8> = vec![b'1', b'\n'];
    let mut cli = Clytia::new(&input as &[u8], output);
    assert!(cli.parsed_input::<_, usize>("input a number", None).is_ok());
    let s = std::str::from_utf8(cli.output());
    assert!(s.is_ok());
    let s = s.unwrap();
    assert_eq!(s, "input a number => ".blue().to_string())
}

#[test]
fn parsed_input_reads_the_number() {
    let input: Vec<u8> = b"  42 \n".to_vec();
    let mut cli = Clytia::new(&input as &[u8], Vec::new());
    let r: Result<usize, Error> = cli.parsed_input("n", None);
    assert_eq!(r.unwrap(), 42);
}

#[test]
fn parsed_input_blank_without_default_is_refused() {
    let input: Vec<u8> = b"\n".to_vec();
    let mut cli = Clytia::new(&input as &[u8], Vec::new());
    let r: Result<usize, Error> = cli.parsed_input("n", None);
    assert!(matches!(r, Err(Error::NonOptionalInput)));
}

#[test]
fn parsed_input_blank_with_default_gives_default() {
    let input: Vec<u8> = b"   \n".to_vec();
    let mut cli = Clytia::new(&input as &[u8], Vec::new());
    let r: Result<usize, Error> = cli.parsed_input("n", Some(7));
    assert_eq!(r.unwrap(), 7);
}

#[test]
fn parsed_input_reports_unparsable_text() {
    let input: Vec<u8> = b" abc \n".to_vec();
    let mut cli = Clytia::new(&input as &[u8], Vec::new());
    let r: Result<usize, Error> = cli.parsed_input("n", None);
    match r {
        Err(Error::ParseError(t)) => assert_eq!(t, "abc"),
        _ => panic!("expected a parse error"),
    }
}

#[test]
fn resolve_line_cases() {
    assert!(matches!(resolve_line::<u8>(None, None), Err(Error::NonOptionalInput)));
    assert_eq!(resolve_line::<u8>(None, Some(3)).unwrap(), 3);
    assert_eq!(resolve_line::<u8>(Some(" 9\t".to_string()), Some(3)).unwrap(), 9);
    assert!(matches!(
        resolve_line::<u8>(Some("300".to_string()), None),
        Err(Error::ParseError(t)) if t == "300"
    ));
}

#[test]
fn judge_line_never_accepts_a_refused_value() {
    let small = |v: &u32| *v <= 10;
    assert!(matches!(judge_line::<u32, _>(Some("12".to_string()), &small), Attempt::Rejected));
    assert!(matches!(judge_line::<u32, _>(Some(" 5 ".to_string()), &small), Attempt::Accepted(5)));
    assert!(matches!(judge_line::<u32, _>(Some("x".to_string()), &small), Attempt::Unparsable));
    assert!(matches!(judge_line::<u32, _>(Some("  ".to_string()), &small), Attempt::Blank));
    assert!(matches!(judge_line::<u32, _>(None, &small), Attempt::Exhausted));
}

#[test]
fn validating_prompt_texts() {
    assert_eq!(
        ask("pick", "1-10"),
        format!(
            "{}\r{} {} {} ",
            termion::clear::CurrentLine,
            "pick".blue(),
            "(requirements: 1-10)".magenta(),
            "=>".blue()
        )
    );
    assert_eq!(
        retry(true, "pick", "1-10", ""),
        format!(
            "{}{}\r{} {} {} ",
            termion::cursor::Up(1),
            termion::clear::CurrentLine,
            "pick".red(),
            "(requirements: 1-10)".magenta(),
            "=>".red()
        )
    );
    assert_eq!(
        retry(false, "pick", "1-10", "12"),
        format!(
            "\r{}{} {} {} {}",
            termion::cursor::Up(1),
            "pick".red(),
            "(requirements: 1-10)".magenta(),
            "=>".red(),
            "12".white()
        )
    );
}

#[test]
fn parsed_answer_cases() {
    assert_eq!(parsed_answer("5".to_string(), Some(5u8)).unwrap(), 5);
    assert!(matches!(
        parsed_answer::<u8>("five".to_string(), None),
        Err(Error::ParseError(t)) if t == "five"
    ));
}

#[test]
fn judge_parsed_accepts_exactly_what_passes() {
    let small = |v: &u32| *v <= 10;
    assert!(matches!(judge_parsed(Some(5u32), &small), Attempt::Accepted(5)));
    assert!(matches!(judge_parsed(Some(20u32), &small), Attempt::Rejected));
    assert!(matches!(judge_parsed::<u32, _>(None, &small), Attempt::Unparsable));
}

/// The replies a validating prompt goes through, step by step, until it finishes.
fn run_replies<F: Fn(&usize) -> bool>(lines: &[&str], validate: F) -> Result<usize, Error> {
    for line in lines.iter().map(|l| Some(l.to_string())).chain(std::iter::once(None)) {
        let reply = line.clone().unwrap_or_default();
        let attempt = judge_line::<usize, F>(line, &validate);
        if let Step::Finish(result) = after_reply(attempt, "n", "0-10", &reply) {
            return result;
        }
    }
    unreachable!("the end of the input always finishes")
}

#[test]
fn validating_steps_recover_from_bad_replies() {
    assert_eq!(run_replies(&["abc", "5"], |n| *n <= 10).unwrap(), 5);
    assert_eq!(run_replies(&["20", "5"], |n| *n <= 10).unwrap(), 5);
    assert_eq!(run_replies(&["", "   ", "3"], |_| true).unwrap(), 3);
    match run_replies(&["20", "x"], |n| *n <= 10) {
        Err(Error::Io(e)) => assert_eq!(e.kind(), std::io::ErrorKind::UnexpectedEof),
        _ => panic!("expected the end of the input"),
    }
}

#[test]
fn after_reply_texts() {
    match after_reply::<u8>(Attempt::Blank, "pick", "1-10", "") {
        Step::AskAgain(t) => assert_eq!(t, retry(true, "pick", "1-10", "")),
        _ => panic!("expected to ask again"),
    }
    match after_reply::<u8>(Attempt::Rejected, "pick", "1-10", "12") {
        Step::AskAgain(t) => assert_eq!(t, retry(false, "pick", "1-10", "12")),
        _ => panic!("expected to ask again"),
    }
    assert!(matches!(after_reply::<u8>(Attempt::Accepted(4), "p", "r", "4"), Step::Finish(Ok(4))));
}
