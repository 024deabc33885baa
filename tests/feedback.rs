use clytia::progress::{bar_text, filled_length, progress_failure, progress_frame, progress_success};
use clytia::spinner::{dynamic_closing, dynamic_frame, next_spin, spin_tick, static_closing, static_frame};
use owo_colors::OwoColorize;

const SPINNER: [char; 8] = ['\u{2839}', '\u{28b8}', '\u{28f0}', '\u{28e4}', '\u{28c6}', '\u{2847}', '\u{280f}', '\u{281b}'];

#[test]
fn test_static_spinner_success() {
    let s = format!(
        "{}{}{}",
        static_frame(0, "Wait 100ms"),
        static_frame(1, "Wait 100ms"),
        static_closing(true, "Wait 100ms")
    );
    assert_eq!(
        s,
        format!(
            "\r{} Wait 100ms\r{} Wait 100ms\r{}\n",
            SPINNER[0].blue(),
            SPINNER[1].blue(),
            "\u{2714}\u{fe0f}  Wait 100ms".green()
        )
    );
}

#[test]
fn test_static_spinner_failure() {
    let s = format!(
        "{}{}{}",
        static_frame(0, "Wait 100ms"),
        static_frame(1, "Wait 100ms"),
        static_closing(false, "Wait 100ms")
    );
    assert_eq!(
        s,
        format!(
            "\r{} Wait 100ms\r{} Wait 100ms\r{}\n",
            SPINNER[0].blue(),
            SPINNER[1].blue(),
            "\u{274c} Wait 100ms".red()
        )
    );
}

#[test]
fn test_dynamic_spinner_success() {
    let s = format!(
        "{}{}{}",
        dynamic_frame(0, "Wait 100ms"),
        dynamic_frame(1, "Wait 100ms"),
        dynamic_closing(true, "Wait 100ms")
    );
    assert_eq!(
        s,
        format!(
            "{}\r{} Wait 100ms{}\r{} Wait 100ms{}\r{}\n",
            termion::clear::CurrentLine,
            SPINNER[0].blue(),
            termion::clear::CurrentLine,
            SPINNER[1].blue(),
            termion::clear::CurrentLine,
            "\u{2714}\u{fe0f}  Wait 100ms".green()
        )
    );
}

#[test]
fn test_dynamic_spinner_failure() {
    let s = format!(
        "{}{}{}",
        dynamic_frame(0, "Wait 100ms"),
        dynamic_frame(1, "Wait 100ms"),
        dynamic_closing(false, "Wait 100ms")
    );
    assert_eq!(
        s,
        format!(
            "{}\r{} Wait 100ms{}\r{} Wait 100ms{}\r{}\n",
            termion::clear::CurrentLine,
            SPINNER[0].blue(),
            termion::clear::CurrentLine,
            SPINNER[1].blue(),
            termion::clear::CurrentLine,
            "\u{274c} Wait 100ms".red()
        )
    );
}

#[test]
fn spinner_cycle_wraps() {
    assert_eq!(next_spin(0), 1);
    assert_eq!(next_spin(7), 0);
    for i in 0..8 {
        assert_eq!(static_frame(i, "x"), format!("\r{} x", SPINNER[i].blue()));
    }
}

#[test]
fn spin_tick_stops_when_asked() {
    assert!(spin_tick(true, 3, "x", false).is_none());
    let (frame, next) = spin_tick(false, 7, "x", true).unwrap();
    assert_eq!(frame, dynamic_frame(7, "x"));
    assert_eq!(next, 0);
}

fn rewind() -> String {
    format!(
        "{}{}\r{}{}",
        termion::clear::CurrentLine,
        termion::cursor::Up(1),
        termion::clear::CurrentLine,
        termion::cursor::Hide
    )
}

#[test]
fn test_progress_bar_success() {
    // 29 columns leave a bar of 20.
    let (frame, more) = progress_frame("Wait 10000ms", 29, 50);
    assert!(more);
    assert_eq!(
        frame,
        format!(
            "{}Wait 10000ms\n{}",
            rewind(),
            format!("[{}>{}| 050%]", "=".repeat(10), " ".repeat(10)).blue()
        )
    );
    assert_eq!(
        progress_success("Wait 10000ms"),
        format!("{}\u{2714}\u{fe0f}  {}\n", rewind(), "Wait 10000ms".green())
    );
}

#[test]
fn test_progress_bar_failure() {
    // 30 columns leave a failure bar of 20.
    assert_eq!(
        progress_failure("Wait 10000ms", 30, 50),
        format!(
            "{}\u{274c} {}\n{}\n",
            rewind(),
            "Wait 10000ms".red(),
            format!("[{}\u{274c}{}| 050%]", "=".repeat(10), " ".repeat(10)).red()
        )
    );
}

#[test]
fn progress_over_hundred_is_full() {
    let (frame, more) = progress_frame("p", 29, 150);
    assert!(!more);
    assert_eq!(frame, progress_frame("p", 29, 100).0);
    assert_eq!(
        frame,
        format!("{}p\n{}", rewind(), format!("[{}=| 100%]", "=".repeat(20)).blue())
    );
    assert_eq!(bar_text(20, 150), bar_text(20, 100));
    assert_eq!(progress_failure("p", 30, 150), progress_failure("p", 30, 100));
}

#[test]
fn filled_length_rounds_down() {
    assert_eq!(filled_length(71, 50), 35);
    assert_eq!(filled_length(71, 99), 70);
    assert_eq!(filled_length(71, 100), 71);
    assert_eq!(filled_length(71, 1000), 71);
    assert_eq!(filled_length(0, 40), 0);
    assert_eq!(filled_length(65535, 100), 65535);
    assert_eq!(bar_text(4, 0), "[>    | 000%]");
    assert_eq!(bar_text(4, 7), "[>    | 007%]");
    assert_eq!(bar_text(4, 75), "[===> | 075%]");
}

#[test]
fn progress_frame_at_narrowest_width() {
    let (frame, _) = progress_frame("p", 9, 30);
    assert_eq!(frame, format!("{}p\n{}", rewind(), "[>| 030%]".blue()));
}
