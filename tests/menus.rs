use clytia::menu::erase_lines;
use clytia::{Error, MenuKey, MultiMenu, SelectMenu};
use owo_colors::OwoColorize;

fn strings(v: &[&str]) -> Vec<String> {
    v.iter().map(|s| s.to_string()).collect()
}

#[test]
fn test_options_menu() {
    let options = strings(&["cats", "dogs", "both"]);
    let mut menu = SelectMenu::new(options.len()).unwrap();
    assert!(!menu.press(MenuKey::Down));
    assert!(menu.press(MenuKey::Enter));
    assert_eq!(options[menu.highlighted()], "dogs");
}

#[test]
fn test_multichoice() {
    let options = strings(&["cats", "dogs", "rabbits"]);
    let mut menu = MultiMenu::new(options.len()).unwrap();
    for key in [MenuKey::Space, MenuKey::Down, MenuKey::Down, MenuKey::Space] {
        assert!(!menu.press(key));
    }
    assert!(menu.press(MenuKey::Enter));
    let picked: Vec<&String> = menu.chosen().into_iter().map(|i| &options[i]).collect();
    assert_eq!(picked, vec!["cats", "rabbits"]);
}

#[test]
fn chosen_keeps_option_order() {
    let mut menu = MultiMenu::new(3).unwrap();
    menu.press(MenuKey::Up);
    menu.press(MenuKey::Space);
    menu.press(MenuKey::Up);
    menu.press(MenuKey::Up);
    menu.press(MenuKey::Space);
    assert_eq!(menu.chosen(), vec![0, 2]);
}

#[test]
fn empty_menus_are_refused() {
    assert!(matches!(SelectMenu::new(0), Err(Error::InvalidOptionSet)));
    assert!(matches!(MultiMenu::new(0), Err(Error::InvalidOptionSet)));
}

#[test]
fn downs_and_ups_wrap() {
    for n in 1..6usize {
        for k in 0..13usize {
            let mut down = SelectMenu::new(n).unwrap();
            let mut up = SelectMenu::new(n).unwrap();
            for _ in 0..k {
                down.press(MenuKey::Down);
                up.press(MenuKey::Up);
            }
            assert_eq!(down.highlighted(), k % n);
            assert_eq!(up.highlighted(), (n - k % n) % n);
        }
    }
}

#[test]
fn other_keys_change_nothing() {
    let mut menu = MultiMenu::new(2).unwrap();
    assert!(!menu.press(MenuKey::Other));
    assert_eq!(menu.highlighted(), 0);
    assert!(!menu.is_selected(0));
    let mut single = SelectMenu::new(2).unwrap();
    assert!(!single.press(MenuKey::Space));
    assert_eq!(single.highlighted(), 0);
}

#[test]
fn toggling_twice_unselects() {
    let mut menu = MultiMenu::new(3).unwrap();
    menu.press(MenuKey::Space);
    assert!(menu.is_selected(0));
    menu.press(MenuKey::Space);
    assert!(!menu.is_selected(0));
    assert!(menu.press(MenuKey::Enter));
    assert!(menu.chosen().is_empty());
}

#[test]
fn single_menu_drawing() {
    let options = strings(&["cats", "dogs"]);
    let mut menu = SelectMenu::new(2).unwrap();
    let hide = termion::cursor::Hide;
    assert_eq!(
        menu.rows(&options),
        format!("{}{}\r\n   dogs{}\r\n", "=> cats".blue(), hide, hide)
    );
    menu.press(MenuKey::Down);
    let erase = format!(
        "{}{}{}{}",
        termion::cursor::Up(1),
        termion::clear::CurrentLine,
        termion::cursor::Up(1),
        termion::clear::CurrentLine
    );
    assert_eq!(erase_lines(2), erase);
    assert_eq!(
        menu.redraw(&options),
        format!("{}\r   cats{}\r\n{}{}\r\n", erase, hide, "=> dogs".blue(), hide)
    );
    assert_eq!(
        menu.confirm(&options),
        format!("{}{}\n", erase, "\r=> dogs\r".green())
    );
}

#[test]
fn multi_menu_drawing() {
    let options = strings(&["a", "b"]);
    let mut menu = MultiMenu::new(2).unwrap();
    assert_eq!(
        menu.draw(&options),
        format!("{}\r{}\n\r[ ] b\n", termion::cursor::Hide, "[ ] a".blue())
    );
    menu.press(MenuKey::Space);
    menu.press(MenuKey::Down);
    menu.press(MenuKey::Space);
    menu.press(MenuKey::Up);
    assert_eq!(menu.rows(&options), format!("\r{}\n\r[X] b\n", "[X] a".blue()));
    let erase = erase_lines(2);
    assert_eq!(
        menu.confirm(&options),
        format!("{}\r{}\n{}\n", erase, "\r[X] a\r".green(), "\r[X] b\r".green())
    );
}
