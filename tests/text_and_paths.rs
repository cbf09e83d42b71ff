use deskforge::cli::{Cli, Command};
use deskforge::input::{KeyCode, KeyKind, KeyPress, TextField, CONTROL};
use deskforge::layout::{shrink, Rect};
use deskforge::paths::{
    applications_dir, applications_path, desktop_exists, is_desktop_file, join_path,
    normalize_desktop_name,
};
use deskforge::text::{str_ends_with, str_eq_ignore_ascii_case, str_find_char, str_starts_with, trim_str};

fn key(code: KeyCode) -> KeyPress {
    KeyPress { code, modifiers: 0, kind: KeyKind::Press }
}

#[test]
fn trimming() {
    assert_eq!(trim_str("  a b \t\n"), "a b");
    assert_eq!(trim_str("\u{3000}x\u{a0}"), "x");
    assert_eq!(trim_str("   "), "");
    assert_eq!(trim_str(""), "");
}

#[test]
fn prefix_suffix_search() {
    assert!(str_starts_with("https://x", "https://"));
    assert!(!str_starts_with("http", "https"));
    assert!(str_ends_with("a.desktop", ".desktop"));
    assert!(!str_ends_with("desktop", ".desktop"));
    assert_eq!(str_find_char("ab/c/", '/'), Some(2));
    assert_eq!(str_find_char("abc", '/'), None);
    assert!(str_eq_ignore_ascii_case("PnG", "png"));
    assert!(!str_eq_ignore_ascii_case("png", "pn"));
}

#[test]
fn desktop_names() {
    assert_eq!(normalize_desktop_name("  foo "), "foo.desktop");
    assert_eq!(normalize_desktop_name("foo.desktop"), "foo.desktop");
    assert!(!desktop_exists("   "));
    assert!(is_desktop_file("a.desktop"));
    assert!(!is_desktop_file("a.desktop.bak"));
    assert!(!is_desktop_file("desktop"));
}

#[test]
fn joining_paths() {
    assert_eq!(join_path("/a", "b"), "/a/b");
    assert_eq!(join_path("/a/", "b"), "/a/b");
    assert_eq!(join_path("", "b"), "b");
    assert_eq!(join_path("/a", "/b"), "/b");
    assert_eq!(applications_path(None), "/tmp/applications");
    assert_eq!(applications_path(Some("/home/u/.local/share".to_string())), "/home/u/.local/share/applications");
    assert!(applications_dir().ends_with("applications"));
}

#[test]
fn line_editing() {
    let t = TextField { value: "ab".to_string(), cursor: 1 };
    let t = t.edited(key(KeyCode::Char('x')));
    assert_eq!(t.value, "axb");
    assert_eq!(t.cursor, 2);
    let t = t.edited(key(KeyCode::Delete));
    assert_eq!(t.value, "ax");
    let t = t.edited(key(KeyCode::Home)).edited(key(KeyCode::Backspace));
    assert_eq!(t.value, "ax");
    assert_eq!(t.cursor, 0);
    let t = t.edited(key(KeyCode::End));
    assert_eq!(t.cursor, 2);
    let t = t.edited(KeyPress { code: KeyCode::Char('u'), modifiers: CONTROL, kind: KeyKind::Press });
    assert_eq!(t.value, "");
    assert_eq!(t.cursor, 0);
    let f = TextField::from_str("héllo");
    assert_eq!(f.cursor, 5);
}

#[test]
fn command_selection() {
    let cli = Cli { new: Some(None), edit: Some("x".to_string()), list: true, remove: None };
    assert!(matches!(cli.command(), Command::List));
    let cli = Cli { new: Some(None), edit: None, list: false, remove: Some("r".to_string()) };
    assert!(matches!(cli.command(), Command::Remove(n) if n == "r"));
    let cli = Cli { new: Some(None), edit: Some("x".to_string()), list: false, remove: None };
    assert!(matches!(cli.command(), Command::NewDefault));
    let cli = Cli { new: Some(Some("n".to_string())), edit: None, list: false, remove: None };
    assert!(matches!(cli.command(), Command::New(n) if n == "n"));
    let cli = Cli { new: None, edit: Some("e".to_string()), list: false, remove: None };
    assert!(matches!(cli.command(), Command::Edit(n) if n == "e"));
    let cli = Cli { new: None, edit: None, list: false, remove: None };
    assert!(matches!(cli.command(), Command::Help));
}

#[test]
fn shrinking() {
    let r = shrink(Rect { x: 1, y: 2, width: 10, height: 3 }, 2, 1, 4, 5);
    assert_eq!(r, Rect { x: 3, y: 3, width: 14, height: 0 });
    let r = shrink(Rect { x: 0, y: 0, width: 5, height: 8 }, 0, 0, 0, 2);
    assert_eq!(r.height, 6);
}
