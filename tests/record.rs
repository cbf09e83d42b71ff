use deskforge::fields::{
    IDX_ACTION, IDX_CATEGORY, IDX_COMMENT, IDX_EXEC, IDX_ICON, IDX_NAME, IDX_TYPE, IDX_VERSION,
};
use deskforge::input::TextField;
use deskforge::record::{bool_str, entry_line, split_line, toggle_value};
use deskforge::state::App;

fn set(app: &mut App, i: usize, s: &str) {
    app.input[i] = TextField::from_str(s);
}

fn text(app: &App, i: usize) -> String {
    app.input[i].value().to_string()
}

fn lines(v: &[&str]) -> Vec<String> {
    v.iter().map(|s| s.to_string()).collect()
}

#[test]
fn link_record_has_url_and_no_exec() {
    let mut app = App::new(Some("Site".to_string()), false);
    set(&mut app, IDX_TYPE, "Link");
    set(&mut app, IDX_EXEC, "https://example");
    let record = app.desktop_entry();
    assert_eq!(record[1], "Name=Site");
    assert_eq!(record[2], "URL=https://example");
    assert!(record.iter().all(|l| !l.starts_with("Exec=")));
}

#[test]
fn nodisplay_true_and_category_none_render() {
    let mut app = App::new(Some("Foo".to_string()), false);
    app.checkbox_nodisplay = true;
    let record = app.desktop_entry();
    assert!(record.contains(&"NoDisplay=true".to_string()));
    assert!(record.contains(&"Category=".to_string()));
}

#[test]
fn full_record_layout() {
    let mut app = App::new(Some("Foo".to_string()), false);
    set(&mut app, IDX_EXEC, "/bin/foo --bar");
    set(&mut app, IDX_ICON, "/icons/foo.png");
    set(&mut app, IDX_VERSION, "1.0");
    set(&mut app, IDX_COMMENT, "A = B");
    set(&mut app, IDX_ACTION, "New");
    set(&mut app, IDX_CATEGORY, "Audio");
    app.checkbox_terminal = true;
    app.checkbox_startupnotify = false;
    let record = app.desktop_entry();
    let expected = lines(&[
        "[Desktop Entry]",
        "Name=Foo",
        "Exec=/bin/foo --bar",
        "Icon=/icons/foo.png",
        "Version=1.0",
        "Comment=A = B",
        "Actions=New",
        "NoDisplay=false",
        "StartupNotify=false",
        "Terminal=true",
        "Type=Application",
        "Category=Audio",
    ]);
    assert_eq!(record, expected);
    assert_eq!(app.desktop_file_name(), "Foo.desktop");
}

#[test]
fn directory_record_uses_exec() {
    let mut app = App::new(Some("Dir".to_string()), false);
    set(&mut app, IDX_TYPE, "Directory");
    set(&mut app, IDX_EXEC, "/home");
    let record = app.desktop_entry();
    assert_eq!(record[2], "Exec=/home");
    assert_eq!(record[10], "Type=Directory");
}

#[test]
fn edit_mode_loads_existing_record() {
    let mut app = App::new(Some("Foo.desktop".to_string()), true);
    app.load_record(&lines(&["Name=Foo", "Exec=/bin/foo", "Type=Application"]));
    assert_eq!(text(&app, IDX_NAME), "Foo");
    assert_eq!(text(&app, IDX_EXEC), "/bin/foo");
    assert_eq!(text(&app, IDX_TYPE), "Application");
    assert_eq!(text(&app, IDX_ICON), "");
    assert_eq!(text(&app, IDX_COMMENT), "");
    assert_eq!(text(&app, IDX_CATEGORY), "None");
    assert!(app.edit);
    assert_eq!(app.input[IDX_EXEC].cursor, 8);
}

#[test]
fn loading_ignores_unknown_keys_and_lines_without_equals() {
    let mut app = App::new(None, true);
    app.load_record(&lines(&[
        "[Desktop Entry]",
        "X-Custom=1",
        "garbage",
        "URL=https://a=b",
        "Terminal=true",
        "NoDisplay=maybe",
        "Category=",
    ]));
    assert_eq!(text(&app, IDX_EXEC), "https://a=b");
    assert!(app.checkbox_terminal);
    assert!(!app.checkbox_nodisplay);
    assert_eq!(text(&app, IDX_CATEGORY), "None");
    assert_eq!(text(&app, IDX_NAME), "");
}

#[test]
fn later_lines_win() {
    let mut app = App::new(None, true);
    app.load_record(&lines(&["Name=A", "Name=B"]));
    assert_eq!(text(&app, IDX_NAME), "B");
}

#[test]
fn record_round_trip() {
    let mut app = App::new(Some("Round".to_string()), false);
    set(&mut app, IDX_EXEC, "file:///tmp");
    set(&mut app, IDX_TYPE, "Link");
    set(&mut app, IDX_ICON, "x.svg");
    set(&mut app, IDX_COMMENT, "c=d");
    app.checkbox_nodisplay = true;
    app.checkbox_startupnotify = false;
    let record = app.desktop_entry();
    let mut back = App::new(None, true);
    back.load_record(&record);
    for i in [IDX_NAME, IDX_EXEC, IDX_ICON, IDX_VERSION, IDX_COMMENT, IDX_ACTION, IDX_TYPE, IDX_CATEGORY] {
        assert_eq!(text(&back, i), text(&app, i));
    }
    assert_eq!(back.checkbox_nodisplay, true);
    assert_eq!(back.checkbox_startupnotify, false);
    assert_eq!(back.checkbox_terminal, false);
}

#[test]
fn entry_helpers() {
    assert_eq!(entry_line("Name", "x=y"), "Name=x=y");
    assert_eq!(bool_str(true), "true");
    assert_eq!(bool_str(false), "false");
    assert_eq!(split_line("a=b=c"), Some(("a", "b=c")));
    assert_eq!(split_line("abc"), None);
    assert_eq!(split_line("=v"), Some(("", "v")));
    assert!(toggle_value("true", false));
    assert!(!toggle_value("false", true));
    assert!(toggle_value("yes", true));
}
