use deskforge::fields::{
    IDX_CANCEL, IDX_CATEGORY, IDX_COMMENT, IDX_EXEC, IDX_NAME, IDX_NODISPLAY, IDX_SAVE,
    IDX_TERMINAL, IDX_TYPE,
};
use deskforge::input::{Event, KeyCode, KeyKind, KeyPress, CONTROL};
use deskforge::state::{App, Effect, InputMode, PendingKey};
use deskforge::validate::BlockStyle;

fn key(code: KeyCode) -> KeyPress {
    KeyPress { code, modifiers: 0, kind: KeyKind::Press }
}

fn ch(c: char) -> KeyPress {
    key(KeyCode::Char(c))
}

fn text(app: &App, i: usize) -> String {
    app.input[i].value().to_string()
}

fn press_all(app: &mut App, keys: &[KeyPress]) {
    for k in keys {
        app.apply_key(*k, false);
    }
}

#[test]
fn new_form_defaults() {
    let app = App::new(None, false);
    assert_eq!(app.block_index, IDX_NAME);
    assert_eq!(app.input_mode, InputMode::Normal);
    assert_eq!(text(&app, IDX_TYPE), "Application");
    assert_eq!(text(&app, IDX_CATEGORY), "None");
    assert_eq!(text(&app, IDX_NAME), "");
    assert!(!app.checkbox_nodisplay);
    assert!(app.checkbox_startupnotify);
    assert!(!app.checkbox_terminal);
    assert!(!app.exit);
}

#[test]
fn new_form_with_name_focuses_second_field() {
    let app = App::new(Some("Foo".to_string()), false);
    assert_eq!(app.block_index, 1);
    assert_eq!(text(&app, IDX_NAME), "Foo");
    let empty = App::new(Some(String::new()), false);
    assert_eq!(empty.block_index, IDX_NAME);
}

#[test]
fn down_keys_never_decrease_and_stop_at_cancel() {
    let mut app = App::new(None, false);
    let mut last = app.block_index;
    for _ in 0..20 {
        app.apply_key(key(KeyCode::Down), false);
        assert!(app.block_index >= last);
        assert!(app.block_index <= IDX_CANCEL);
        last = app.block_index;
    }
    assert_eq!(app.block_index, IDX_CANCEL);
}

#[test]
fn up_keys_never_increase_and_stop_at_name() {
    let mut app = App::new(None, false);
    app.apply_key(ch('G'), false);
    let mut last = app.block_index;
    for _ in 0..20 {
        app.apply_key(key(KeyCode::Up), false);
        assert!(app.block_index <= last);
        last = app.block_index;
    }
    assert_eq!(app.block_index, IDX_NAME);
}

#[test]
fn j_and_k_move_like_down_and_up() {
    let mut app = App::new(None, false);
    press_all(&mut app, &[ch('j'), ch('j'), ch('j'), ch('k')]);
    assert_eq!(app.block_index, 2);
}

#[test]
fn gg_lands_on_name() {
    let mut app = App::new(None, false);
    press_all(&mut app, &[ch('j'), ch('j'), ch('j'), ch('j'), ch('x'), ch('g'), ch('g')]);
    assert_eq!(app.block_index, IDX_NAME);
    assert_eq!(app.last_key, PendingKey::Nothing);
    press_all(&mut app, &[ch('j'), ch('j'), ch('d'), ch('g'), ch('g')]);
    assert_eq!(app.block_index, IDX_NAME);
}

#[test]
fn single_g_only_waits() {
    let mut app = App::new(None, false);
    press_all(&mut app, &[ch('j'), ch('j'), ch('g')]);
    assert_eq!(app.block_index, 2);
    assert_eq!(app.last_key, PendingKey::G);
    app.apply_key(ch('x'), false);
    assert_eq!(app.last_key, PendingKey::Nothing);
}

#[test]
fn capital_g_jumps_to_save() {
    let mut app = App::new(None, false);
    app.apply_key(ch('G'), false);
    assert_eq!(app.block_index, IDX_SAVE);
}

#[test]
fn dd_clears_the_focused_field() {
    let mut app = App::new(Some("Foo".to_string()), false);
    app.apply_key(key(KeyCode::Up), false);
    press_all(&mut app, &[ch('d'), ch('d')]);
    assert_eq!(text(&app, IDX_NAME), "");
    assert_eq!(app.last_key, PendingKey::Nothing);
}

#[test]
fn typing_in_insert_mode_edits_the_field() {
    let mut app = App::new(None, false);
    app.apply_key(ch('i'), false);
    assert_eq!(app.input_mode, InputMode::Insert);
    press_all(&mut app, &[ch('F'), ch('o'), ch('x'), key(KeyCode::Backspace), ch('o')]);
    assert_eq!(text(&app, IDX_NAME), "Foo");
    press_all(&mut app, &[key(KeyCode::Left), key(KeyCode::Left), ch('j')]);
    assert_eq!(text(&app, IDX_NAME), "Fjoo");
    app.apply_key(key(KeyCode::Enter), false);
    assert_eq!(app.block_index, IDX_EXEC);
    assert_eq!(app.input_mode, InputMode::Insert);
    app.apply_key(key(KeyCode::Esc), false);
    assert_eq!(app.input_mode, InputMode::Normal);
    assert_eq!(app.block_index, IDX_EXEC);
}

#[test]
fn enter_on_comment_returns_to_normal_mode() {
    let mut app = App::new(None, false);
    app.block_index = IDX_COMMENT;
    app.apply_key(ch('i'), false);
    press_all(&mut app, &[ch('h'), ch('i'), key(KeyCode::Enter)]);
    assert_eq!(text(&app, IDX_COMMENT), "hi");
    assert_eq!(app.input_mode, InputMode::Normal);
    assert_eq!(app.block_index, IDX_COMMENT + 1);
}

#[test]
fn activating_a_toggle_flips_it_and_moves_on() {
    let mut app = App::new(None, false);
    app.block_index = IDX_NODISPLAY;
    app.apply_key(ch('i'), false);
    assert!(app.checkbox_nodisplay);
    assert_eq!(app.block_index, IDX_NODISPLAY + 1);
    assert_eq!(app.input_mode, InputMode::Normal);
}

#[test]
fn enter_on_a_toggle_in_insert_mode_flips_it() {
    let mut app = App::new(None, false);
    app.block_index = IDX_TERMINAL;
    app.input_mode = InputMode::Insert;
    app.apply_key(key(KeyCode::Enter), false);
    assert!(app.checkbox_terminal);
    assert_eq!(app.block_index, IDX_TYPE);
}

#[test]
fn type_dropdown_wraps_around() {
    let mut app = App::new(None, false);
    app.block_index = IDX_TYPE;
    app.apply_key(ch('i'), false);
    assert!(app.dropdown_open);
    assert_eq!(app.dropdown_index, Some(IDX_TYPE));
    assert_eq!(app.dropdown_selected, 0);
    let n = app.dropdown_options.len();
    assert_eq!(n, 4);
    app.apply_key(key(KeyCode::Down), false);
    assert_eq!(app.dropdown_selected, 1);
    assert_eq!(text(&app, IDX_TYPE), "Application (other)");
    for _ in 1..n {
        app.apply_key(key(KeyCode::Down), false);
    }
    assert_eq!(app.dropdown_selected, 0);
    assert_eq!(text(&app, IDX_TYPE), "Application");
}

#[test]
fn category_dropdown_up_stays_on_first() {
    let mut app = App::new(None, false);
    app.block_index = IDX_CATEGORY;
    app.apply_key(ch('i'), false);
    assert_eq!(app.dropdown_options.len(), 10);
    app.apply_key(key(KeyCode::Up), false);
    assert_eq!(app.dropdown_selected, 0);
    assert_eq!(text(&app, IDX_CATEGORY), "None");
    app.apply_key(ch('k'), false);
    assert_eq!(app.dropdown_selected, 0);
}

#[test]
fn confirming_the_dropdown_submits_the_field() {
    let mut app = App::new(None, false);
    app.block_index = IDX_TYPE;
    press_all(&mut app, &[ch('i'), ch('j'), ch('j'), key(KeyCode::Enter)]);
    assert_eq!(text(&app, IDX_TYPE), "Link");
    assert!(!app.dropdown_open);
    assert_eq!(app.dropdown_index, None);
    assert_eq!(app.input_mode, InputMode::Normal);
    assert_eq!(app.block_index, IDX_CATEGORY);
    press_all(&mut app, &[ch('i'), ch('j'), ch('i')]);
    assert_eq!(text(&app, IDX_CATEGORY), "Audio");
    assert_eq!(app.block_index, IDX_SAVE);
}

#[test]
fn escape_closes_the_dropdown_keeping_the_preview() {
    let mut app = App::new(None, false);
    app.block_index = IDX_TYPE;
    press_all(&mut app, &[ch('i'), key(KeyCode::Down), key(KeyCode::Esc)]);
    assert!(!app.dropdown_open);
    assert_eq!(app.input_mode, InputMode::Normal);
    assert_eq!(app.block_index, IDX_TYPE);
    assert_eq!(text(&app, IDX_TYPE), "Application (other)");
}

#[test]
fn quit_and_interrupt_set_exit() {
    let mut app = App::new(None, false);
    app.apply_key(ch('q'), false);
    assert!(app.exit);
    let mut other = App::new(None, false);
    other.apply_key(ch('c'), false);
    assert!(!other.exit);
    other.apply_key(KeyPress { code: KeyCode::Char('c'), modifiers: CONTROL, kind: KeyKind::Press }, false);
    assert!(other.exit);
}

#[test]
fn cancel_exits_without_saving() {
    let mut app = App::new(None, false);
    app.block_index = IDX_CANCEL;
    let effect = app.apply_key(ch('i'), true);
    assert!(matches!(effect, Effect::Nothing));
    assert!(app.exit);
}

#[test]
fn save_is_a_no_op_when_the_gate_refuses() {
    let mut app = App::new(Some("Foo".to_string()), false);
    app.block_index = IDX_SAVE;
    let effect = app.apply_key(ch('i'), false);
    assert!(matches!(effect, Effect::Nothing));
    assert!(!app.exit);
    assert_eq!(app.block_index, IDX_SAVE);
}

#[test]
fn save_produces_the_record_when_the_gate_allows() {
    let mut app = App::new(Some("Foo".to_string()), false);
    app.block_index = IDX_SAVE;
    let effect = app.apply_key(ch('i'), true);
    assert!(app.exit);
    match effect {
        Effect::Save { file_name, lines } => {
            assert_eq!(file_name, "Foo.desktop");
            assert_eq!(lines[0], "[Desktop Entry]");
            assert_eq!(lines[1], "Name=Foo");
        }
        Effect::Nothing => panic!("expected a save"),
    }
}

#[test]
fn save_with_blank_name_is_refused_by_the_gate() {
    let mut app = App::new(None, false);
    app.block_index = IDX_SAVE;
    let effect = app.handle_key_input(ch('i'));
    assert!(matches!(effect, Effect::Nothing));
    assert!(!app.exit);
}

#[test]
fn only_key_presses_drive_the_form() {
    let mut app = App::new(None, false);
    app.handle_event(Event::Key(KeyPress { code: KeyCode::Down, modifiers: 0, kind: KeyKind::Release }));
    assert_eq!(app.block_index, IDX_NAME);
    app.handle_event(Event::Resize(80, 24));
    assert_eq!(app.block_index, IDX_NAME);
    app.handle_event(Event::Key(key(KeyCode::Down)));
    assert_eq!(app.block_index, 1);
}

#[test]
fn block_style_follows_focus() {
    let mut app = App::new(None, false);
    assert_eq!(app.is_active_block_style(IDX_NAME), BlockStyle::Active);
    assert_eq!(app.is_active_block_style(IDX_EXEC), BlockStyle::Plain);
    app.block_index = IDX_CANCEL;
    assert_eq!(app.is_active_block_style(IDX_CANCEL), BlockStyle::ActiveCancel);
}

#[test]
fn other_keys_forget_a_pending_first_key() {
    let mut app = App::new(None, false);
    press_all(&mut app, &[ch('j'), ch('j'), ch('g'), ch('j'), ch('g')]);
    assert_eq!(app.block_index, 3);
    assert_eq!(app.last_key, PendingKey::G);
    let mut named = App::new(Some("Foo".to_string()), false);
    press_all(&mut named, &[key(KeyCode::Up), ch('d'), key(KeyCode::Down), key(KeyCode::Up), ch('d')]);
    assert_eq!(text(&named, IDX_NAME), "Foo");
    assert_eq!(named.last_key, PendingKey::D);
}

#[test]
fn open_dropdown_leaves_the_mode_to_its_caller() {
    let mut app = App::new(None, false);
    app.block_index = IDX_TYPE;
    app.open_dropdown(IDX_TYPE, vec!["Link", "Directory"]);
    assert_eq!(app.input_mode, InputMode::Normal);
    assert!(app.dropdown_open);
    assert_eq!(app.dropdown_selected, 0);
    assert_eq!(text(&app, IDX_TYPE), "Link");
}

#[test]
fn enter_leaves_the_typed_text() {
    let mut app = App::new(None, false);
    app.apply_key(ch('i'), false);
    press_all(&mut app, &[ch('a'), ch('b')]);
    app.handle_key_input(key(KeyCode::Enter));
    assert_eq!(text(&app, IDX_NAME), "ab");
    assert_eq!(app.input[IDX_NAME].cursor, 2);
}
