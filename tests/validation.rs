use deskforge::fields::{field_kind, FieldKind, IDX_EXEC, IDX_ICON, IDX_NAME, IDX_SAVE, IDX_TYPE};
use deskforge::input::TextField;
use deskforge::state::App;
use deskforge::validate::{
    exec_verdict_for, extension_verdict_for, find_exec_candidate, known_scheme, link_verdict_for,
    name_verdict_for, PathProbe, Tone, Verdict,
};

const ICON_EXTS: [&str; 3] = ["png", "svg", "jpg"];

fn probe(whole: bool, exists: bool, exec: bool) -> PathProbe {
    PathProbe { whole_exists: whole, target_exists: exists, target_executable: exec }
}

fn form(ty: &str, slot: &str, focus: usize) -> App {
    let mut app = App::new(Some("Foo".to_string()), false);
    app.input[IDX_TYPE] = TextField::from_str(ty);
    app.input[IDX_EXEC] = TextField::from_str(slot);
    app.block_index = focus;
    app
}

#[test]
fn unfocused_fields_get_no_verdict() {
    let app = form("Application", "", IDX_NAME);
    assert_eq!(app.path_verdict("", &[], IDX_EXEC, probe(false, false, false), None), Verdict::Blank);
    assert_eq!(app.validate_path("/nope", &[], IDX_EXEC), Verdict::Blank);
}

#[test]
fn exec_existing_but_not_executable_is_wrong_type() {
    let app = form("Application", "/etc/passwd", IDX_EXEC);
    let v = app.path_verdict("/etc/passwd", &[], IDX_EXEC, probe(true, true, false), None);
    assert_eq!(v, Verdict::WrongType);
    assert_eq!(app.validate_path("/etc/passwd", &[], IDX_EXEC), Verdict::WrongType);
}

#[test]
fn exec_verdicts() {
    let app = form("Application", "", IDX_EXEC);
    assert_eq!(app.path_verdict("  ", &[], IDX_EXEC, probe(false, false, false), None), Verdict::Empty);
    assert_eq!(app.path_verdict("/x/y", &[], IDX_EXEC, probe(false, false, false), None), Verdict::NotFound);
    assert_eq!(app.path_verdict("/x/y a", &[], IDX_EXEC, probe(true, true, true), None), Verdict::Valid);
    assert_eq!(app.path_verdict("env smb://x", &[], IDX_EXEC, probe(false, false, false), None), Verdict::Valid);
    assert_eq!(app.path_verdict("firefox", &[], IDX_EXEC, probe(false, false, false), None), Verdict::Valid);
    assert_eq!(app.validate_path("/bin/sh -c true", &[], IDX_EXEC), Verdict::Valid);
    assert_eq!(app.validate_path("/no/such/program", &[], IDX_EXEC), Verdict::NotFound);
}

#[test]
fn ignored_for_tolerant_types() {
    let app = form("Directory", "/no/such/dir", IDX_EXEC);
    assert_eq!(app.path_verdict("/no/such/dir", &[], IDX_EXEC, probe(false, false, false), None), Verdict::Ignored);
    let other = form("Application (other)", "", IDX_EXEC);
    assert_eq!(other.validate_path("", &[], IDX_EXEC), Verdict::Ignored);
}

#[test]
fn link_verdicts() {
    let app = form("Link", "", IDX_EXEC);
    assert_eq!(app.path_verdict("", &[], IDX_EXEC, probe(false, false, false), None), Verdict::Empty);
    assert_eq!(app.path_verdict("ftp://x", &[], IDX_EXEC, probe(false, false, false), None), Verdict::InvalidScheme);
    assert_eq!(app.path_verdict("file:///nope", &[], IDX_EXEC, probe(false, false, false), None), Verdict::NotFound);
    assert_eq!(app.path_verdict("file:///tmp", &[], IDX_EXEC, probe(false, true, false), None), Verdict::Valid);
    assert_eq!(app.path_verdict("https://example", &[], IDX_EXEC, probe(false, false, false), None), Verdict::Valid);
    assert_eq!(app.validate_path("file:///", &[], IDX_EXEC), Verdict::Valid);
    assert_eq!(app.validate_path("file:///no/such/file", &[], IDX_EXEC), Verdict::NotFound);
    assert_eq!(link_verdict_for("mailto:a@b", false), Verdict::Valid);
    assert_eq!(link_verdict_for("trash:///", false), Verdict::Valid);
}

#[test]
fn icon_verdicts() {
    let app = form("Application", "", IDX_ICON);
    assert_eq!(app.path_verdict("", &ICON_EXTS, IDX_ICON, probe(false, false, false), None), Verdict::Empty);
    assert_eq!(app.path_verdict("a.PNG", &ICON_EXTS, IDX_ICON, probe(false, false, false), Some("PNG")), Verdict::Valid);
    assert_eq!(app.path_verdict("a.gif", &ICON_EXTS, IDX_ICON, probe(false, false, false), Some("gif")), Verdict::WrongType);
    assert_eq!(app.validate_path("/icons/app.png", &ICON_EXTS, IDX_ICON), Verdict::Valid);
    assert_eq!(app.validate_path(" /icons/app.Svg ", &ICON_EXTS, IDX_ICON), Verdict::Valid);
    assert_eq!(app.validate_path("/icons/app.txt", &ICON_EXTS, IDX_ICON), Verdict::WrongType);
    assert_eq!(app.validate_path("/icons/app", &ICON_EXTS, IDX_ICON), Verdict::WrongType);
}

#[test]
fn extension_allow_list() {
    assert_eq!(extension_verdict_for(Some("jpg"), &ICON_EXTS), Verdict::Valid);
    assert_eq!(extension_verdict_for(Some("JpG"), &ICON_EXTS), Verdict::Valid);
    assert_eq!(extension_verdict_for(Some("jpeg"), &ICON_EXTS), Verdict::WrongType);
    assert_eq!(extension_verdict_for(None, &ICON_EXTS), Verdict::WrongType);
}

#[test]
fn name_verdicts() {
    assert_eq!(name_verdict_for(false, false, "Foo", false), Verdict::Blank);
    assert_eq!(name_verdict_for(true, true, "", true), Verdict::Ignored);
    assert_eq!(name_verdict_for(true, false, "  ", false), Verdict::Empty);
    assert_eq!(name_verdict_for(true, false, "Foo", true), Verdict::AlreadyExists);
    assert_eq!(name_verdict_for(true, false, "Foo", false), Verdict::Valid);
    let app = App::new(Some("Foo".to_string()), true);
    let mut named = app;
    named.block_index = IDX_NAME;
    assert_eq!(named.validate_name("Foo", IDX_NAME), Verdict::Ignored);
}

#[test]
fn exec_candidate_is_first_token_with_a_slash() {
    assert_eq!(find_exec_candidate("env A=1 /usr/bin/x --flag"), Some("/usr/bin/x"));
    assert_eq!(find_exec_candidate("a\tb/c d/e"), Some("b/c"));
    assert_eq!(find_exec_candidate("plain words"), None);
    assert_eq!(exec_verdict_for("x //y", probe(false, false, false)), Verdict::Valid);
}

#[test]
fn schemes() {
    for s in ["file://a", "https://a", "http://a", "mailto:a", "smb://a", "trash:///", "recent:///"] {
        assert!(known_scheme(s));
    }
    assert!(!known_scheme("ftp://a"));
    assert!(!known_scheme("trash://"));
}

#[test]
fn save_gate_needs_a_name() {
    let app = form("Application", "/bin/sh", IDX_SAVE);
    let mut blank = app;
    blank.input[IDX_NAME] = TextField::from_str("   ");
    assert!(!blank.can_save_with(false, true));
    assert!(!blank.can_save());
    assert_eq!(blank.can_save(), blank.can_save());
}

#[test]
fn save_gate_rules() {
    let app = form("Application", "/bin/foo", IDX_SAVE);
    assert!(app.can_save_with(false, true));
    assert!(!app.can_save_with(false, false));
    assert!(!app.can_save_with(true, true));
    assert_eq!(app.can_save_with(false, true), app.can_save_with(false, true));
    let mut editing = form("Application", "/bin/foo", IDX_SAVE);
    editing.edit = true;
    assert!(editing.can_save_with(true, true));
    assert!(!form("Application", "firefox", IDX_SAVE).can_save_with(false, true));
    assert!(form("Application", "x //y", IDX_SAVE).can_save_with(false, false));
    assert!(form("Link", "https://example", IDX_SAVE).can_save_with(false, false));
    assert!(!form("Link", "ftp://example", IDX_SAVE).can_save_with(false, true));
    assert!(!form("Link", "  ", IDX_SAVE).can_save_with(false, true));
    assert!(!form("Link", "file:///nope", IDX_SAVE).can_save_with(false, false));
    assert!(form("Link", "file:///tmp", IDX_SAVE).can_save_with(false, true));
    assert!(form("Directory", "", IDX_SAVE).can_save_with(false, false));
}

#[test]
fn verdict_tones_and_labels() {
    assert_eq!(Verdict::Blank.tone(), Tone::Plain);
    assert_eq!(Verdict::NotFound.tone(), Tone::Error);
    assert_eq!(Verdict::InvalidScheme.tone(), Tone::Warning);
    assert_eq!(Verdict::Ignored.tone(), Tone::Success);
    assert_eq!(Verdict::Valid.label(), " - OK");
    assert_eq!(Verdict::AlreadyExists.label(), " - Already exists");
}

#[test]
fn field_kinds() {
    assert_eq!(field_kind(IDX_NAME), FieldKind::Text);
    assert_eq!(field_kind(IDX_EXEC), FieldKind::Path);
    assert_eq!(field_kind(IDX_TYPE), FieldKind::Choice);
    assert_eq!(field_kind(6), FieldKind::Toggle);
    assert_eq!(field_kind(IDX_SAVE), FieldKind::Action);
}
