//! Laws of the form: how focus moves under repeated keys, the `gg`
//! sequence, the dropdown's wraparound, the save gate, the verdict on a
//! non-executable program, and the record round trip.
use crate::fields::{
    CATEGORY_NONE, IDX_ACTION, IDX_CANCEL, IDX_CATEGORY, IDX_COMMENT, IDX_EXEC, IDX_ICON,
    IDX_NAME, IDX_TYPE, IDX_VERSION, NUM_BLOCK, TYPE_APPLICATION_OTHER, TYPE_DIRECTORY, TYPE_LINK,
};
use crate::input::{KeyCode, KeyPress};
use crate::record::{
    apply_entry, bool_text, category_text, entry, load_line, load_lines, record_lines, split_entry,
    toggle_from,
    FALSE_TEXT, HEADER, KEY_ACTIONS, KEY_CATEGORY, KEY_COMMENT, KEY_EXEC, KEY_ICON, KEY_NAME,
    KEY_NODISPLAY, KEY_STARTUPNOTIFY, KEY_TERMINAL, KEY_TYPE, KEY_URL, KEY_VERSION, TRUE_TEXT,
};
use crate::state::{run, set_text, step, Form, InputMode};
use crate::text::{first_index_of, has_double_slash, lemma_first_index_of, trim};
use crate::validate::{exec_candidate, path_verdict, save_gate, PathProbe, Verdict};
use vstd::arithmetic::div_mod::{lemma_add_mod_noop, lemma_small_mod};
use vstd::prelude::*;

verus! {

pub open spec fn all_code(keys: Seq<KeyPress>, code: KeyCode) -> bool {
    forall|i: int| 0 <= i < keys.len() ==> (#[trigger] keys[i]).code == code
}

pub open spec fn min(a: int, b: int) -> int {
    if a <= b {
        a
    } else {
        b
    }
}

proof fn lemma_run_last(f: Form, keys: Seq<KeyPress>, gate: bool, i: int)
    requires
        0 <= i < keys.len(),
    ensures
        run(f, keys.take(i + 1), gate) == step(run(f, keys.take(i), gate), keys[i], gate),
{
    assert(keys.take(i + 1).drop_last() =~= keys.take(i));
}

proof fn lemma_down_step(f: Form, key: KeyPress, gate: bool)
    requires
        0 <= f.focus < NUM_BLOCK,
        key.code == KeyCode::Down,
    ensures
        step(f, key, gate).mode == f.mode,
        f.mode == InputMode::Normal ==> step(f, key, gate).focus == min(f.focus + 1, IDX_CANCEL as int),
        f.mode == InputMode::Insert ==> step(f, key, gate).focus == f.focus,
{
}

proof fn lemma_up_step(f: Form, key: KeyPress, gate: bool)
    requires
        0 <= f.focus < NUM_BLOCK,
        key.code == KeyCode::Up,
    ensures
        step(f, key, gate).mode == f.mode,
        f.mode == InputMode::Normal ==> step(f, key, gate).focus == if f.focus == 0 {
            0
        } else {
            f.focus - 1
        },
        f.mode == InputMode::Insert ==> step(f, key, gate).focus == f.focus,
{
}

proof fn lemma_down_run(f: Form, keys: Seq<KeyPress>, gate: bool)
    requires
        0 <= f.focus < NUM_BLOCK,
        all_code(keys, KeyCode::Down),
    ensures
        run(f, keys, gate).mode == f.mode,
        f.focus <= run(f, keys, gate).focus <= IDX_CANCEL,
        f.mode == InputMode::Normal ==> run(f, keys, gate).focus == min(
            f.focus + keys.len(),
            IDX_CANCEL as int,
        ),
        f.mode == InputMode::Insert ==> run(f, keys, gate).focus == f.focus,
    decreases keys.len(),
{
    if keys.len() > 0 {
        let prev = keys.drop_last();
        assert(all_code(prev, KeyCode::Down)) by {
            assert forall|i: int| 0 <= i < prev.len() implies (#[trigger] prev[i]).code
                == KeyCode::Down by {
                assert(prev[i] == keys[i]);
            }
        }
        lemma_down_run(f, prev, gate);
        lemma_down_step(run(f, prev, gate), keys.last(), gate);
    }
}

/// Down keys never move the focus up and never past Cancel: from any
/// focus, each Down leaves the focus where it was or one field lower, and
/// in Normal mode `n` Downs reach `min(focus + n, Cancel)`.
pub proof fn lemma_down_keys_monotone(f: Form, keys: Seq<KeyPress>, gate: bool)
    requires
        0 <= f.focus < NUM_BLOCK,
        all_code(keys, KeyCode::Down),
    ensures
        forall|i: int|
            0 <= i < keys.len() ==> run(f, keys.take(i), gate).focus <= #[trigger] run(
                f,
                keys.take(i + 1),
                gate,
            ).focus <= IDX_CANCEL,
        f.focus <= run(f, keys, gate).focus <= IDX_CANCEL,
        f.mode == InputMode::Normal ==> run(f, keys, gate).focus == min(
            f.focus + keys.len(),
            IDX_CANCEL as int,
        ),
{
    lemma_down_run(f, keys, gate);
    assert forall|i: int| 0 <= i < keys.len() implies run(f, keys.take(i), gate).focus
        <= #[trigger] run(f, keys.take(i + 1), gate).focus <= IDX_CANCEL by {
        let prefix = keys.take(i);
        assert(all_code(prefix, KeyCode::Down)) by {
            assert forall|j: int| 0 <= j < prefix.len() implies (#[trigger] prefix[j]).code
                == KeyCode::Down by {
                assert(prefix[j] == keys[j]);
            }
        }
        lemma_down_run(f, prefix, gate);
        lemma_run_last(f, keys, gate, i);
        lemma_down_step(run(f, prefix, gate), keys[i], gate);
    }
}

proof fn lemma_up_run(f: Form, keys: Seq<KeyPress>, gate: bool)
    requires
        0 <= f.focus < NUM_BLOCK,
        all_code(keys, KeyCode::Up),
    ensures
        run(f, keys, gate).mode == f.mode,
        IDX_NAME <= run(f, keys, gate).focus <= f.focus,
        f.mode == InputMode::Normal ==> run(f, keys, gate).focus == if keys.len() >= f.focus {
            0
        } else {
            f.focus - keys.len()
        },
    decreases keys.len(),
{
    if keys.len() > 0 {
        let prev = keys.drop_last();
        assert(all_code(prev, KeyCode::Up)) by {
            assert forall|i: int| 0 <= i < prev.len() implies (#[trigger] prev[i]).code
                == KeyCode::Up by {
                assert(prev[i] == keys[i]);
            }
        }
        lemma_up_run(f, prev, gate);
        lemma_up_step(run(f, prev, gate), keys.last(), gate);
    }
}

/// Up keys never move the focus down and stop at Name: each Up leaves the
/// focus where it was or one field higher, and in Normal mode as many Ups
/// as the focus index reach Name.
pub proof fn lemma_up_keys_monotone(f: Form, keys: Seq<KeyPress>, gate: bool)
    requires
        0 <= f.focus < NUM_BLOCK,
        all_code(keys, KeyCode::Up),
    ensures
        forall|i: int|
            0 <= i < keys.len() ==> IDX_NAME <= #[trigger] run(f, keys.take(i + 1), gate).focus
                <= run(f, keys.take(i), gate).focus,
        IDX_NAME <= run(f, keys, gate).focus <= f.focus,
        f.mode == InputMode::Normal && keys.len() >= f.focus ==> run(f, keys, gate).focus
            == IDX_NAME,
{
    lemma_up_run(f, keys, gate);
    assert forall|i: int| 0 <= i < keys.len() implies IDX_NAME <= #[trigger] run(
        f,
        keys.take(i + 1),
        gate,
    ).focus <= run(f, keys.take(i), gate).focus by {
        let prefix = keys.take(i);
        assert(all_code(prefix, KeyCode::Up)) by {
            assert forall|j: int| 0 <= j < prefix.len() implies (#[trigger] prefix[j]).code
                == KeyCode::Up by {
                assert(prefix[j] == keys[j]);
            }
        }
        lemma_up_run(f, prefix, gate);
        lemma_run_last(f, keys, gate, i);
        lemma_up_step(run(f, prefix, gate), keys[i], gate);
    }
}

/// In Normal mode, `g` then `g` puts the focus on Name, whatever key came
/// before, and leaves the form in Normal mode.
pub proof fn lemma_gg_focuses_name(f: Form, g1: KeyPress, g2: KeyPress, gate: bool)
    requires
        f.mode == InputMode::Normal,
        g1.code == KeyCode::Char('g'),
        g2.code == KeyCode::Char('g'),
    ensures
        step(step(f, g1, gate), g2, gate).focus == IDX_NAME,
        step(step(f, g1, gate), g2, gate).mode == InputMode::Normal,
{
}

proof fn lemma_dropdown_down_step(f: Form, key: KeyPress, gate: bool)
    requires
        f.wf(),
        f.mode == InputMode::Insert,
        f.target == Some(f.focus),
        key.code == KeyCode::Down,
    ensures
        step(f, key, gate).wf(),
        step(f, key, gate).mode == InputMode::Insert,
        step(f, key, gate).target == f.target,
        step(f, key, gate).focus == f.focus,
        step(f, key, gate).options == f.options,
        step(f, key, gate).selected == (f.selected + 1) % (f.options.len() as int),
{
    let n = f.options.len() as int;
    assert(0 <= (f.selected + 1) % n < n);
}

proof fn lemma_dropdown_down_run(f: Form, keys: Seq<KeyPress>, gate: bool)
    requires
        f.wf(),
        f.mode == InputMode::Insert,
        f.target == Some(f.focus),
        all_code(keys, KeyCode::Down),
    ensures
        run(f, keys, gate).wf(),
        run(f, keys, gate).mode == InputMode::Insert,
        run(f, keys, gate).target == f.target,
        run(f, keys, gate).focus == f.focus,
        run(f, keys, gate).options == f.options,
        run(f, keys, gate).selected == (f.selected + keys.len()) % (f.options.len() as int),
    decreases keys.len(),
{
    let n = f.options.len() as int;
    if keys.len() == 0 {
        lemma_small_mod(f.selected as nat, n as nat);
    } else {
        let prev = keys.drop_last();
        assert(all_code(prev, KeyCode::Down)) by {
            assert forall|i: int| 0 <= i < prev.len() implies (#[trigger] prev[i]).code
                == KeyCode::Down by {
                assert(prev[i] == keys[i]);
            }
        }
        lemma_dropdown_down_run(f, prev, gate);
        lemma_dropdown_down_step(run(f, prev, gate), keys.last(), gate);
        let x = f.selected + prev.len();
        lemma_add_mod_noop(x, 1, n);
        if n > 1 {
            lemma_small_mod(1, n as nat);
        }
        assert((x % n + 1) % n == (x + 1) % n);
    }
}

/// With the dropdown open on the focused field, as many Downs as it has
/// options bring the highlight back where it started.
pub proof fn lemma_dropdown_wraps_around(f: Form, keys: Seq<KeyPress>, gate: bool)
    requires
        f.wf(),
        f.mode == InputMode::Insert,
        f.target == Some(f.focus),
        all_code(keys, KeyCode::Down),
        keys.len() == f.options.len(),
    ensures
        run(f, keys, gate).selected == f.selected,
        run(f, keys, gate).target == f.target,
{
    let n = f.options.len() as int;
    lemma_dropdown_down_run(f, keys, gate);
    assert((f.selected + n) % n == f.selected) by {
        lemma_add_mod_noop(f.selected, n, n);
        lemma_small_mod(f.selected as nat, n as nat);
    }
}

/// With the dropdown open on the focused field and on its first option,
/// Up stays on the first option.
pub proof fn lemma_dropdown_up_clamps(f: Form, key: KeyPress, gate: bool)
    requires
        f.wf(),
        f.mode == InputMode::Insert,
        f.target == Some(f.focus),
        f.selected == 0,
        key.code == KeyCode::Up,
    ensures
        step(f, key, gate).selected == 0,
        step(f, key, gate).target == f.target,
{
}

/// The save gate refuses a form whose Name is blank.
pub proof fn lemma_save_gate_needs_name(f: Form, dest_exists: bool, target_exists: bool)
    requires
        trim(f.texts[IDX_NAME as int]).len() == 0,
    ensures
        !save_gate(f, dest_exists, target_exists),
{
}

/// The save gate is a function of the Name, the Type, the Exec-or-URL
/// text, whether the form edits a record, and the filesystem's answers:
/// two forms that agree on these get the same answer.
pub proof fn lemma_save_gate_determined(
    f1: Form,
    f2: Form,
    dest_exists: bool,
    target_exists: bool,
)
    requires
        f1.texts.len() == NUM_BLOCK,
        f2.texts.len() == NUM_BLOCK,
        f1.texts[IDX_NAME as int] == f2.texts[IDX_NAME as int],
        f1.texts[IDX_TYPE as int] == f2.texts[IDX_TYPE as int],
        f1.texts[IDX_EXEC as int] == f2.texts[IDX_EXEC as int],
        f1.edit == f2.edit,
    ensures
        save_gate(f1, dest_exists, target_exists) == save_gate(f2, dest_exists, target_exists),
{
}

/// A focused Exec line naming a program that exists but is not
/// executable is judged of the wrong type.
pub proof fn lemma_not_executable_is_wrong_type(
    f: Form,
    text: Seq<char>,
    probe: PathProbe,
    ext: Option<Seq<char>>,
)
    requires
        f.focus == IDX_EXEC,
        f.texts[IDX_TYPE as int] != TYPE_LINK@,
        f.texts[IDX_TYPE as int] == TYPE_APPLICATION_OTHER@ || f.texts[IDX_TYPE as int]
            == TYPE_DIRECTORY@ ==> probe.whole_exists,
        exec_candidate(trim(text)) is Some,
        !has_double_slash(trim(text)),
        probe.target_exists,
        !probe.target_executable,
    ensures
        path_verdict(f, text, Seq::empty(), IDX_EXEC as int, probe, ext) == Verdict::WrongType,
{
    let t = trim(text);
    if t.len() == 0 {
        lemma_first_index_of(t, '/', 0);
    }
}

proof fn lemma_split_entry(k: Seq<char>, v: Seq<char>)
    requires
        forall|i: int| 0 <= i < k.len() ==> k[i] != '=',
    ensures
        split_entry(entry(k, v)) == Some((k, v)),
{
    let line = entry(k, v);
    lemma_first_index_of(line, '=', k.len() as int);
    assert(line.take(k.len() as int) =~= k);
    assert(line.skip(k.len() as int + 1) =~= v);
}

proof fn lemma_load_entry(h: Form, k: Seq<char>, v: Seq<char>)
    requires
        forall|i: int| 0 <= i < k.len() ==> k[i] != '=',
    ensures
        load_line(h, entry(k, v)) == apply_entry(h, k, v),
{
    lemma_split_entry(k, v);
}

proof fn lemma_load_lines_unfold(g: Form, lines: Seq<Seq<char>>, i: int)
    requires
        0 <= i < lines.len(),
    ensures
        load_lines(g, lines.skip(i)) == load_lines(load_line(g, lines[i]), lines.skip(i + 1)),
{
    assert(lines.skip(i).drop_first() =~= lines.skip(i + 1));
}

/// Two texts that differ in length, or in one of their first two
/// characters, differ.
proof fn lemma_texts_differ(a: Seq<char>, b: Seq<char>)
    requires
        a.len() != b.len() || (a.len() > 1 && b.len() > 1 && (a[0] != b[0] || a[1] != b[1])),
    ensures
        a != b,
{
}

/// The keys of a record, and its header, hold no `=`.
proof fn lemma_keys_without_eq()
    ensures
        forall|i: int| 0 <= i < KEY_NAME@.len() ==> KEY_NAME@[i] != '=',
        forall|i: int| 0 <= i < KEY_EXEC@.len() ==> KEY_EXEC@[i] != '=',
        forall|i: int| 0 <= i < KEY_URL@.len() ==> KEY_URL@[i] != '=',
        forall|i: int| 0 <= i < KEY_ICON@.len() ==> KEY_ICON@[i] != '=',
        forall|i: int| 0 <= i < KEY_VERSION@.len() ==> KEY_VERSION@[i] != '=',
        forall|i: int| 0 <= i < KEY_COMMENT@.len() ==> KEY_COMMENT@[i] != '=',
        forall|i: int| 0 <= i < KEY_ACTIONS@.len() ==> KEY_ACTIONS@[i] != '=',
        forall|i: int| 0 <= i < KEY_NODISPLAY@.len() ==> KEY_NODISPLAY@[i] != '=',
        forall|i: int| 0 <= i < KEY_STARTUPNOTIFY@.len() ==> KEY_STARTUPNOTIFY@[i] != '=',
        forall|i: int| 0 <= i < KEY_TERMINAL@.len() ==> KEY_TERMINAL@[i] != '=',
        forall|i: int| 0 <= i < KEY_TYPE@.len() ==> KEY_TYPE@[i] != '=',
        forall|i: int| 0 <= i < KEY_CATEGORY@.len() ==> KEY_CATEGORY@[i] != '=',
        forall|i: int| 0 <= i < HEADER@.len() ==> HEADER@[i] != '=',
{
    reveal_strlit("Name");
    reveal_strlit("Exec");
    reveal_strlit("URL");
    reveal_strlit("Icon");
    reveal_strlit("Version");
    reveal_strlit("Comment");
    reveal_strlit("Actions");
    reveal_strlit("NoDisplay");
    reveal_strlit("StartupNotify");
    reveal_strlit("Terminal");
    reveal_strlit("Type");
    reveal_strlit("Category");
    reveal_strlit("[Desktop Entry]");
}

// Each `lemma_apply_*` states the field that one record key fills.
proof fn lemma_apply_name(h: Form, v: Seq<char>)
    ensures
        apply_entry(h, KEY_NAME@, v) == set_text(h, IDX_NAME as int, v),
{
    reveal_strlit("Name");
}

proof fn lemma_apply_exec(h: Form, v: Seq<char>)
    ensures
        apply_entry(h, KEY_EXEC@, v) == set_text(h, IDX_EXEC as int, v),
{
    reveal_strlit("Name");
    reveal_strlit("Exec");
    lemma_texts_differ(KEY_EXEC@, KEY_NAME@);
}

proof fn lemma_apply_url(h: Form, v: Seq<char>)
    ensures
        apply_entry(h, KEY_URL@, v) == set_text(h, IDX_EXEC as int, v),
{
    reveal_strlit("Name");
    reveal_strlit("Exec");
    reveal_strlit("URL");
    lemma_texts_differ(KEY_URL@, KEY_NAME@);
    lemma_texts_differ(KEY_URL@, KEY_EXEC@);
}

proof fn lemma_apply_icon(h: Form, v: Seq<char>)
    ensures
        apply_entry(h, KEY_ICON@, v) == set_text(h, IDX_ICON as int, v),
{
    reveal_strlit("Name");
    reveal_strlit("Exec");
    reveal_strlit("URL");
    reveal_strlit("Icon");
    lemma_texts_differ(KEY_ICON@, KEY_NAME@);
    lemma_texts_differ(KEY_ICON@, KEY_EXEC@);
    lemma_texts_differ(KEY_ICON@, KEY_URL@);
}

proof fn lemma_apply_version(h: Form, v: Seq<char>)
    ensures
        apply_entry(h, KEY_VERSION@, v) == set_text(h, IDX_VERSION as int, v),
{
    reveal_strlit("Name");
    reveal_strlit("Exec");
    reveal_strlit("URL");
    reveal_strlit("Icon");
    reveal_strlit("Version");
    lemma_texts_differ(KEY_VERSION@, KEY_NAME@);
    lemma_texts_differ(KEY_VERSION@, KEY_EXEC@);
    lemma_texts_differ(KEY_VERSION@, KEY_URL@);
    lemma_texts_differ(KEY_VERSION@, KEY_ICON@);
}

proof fn lemma_apply_comment(h: Form, v: Seq<char>)
    ensures
        apply_entry(h, KEY_COMMENT@, v) == set_text(h, IDX_COMMENT as int, v),
{
    reveal_strlit("Name");
    reveal_strlit("Exec");
    reveal_strlit("URL");
    reveal_strlit("Icon");
    reveal_strlit("Version");
    reveal_strlit("Comment");
    lemma_texts_differ(KEY_COMMENT@, KEY_NAME@);
    lemma_texts_differ(KEY_COMMENT@, KEY_EXEC@);
    lemma_texts_differ(KEY_COMMENT@, KEY_URL@);
    lemma_texts_differ(KEY_COMMENT@, KEY_ICON@);
    lemma_texts_differ(KEY_COMMENT@, KEY_VERSION@);
}

proof fn lemma_apply_actions(h: Form, v: Seq<char>)
    ensures
        apply_entry(h, KEY_ACTIONS@, v) == set_text(h, IDX_ACTION as int, v),
{
    reveal_strlit("Name");
    reveal_strlit("Exec");
    reveal_strlit("URL");
    reveal_strlit("Icon");
    reveal_strlit("Version");
    reveal_strlit("Comment");
    reveal_strlit("Actions");
    lemma_texts_differ(KEY_ACTIONS@, KEY_NAME@);
    lemma_texts_differ(KEY_ACTIONS@, KEY_EXEC@);
    lemma_texts_differ(KEY_ACTIONS@, KEY_URL@);
    lemma_texts_differ(KEY_ACTIONS@, KEY_ICON@);
    lemma_texts_differ(KEY_ACTIONS@, KEY_VERSION@);
    lemma_texts_differ(KEY_ACTIONS@, KEY_COMMENT@);
}

proof fn lemma_apply_nodisplay(h: Form, v: Seq<char>)
    ensures
        apply_entry(h, KEY_NODISPLAY@, v) == (Form { nodisplay: toggle_from(v, h.nodisplay), ..h }),
{
    reveal_strlit("Name");
    reveal_strlit("Exec");
    reveal_strlit("URL");
    reveal_strlit("Icon");
    reveal_strlit("Version");
    reveal_strlit("Comment");
    reveal_strlit("Actions");
    reveal_strlit("NoDisplay");
    lemma_texts_differ(KEY_NODISPLAY@, KEY_NAME@);
    lemma_texts_differ(KEY_NODISPLAY@, KEY_EXEC@);
    lemma_texts_differ(KEY_NODISPLAY@, KEY_URL@);
    lemma_texts_differ(KEY_NODISPLAY@, KEY_ICON@);
    lemma_texts_differ(KEY_NODISPLAY@, KEY_VERSION@);
    lemma_texts_differ(KEY_NODISPLAY@, KEY_COMMENT@);
    lemma_texts_differ(KEY_NODISPLAY@, KEY_ACTIONS@);
}

proof fn lemma_apply_startupnotify(h: Form, v: Seq<char>)
    ensures
        apply_entry(h, KEY_STARTUPNOTIFY@, v) == (Form {
            startupnotify: toggle_from(v, h.startupnotify),
            ..h
        }),
{
    reveal_strlit("Name");
    reveal_strlit("Exec");
    reveal_strlit("URL");
    reveal_strlit("Icon");
    reveal_strlit("Version");
    reveal_strlit("Comment");
    reveal_strlit("Actions");
    reveal_strlit("NoDisplay");
    reveal_strlit("StartupNotify");
    lemma_texts_differ(KEY_STARTUPNOTIFY@, KEY_NAME@);
    lemma_texts_differ(KEY_STARTUPNOTIFY@, KEY_EXEC@);
    lemma_texts_differ(KEY_STARTUPNOTIFY@, KEY_URL@);
    lemma_texts_differ(KEY_STARTUPNOTIFY@, KEY_ICON@);
    lemma_texts_differ(KEY_STARTUPNOTIFY@, KEY_VERSION@);
    lemma_texts_differ(KEY_STARTUPNOTIFY@, KEY_COMMENT@);
    lemma_texts_differ(KEY_STARTUPNOTIFY@, KEY_ACTIONS@);
    lemma_texts_differ(KEY_STARTUPNOTIFY@, KEY_NODISPLAY@);
}

proof fn lemma_apply_terminal(h: Form, v: Seq<char>)
    ensures
        apply_entry(h, KEY_TERMINAL@, v) == (Form { terminal: toggle_from(v, h.terminal), ..h }),
{
    reveal_strlit("Name");
    reveal_strlit("Exec");
    reveal_strlit("URL");
    reveal_strlit("Icon");
    reveal_strlit("Version");
    reveal_strlit("Comment");
    reveal_strlit("Actions");
    reveal_strlit("NoDisplay");
    reveal_strlit("StartupNotify");
    reveal_strlit("Terminal");
    lemma_texts_differ(KEY_TERMINAL@, KEY_NAME@);
    lemma_texts_differ(KEY_TERMINAL@, KEY_EXEC@);
    lemma_texts_differ(KEY_TERMINAL@, KEY_URL@);
    lemma_texts_differ(KEY_TERMINAL@, KEY_ICON@);
    lemma_texts_differ(KEY_TERMINAL@, KEY_VERSION@);
    lemma_texts_differ(KEY_TERMINAL@, KEY_COMMENT@);
    lemma_texts_differ(KEY_TERMINAL@, KEY_ACTIONS@);
    lemma_texts_differ(KEY_TERMINAL@, KEY_NODISPLAY@);
    lemma_texts_differ(KEY_TERMINAL@, KEY_STARTUPNOTIFY@);
}

proof fn lemma_apply_type(h: Form, v: Seq<char>)
    ensures
        apply_entry(h, KEY_TYPE@, v) == set_text(h, IDX_TYPE as int, v),
{
    reveal_strlit("Name");
    reveal_strlit("Exec");
    reveal_strlit("URL");
    reveal_strlit("Icon");
    reveal_strlit("Version");
    reveal_strlit("Comment");
    reveal_strlit("Actions");
    reveal_strlit("NoDisplay");
    reveal_strlit("StartupNotify");
    reveal_strlit("Terminal");
    reveal_strlit("Type");
    lemma_texts_differ(KEY_TYPE@, KEY_NAME@);
    lemma_texts_differ(KEY_TYPE@, KEY_EXEC@);
    lemma_texts_differ(KEY_TYPE@, KEY_URL@);
    lemma_texts_differ(KEY_TYPE@, KEY_ICON@);
    lemma_texts_differ(KEY_TYPE@, KEY_VERSION@);
    lemma_texts_differ(KEY_TYPE@, KEY_COMMENT@);
    lemma_texts_differ(KEY_TYPE@, KEY_ACTIONS@);
    lemma_texts_differ(KEY_TYPE@, KEY_NODISPLAY@);
    lemma_texts_differ(KEY_TYPE@, KEY_STARTUPNOTIFY@);
    lemma_texts_differ(KEY_TYPE@, KEY_TERMINAL@);
}

proof fn lemma_apply_category(h: Form, v: Seq<char>)
    ensures
        apply_entry(h, KEY_CATEGORY@, v) == (set_text(
            h,
            IDX_CATEGORY as int,
            if v.len() == 0 {
                CATEGORY_NONE@
            } else {
                v
            },
        )),
{
    reveal_strlit("Name");
    reveal_strlit("Exec");
    reveal_strlit("URL");
    reveal_strlit("Icon");
    reveal_strlit("Version");
    reveal_strlit("Comment");
    reveal_strlit("Actions");
    reveal_strlit("NoDisplay");
    reveal_strlit("StartupNotify");
    reveal_strlit("Terminal");
    reveal_strlit("Type");
    reveal_strlit("Category");
    lemma_texts_differ(KEY_CATEGORY@, KEY_NAME@);
    lemma_texts_differ(KEY_CATEGORY@, KEY_EXEC@);
    lemma_texts_differ(KEY_CATEGORY@, KEY_URL@);
    lemma_texts_differ(KEY_CATEGORY@, KEY_ICON@);
    lemma_texts_differ(KEY_CATEGORY@, KEY_VERSION@);
    lemma_texts_differ(KEY_CATEGORY@, KEY_COMMENT@);
    lemma_texts_differ(KEY_CATEGORY@, KEY_ACTIONS@);
    lemma_texts_differ(KEY_CATEGORY@, KEY_NODISPLAY@);
    lemma_texts_differ(KEY_CATEGORY@, KEY_STARTUPNOTIFY@);
    lemma_texts_differ(KEY_CATEGORY@, KEY_TERMINAL@);
    lemma_texts_differ(KEY_CATEGORY@, KEY_TYPE@);
}

proof fn lemma_toggle_round_trip(b: bool, current: bool)
    ensures
        toggle_from(bool_text(b), current) == b,
{
    reveal_strlit("true");
    reveal_strlit("false");
    assert(TRUE_TEXT@.len() != FALSE_TEXT@.len());
}

/// Saving a form and loading the record into any form gives back the
/// Name, Exec-or-URL, Icon, Version, Comment, Actions, Type and Category
/// texts and the three toggles. A Category left empty is read back as
/// `None`, the value that is written empty; any other Category comes back
/// as it was.
pub proof fn lemma_record_round_trip(f: Form, g: Form)
    requires
        f.texts.len() == NUM_BLOCK,
        g.texts.len() == NUM_BLOCK,
        g.cursors.len() == NUM_BLOCK,
    ensures
        ({
            let h = load_lines(g, record_lines(f));
            &&& h.texts[IDX_NAME as int] == f.texts[IDX_NAME as int]
            &&& h.texts[IDX_EXEC as int] == f.texts[IDX_EXEC as int]
            &&& h.texts[IDX_ICON as int] == f.texts[IDX_ICON as int]
            &&& h.texts[IDX_VERSION as int] == f.texts[IDX_VERSION as int]
            &&& h.texts[IDX_COMMENT as int] == f.texts[IDX_COMMENT as int]
            &&& h.texts[IDX_ACTION as int] == f.texts[IDX_ACTION as int]
            &&& h.texts[IDX_TYPE as int] == f.texts[IDX_TYPE as int]
            &&& f.texts[IDX_CATEGORY as int].len() > 0 ==> h.texts[IDX_CATEGORY as int]
                == f.texts[IDX_CATEGORY as int]
            &&& f.texts[IDX_CATEGORY as int].len() == 0 ==> h.texts[IDX_CATEGORY as int]
                == CATEGORY_NONE@
            &&& h.nodisplay == f.nodisplay
            &&& h.startupnotify == f.startupnotify
            &&& h.terminal == f.terminal
        }),
{
    let lines = record_lines(f);
    lemma_keys_without_eq();
    assert(lines.skip(0) =~= lines);
    assert(lines.skip(12) =~= Seq::<Seq<char>>::empty());
    lemma_first_index_of(HEADER@, '=', HEADER@.len() as int);
    let h1 = load_line(g, lines[0]);
    lemma_load_lines_unfold(g, lines, 0);
    let h2 = load_line(h1, lines[1]);
    lemma_load_lines_unfold(h1, lines, 1);
    lemma_load_entry(h1, KEY_NAME@, f.texts[IDX_NAME as int]);
    lemma_apply_name(h1, f.texts[IDX_NAME as int]);
    let h3 = load_line(h2, lines[2]);
    lemma_load_lines_unfold(h2, lines, 2);
    lemma_load_entry(h2, KEY_URL@, f.texts[IDX_EXEC as int]);
    lemma_load_entry(h2, KEY_EXEC@, f.texts[IDX_EXEC as int]);
    lemma_apply_url(h2, f.texts[IDX_EXEC as int]);
    lemma_apply_exec(h2, f.texts[IDX_EXEC as int]);
    let h4 = load_line(h3, lines[3]);
    lemma_load_lines_unfold(h3, lines, 3);
    lemma_load_entry(h3, KEY_ICON@, f.texts[IDX_ICON as int]);
    lemma_apply_icon(h3, f.texts[IDX_ICON as int]);
    let h5 = load_line(h4, lines[4]);
    lemma_load_lines_unfold(h4, lines, 4);
    lemma_load_entry(h4, KEY_VERSION@, f.texts[IDX_VERSION as int]);
    lemma_apply_version(h4, f.texts[IDX_VERSION as int]);
    let h6 = load_line(h5, lines[5]);
    lemma_load_lines_unfold(h5, lines, 5);
    lemma_load_entry(h5, KEY_COMMENT@, f.texts[IDX_COMMENT as int]);
    lemma_apply_comment(h5, f.texts[IDX_COMMENT as int]);
    let h7 = load_line(h6, lines[6]);
    lemma_load_lines_unfold(h6, lines, 6);
    lemma_load_entry(h6, KEY_ACTIONS@, f.texts[IDX_ACTION as int]);
    lemma_apply_actions(h6, f.texts[IDX_ACTION as int]);
    let h8 = load_line(h7, lines[7]);
    lemma_load_lines_unfold(h7, lines, 7);
    lemma_load_entry(h7, KEY_NODISPLAY@, bool_text(f.nodisplay));
    lemma_apply_nodisplay(h7, bool_text(f.nodisplay));
    lemma_toggle_round_trip(f.nodisplay, h7.nodisplay);
    let h9 = load_line(h8, lines[8]);
    lemma_load_lines_unfold(h8, lines, 8);
    lemma_load_entry(h8, KEY_STARTUPNOTIFY@, bool_text(f.startupnotify));
    lemma_apply_startupnotify(h8, bool_text(f.startupnotify));
    lemma_toggle_round_trip(f.startupnotify, h8.startupnotify);
    let h10 = load_line(h9, lines[9]);
    lemma_load_lines_unfold(h9, lines, 9);
    lemma_load_entry(h9, KEY_TERMINAL@, bool_text(f.terminal));
    lemma_apply_terminal(h9, bool_text(f.terminal));
    lemma_toggle_round_trip(f.terminal, h9.terminal);
    let h11 = load_line(h10, lines[10]);
    lemma_load_lines_unfold(h10, lines, 10);
    lemma_load_entry(h10, KEY_TYPE@, f.texts[IDX_TYPE as int]);
    lemma_apply_type(h10, f.texts[IDX_TYPE as int]);
    let h12 = load_line(h11, lines[11]);
    lemma_load_lines_unfold(h11, lines, 11);
    lemma_load_entry(h11, KEY_CATEGORY@, category_text(f.texts[IDX_CATEGORY as int]));
    lemma_apply_category(h11, category_text(f.texts[IDX_CATEGORY as int]));
    assert(load_lines(g, lines) == h12);
    assert(f.texts[IDX_CATEGORY as int].len() > 0 && category_text(f.texts[IDX_CATEGORY as int]).len()
        == 0 ==> f.texts[IDX_CATEGORY as int] == CATEGORY_NONE@);
}

} // verus!
