//! The form state machine: focus, Normal/Insert modes, two-key sequences,
//! the dropdown overlay, and the toggles.
//!
//! `Form` is the mathematical model of an `App`; `step` is the transition
//! on one key press, and every method of `App` is proved against it.
use crate::fields::{
    category_option_texts, category_options, type_option_texts, type_options,
    CATEGORY_NONE, IDX_CANCEL, IDX_CATEGORY, IDX_COMMENT, IDX_NAME, IDX_NODISPLAY, IDX_SAVE,
    IDX_STARTUPNOTIFY, IDX_TERMINAL, IDX_TYPE, NUM_BLOCK, TYPE_APPLICATION,
};
use crate::input::{edited_line, plain_edit, Event, KeyCode, KeyKind, KeyPress, TextField};
use crate::record::{desktop_file_name, record_lines};
use crate::text::{opt_string, texts_of};
use crate::validate::save_gate;
use vstd::prelude::*;

verus! {

#[derive(Clone, Copy, Debug, PartialEq, Eq, Structural)]
pub enum InputMode {
    Normal,
    Insert,
}

/// The first key of a two-key Normal-mode sequence, while it waits for
/// its second.
#[derive(Clone, Copy, Debug, PartialEq, Eq, Structural)]
pub enum PendingKey {
    Nothing,
    G,
    D,
}

/// The model of the form.
pub struct Form {
    pub mode: InputMode,
    /// One text per field, indexed as in `fields`.
    pub texts: Seq<Seq<char>>,
    /// The cursor of each text, in characters.
    pub cursors: Seq<int>,
    pub pending: PendingKey,
    pub dropdown_open: bool,
    pub options: Seq<Seq<char>>,
    pub selected: int,
    /// The field the dropdown writes to, while it is open.
    pub target: Option<int>,
    pub focus: int,
    pub nodisplay: bool,
    pub startupnotify: bool,
    pub terminal: bool,
    /// The form edits an existing record rather than creating one.
    pub edit: bool,
    pub exit: bool,
}

impl Form {
    pub open spec fn wf(self) -> bool {
        &&& self.texts.len() == NUM_BLOCK
        &&& self.cursors.len() == NUM_BLOCK
        &&& forall|i: int|
            0 <= i < NUM_BLOCK ==> 0 <= #[trigger] self.cursors[i] <= self.texts[i].len()
        &&& 0 <= self.focus < NUM_BLOCK
        &&& 0 <= self.selected
        &&& self.dropdown_open == self.target is Some
        &&& self.target matches Some(t) ==> {
            &&& t == IDX_TYPE || t == IDX_CATEGORY
            &&& self.selected < self.options.len()
        }
    }
}

/// Focus moves one field down, stopping at Cancel.
pub open spec fn next_focus(f: Form) -> Form {
    Form { focus: if f.focus >= IDX_CANCEL { f.focus } else { f.focus + 1 }, ..f }
}

/// Focus moves one field up, stopping at Name.
pub open spec fn prev_focus(f: Form) -> Form {
    Form { focus: if f.focus <= IDX_NAME { f.focus } else { f.focus - 1 }, ..f }
}

/// The toggle under the focus flips; elsewhere nothing changes.
pub open spec fn toggle_focused(f: Form) -> Form {
    if f.focus == IDX_NODISPLAY {
        Form { nodisplay: !f.nodisplay, ..f }
    } else if f.focus == IDX_TERMINAL {
        Form { terminal: !f.terminal, ..f }
    } else if f.focus == IDX_STARTUPNOTIFY {
        Form { startupnotify: !f.startupnotify, ..f }
    } else {
        f
    }
}

/// Submitting a field moves past it; a toggle passed this way flips.
pub open spec fn submit(f: Form) -> Form {
    next_focus(toggle_focused(f))
}

pub open spec fn set_text(f: Form, i: int, v: Seq<char>) -> Form {
    Form { texts: f.texts.update(i, v), cursors: f.cursors.update(i, v.len() as int), ..f }
}

pub open spec fn with_exit(f: Form) -> Form {
    Form { exit: true, ..f }
}

pub open spec fn close_dropdown(f: Form) -> Form {
    Form { dropdown_open: false, target: None, ..f }
}

/// The dropdown opens on field `i` with `opts`, the first option
/// highlighted and written to the field.
pub open spec fn open_dropdown_on(f: Form, i: int, opts: Seq<Seq<char>>) -> Form {
    Form {
        dropdown_open: true,
        options: opts,
        selected: 0,
        target: Some(i),
        ..set_text(f, i, opts[0])
    }
}

/// The dropdown highlights option `k` and writes it to its field.
pub open spec fn highlight(f: Form, k: int) -> Form {
    Form { selected: k, ..set_text(f, f.target.unwrap(), f.options[k]) }
}

/// The focused text after `key`, as the line editor makes it.
pub open spec fn edit_focused(f: Form, key: KeyPress) -> Form {
    let e = edited_line(f.texts[f.focus], f.cursors[f.focus] as nat, key);
    Form {
        texts: f.texts.update(f.focus, e.0),
        cursors: f.cursors.update(f.focus, e.1 as int),
        ..f
    }
}

pub open spec fn is_char(key: KeyPress, c: char) -> bool {
    key.code == KeyCode::Char(c)
}

pub open spec fn is_down(key: KeyPress) -> bool {
    key.code == KeyCode::Down || is_char(key, 'j')
}

pub open spec fn is_up(key: KeyPress) -> bool {
    key.code == KeyCode::Up || is_char(key, 'k')
}

pub open spec fn is_toggle_field(i: int) -> bool {
    i == IDX_NODISPLAY || i == IDX_STARTUPNOTIFY || i == IDX_TERMINAL
}

/// The Normal-mode key that saves, when the save gate allows it.
pub open spec fn activates_save(f: Form, key: KeyPress) -> bool {
    f.mode == InputMode::Normal && is_char(key, 'i') && f.focus == IDX_SAVE
}

/// The activation key (`i`) in Normal mode, by the kind of the focused field.
pub open spec fn activate(f: Form, gate: bool) -> Form {
    if is_toggle_field(f.focus) {
        next_focus(toggle_focused(f))
    } else if f.focus == IDX_TYPE {
        Form { mode: InputMode::Insert, ..open_dropdown_on(f, IDX_TYPE as int, type_option_texts()) }
    } else if f.focus == IDX_CATEGORY {
        Form {
            mode: InputMode::Insert,
            ..open_dropdown_on(f, IDX_CATEGORY as int, category_option_texts())
        }
    } else if f.focus == IDX_SAVE {
        if gate {
            with_exit(f)
        } else {
            f
        }
    } else if f.focus == IDX_CANCEL {
        with_exit(f)
    } else {
        Form { mode: InputMode::Insert, ..f }
    }
}

/// One key press in Normal mode; `gate` is the verdict of the save gate.
pub open spec fn normal_step(f: Form, key: KeyPress, gate: bool) -> Form {
    match key.code {
        KeyCode::Char(c) => if c == 'g' {
            if f.pending == PendingKey::G {
                Form { focus: IDX_NAME as int, pending: PendingKey::Nothing, ..f }
            } else {
                Form { pending: PendingKey::G, ..f }
            }
        } else if c == 'd' {
            if f.pending == PendingKey::D {
                Form { pending: PendingKey::Nothing, ..set_text(f, f.focus, Seq::empty()) }
            } else {
                Form { pending: PendingKey::D, ..f }
            }
        } else {
            normal_command(Form { pending: PendingKey::Nothing, ..f }, key, gate)
        },
        _ => normal_command(Form { pending: PendingKey::Nothing, ..f }, key, gate),
    }
}

/// A Normal-mode key other than `g` and `d`, once any pending first key
/// has been forgotten.
pub open spec fn normal_command(f: Form, key: KeyPress, gate: bool) -> Form {
    match key.code {
        KeyCode::Char(c) => if c == 'c' && key.has_control() {
            with_exit(f)
        } else if c == 'G' {
            Form { focus: IDX_SAVE as int, ..f }
        } else if c == 'j' {
            next_focus(f)
        } else if c == 'k' {
            prev_focus(f)
        } else if c == 'q' {
            with_exit(f)
        } else if c == 'i' {
            activate(f, gate)
        } else {
            f
        },
        KeyCode::Down => next_focus(f),
        KeyCode::Up => prev_focus(f),
        _ => f,
    }
}

/// Escape and Enter in Insert mode, when no dropdown took the key.
pub open spec fn insert_esc_enter(f: Form, key: KeyPress) -> Form {
    if key.code == KeyCode::Esc {
        if f.focus == IDX_TYPE || f.focus == IDX_CATEGORY {
            Form { mode: InputMode::Normal, ..close_dropdown(f) }
        } else {
            Form { mode: InputMode::Normal, ..f }
        }
    } else if key.code == KeyCode::Enter {
        if f.focus == IDX_COMMENT {
            Form { mode: InputMode::Normal, ..submit(f) }
        } else if f.focus == IDX_TYPE || f.focus == IDX_CATEGORY {
            f
        } else {
            submit(f)
        }
    } else {
        f
    }
}

/// One key press in Insert mode.
pub open spec fn insert_step(f: Form, key: KeyPress) -> Form {
    let g = if f.focus != IDX_TYPE && f.focus != IDX_CATEGORY {
        edit_focused(f, key)
    } else {
        f
    };
    if g.target is Some {
        dropdown_step(g, key)
    } else {
        insert_esc_enter(g, key)
    }
}

/// One key press in Insert mode while the dropdown is open: Down moves the
/// highlight with wraparound, Up moves it back stopping at the first option,
/// and confirming closes the dropdown and submits the field.
pub open spec fn dropdown_step(g: Form, key: KeyPress) -> Form {
    if is_down(key) {
        highlight(g, (g.selected + 1) % g.options.len() as int)
    } else if is_up(key) {
        highlight(g, if g.selected == 0 { 0 } else { g.selected - 1 })
    } else if key.code == KeyCode::Enter || is_char(key, 'i') {
        Form { mode: InputMode::Normal, ..submit(close_dropdown(g)) }
    } else {
        insert_esc_enter(g, key)
    }
}

/// In Insert mode on a field other than Type and Category, a key whose
/// editing is plain (see `plain_edit`) leaves the focused text of `g` as
/// `plain_edit` states.
pub open spec fn typed_as_plain(f: Form, g: Form, key: KeyPress) -> bool {
    if f.mode == InputMode::Insert && f.focus != IDX_TYPE && f.focus != IDX_CATEGORY {
        match plain_edit(f.texts[f.focus], f.cursors[f.focus] as nat, key) {
            Some(e) => g.texts[f.focus] == e.0 && g.cursors[f.focus] == e.1 as int,
            None => true,
        }
    } else {
        true
    }
}

/// What the save gate answers for `key` on form `f`, the filesystem having
/// said `dest_exists` and `target_exists`: it is asked only when the key
/// activates Save.
pub open spec fn gate_answer(f: Form, key: KeyPress, dest_exists: bool, target_exists: bool) -> bool {
    activates_save(f, key) && save_gate(f, dest_exists, target_exists)
}

/// `g` and `r` are the outcome of `key` on `f` for some answers of the
/// filesystem to the save gate.
pub open spec fn key_outcome(f: Form, g: Form, key: KeyPress, r: Effect) -> bool {
    &&& exists|d: bool, t: bool|
        g == step(f, key, #[trigger] gate_answer(f, key, d, t)) && effect_matches(
            r,
            f,
            key,
            gate_answer(f, key, d, t),
        )
    &&& !activates_save(f, key) ==> g == step(f, key, false) && r is Nothing
    &&& typed_as_plain(f, g, key)
}

/// The transition of the form on one key press.
pub open spec fn step(f: Form, key: KeyPress, gate: bool) -> Form {
    if f.mode == InputMode::Normal {
        normal_step(f, key, gate)
    } else {
        insert_step(f, key)
    }
}

/// The form after a sequence of key presses, the save gate answering `gate`.
pub open spec fn run(f: Form, keys: Seq<KeyPress>, gate: bool) -> Form
    decreases keys.len(),
{
    if keys.len() == 0 {
        f
    } else {
        step(run(f, keys.drop_last(), gate), keys.last(), gate)
    }
}

/// The form a session starts from.
pub open spec fn initial_form(file_name: Option<Seq<char>>, edit: bool) -> Form {
    let named = file_name matches Some(n) && n.len() > 0;
    let texts = Seq::new(
        NUM_BLOCK as nat,
        |i: int|
            if i == IDX_TYPE {
                TYPE_APPLICATION@
            } else if i == IDX_CATEGORY {
                CATEGORY_NONE@
            } else if i == IDX_NAME && named {
                file_name.unwrap()
            } else {
                Seq::empty()
            },
    );
    Form {
        mode: InputMode::Normal,
        texts,
        cursors: Seq::new(NUM_BLOCK as nat, |i: int| texts[i].len() as int),
        pending: PendingKey::Nothing,
        dropdown_open: false,
        options: Seq::empty(),
        selected: 0,
        target: None,
        focus: if named { 1 } else { 0 },
        nodisplay: false,
        startupnotify: true,
        terminal: false,
        edit,
        exit: false,
    }
}

/// What a key press asks of the session besides the new state.
pub enum Effect {
    Nothing,
    /// Write `lines`, one per line, to the record file `file_name`.
    Save { file_name: String, lines: Vec<String> },
}

/// Whether `r` is the effect of `key` on form `f` under save gate `gate`.
pub open spec fn effect_matches(r: Effect, f: Form, key: KeyPress, gate: bool) -> bool {
    match r {
        Effect::Nothing => !(activates_save(f, key) && gate),
        Effect::Save { file_name, lines } => {
            &&& activates_save(f, key)
            &&& gate
            &&& file_name@ == desktop_file_name(f.texts[IDX_NAME as int])
            &&& lines_of(lines@) == record_lines(f)
        },
    }
}

/// The views of a list of strings.
pub open spec fn lines_of(v: Seq<String>) -> Seq<Seq<char>> {
    v.map_values(|s: String| s@)
}

/// The form.
pub struct App {
    pub input_mode: InputMode,
    pub input: Vec<TextField>,
    pub last_key: PendingKey,
    pub dropdown_open: bool,
    pub dropdown_options: Vec<&'static str>,
    pub dropdown_selected: usize,
    pub dropdown_index: Option<usize>,
    pub block_index: usize,
    pub checkbox_nodisplay: bool,
    pub checkbox_startupnotify: bool,
    pub checkbox_terminal: bool,
    pub edit: bool,
    pub exit: bool,
}

impl View for App {
    type V = Form;

    open spec fn view(&self) -> Form {
        Form {
            mode: self.input_mode,
            texts: self.input@.map_values(|t: TextField| t.value@),
            cursors: self.input@.map_values(|t: TextField| t.cursor as int),
            pending: self.last_key,
            dropdown_open: self.dropdown_open,
            options: texts_of(self.dropdown_options@),
            selected: self.dropdown_selected as int,
            target: match self.dropdown_index {
                Some(i) => Some(i as int),
                None => None,
            },
            focus: self.block_index as int,
            nodisplay: self.checkbox_nodisplay,
            startupnotify: self.checkbox_startupnotify,
            terminal: self.checkbox_terminal,
            edit: self.edit,
            exit: self.exit,
        }
    }
}

impl App {
    pub open spec fn wf(&self) -> bool {
        self@.wf()
    }

    proof fn lemma_field_wf(&self, i: int)
        requires
            self.wf(),
            0 <= i < NUM_BLOCK,
        ensures
            self.input@[i].wf(),
            self@.texts[i] == self.input@[i].value@,
            self@.cursors[i] == self.input@[i].cursor as int,
    {
        assert(0 <= self@.cursors[i] <= self@.texts[i].len());
    }

    /// Replaces the buffer of field `i`.
    pub(crate) fn set_field(&mut self, i: usize, t: TextField)
        requires
            old(self).wf(),
            i < NUM_BLOCK,
            t.wf(),
        ensures
            final(self)@ == (Form {
                texts: old(self)@.texts.update(i as int, t.value@),
                cursors: old(self)@.cursors.update(i as int, t.cursor as int),
                ..old(self)@
            }),
            final(self).wf(),
    {
        self.input.set(i, t);
        assert(self@.texts =~= old(self)@.texts.update(i as int, t.value@));
        assert(self@.cursors =~= old(self)@.cursors.update(i as int, t.cursor as int));
    }

    /// A form for a new record, or for editing one; a non-empty
    /// `file_name` fills Name and moves the focus past it.
    pub fn new(file_name: Option<String>, file_edit: bool) -> (r: App)
        ensures
            r.wf(),
            r@ == initial_form(opt_string(file_name), file_edit),
    {
        let ghost name = opt_string(file_name);
        let mut input: Vec<TextField> = Vec::new();
        let mut i: usize = 0;
        while i < NUM_BLOCK
            invariant
                i <= NUM_BLOCK,
                input@.len() == i,
                forall|j: int|
                    0 <= j < i ==> (#[trigger] input@[j]).value@ == Seq::<char>::empty()
                        && input@[j].cursor == 0,
            decreases NUM_BLOCK - i,
        {
            input.push(TextField::empty());
            i = i + 1;
        }
        let mut app = App {
            input_mode: InputMode::Normal,
            input,
            last_key: PendingKey::Nothing,
            dropdown_open: false,
            dropdown_options: Vec::new(),
            dropdown_selected: 0,
            dropdown_index: None,
            block_index: 0,
            checkbox_nodisplay: false,
            checkbox_startupnotify: true,
            checkbox_terminal: false,
            edit: file_edit,
            exit: false,
        };
        assert(app@.options =~= Seq::<Seq<char>>::empty());
        assert(app.wf());
        app.set_field(IDX_TYPE, TextField::from_str(TYPE_APPLICATION));
        app.set_field(IDX_CATEGORY, TextField::from_str(CATEGORY_NONE));
        match file_name {
            Some(n) => {
                if n.as_str().unicode_len() > 0 {
                    app.set_field(IDX_NAME, TextField::from_str(n.as_str()));
                    app.block_index = 1;
                }
            },
            None => {},
        }
        let ghost want = initial_form(name, file_edit);
        assert(app@.texts =~= want.texts);
        assert(app@.cursors =~= want.cursors);
        assert(app@.options =~= want.options);
        app
    }

    /// Moves the focus one field down, stopping at Cancel.
    pub fn next_block(&mut self)
        requires
            old(self).wf(),
        ensures
            final(self).wf(),
            final(self)@ == next_focus(old(self)@),
    {
        if self.block_index == IDX_CANCEL {
            return;
        }
        self.block_index = self.block_index + 1;
    }

    /// Moves the focus one field up, stopping at Name.
    pub fn previous_block(&mut self)
        requires
            old(self).wf(),
        ensures
            final(self).wf(),
            final(self)@ == prev_focus(old(self)@),
    {
        if self.block_index == IDX_NAME {
            return;
        }
        self.block_index = self.block_index - 1;
    }

    /// Flips the toggle under the focus, if there is one.
    pub fn checkbox(&mut self)
        requires
            old(self).wf(),
        ensures
            final(self).wf(),
            final(self)@ == toggle_focused(old(self)@),
    {
        if self.block_index == IDX_NODISPLAY {
            self.checkbox_nodisplay = !self.checkbox_nodisplay;
        } else if self.block_index == IDX_TERMINAL {
            self.checkbox_terminal = !self.checkbox_terminal;
        } else if self.block_index == IDX_STARTUPNOTIFY {
            self.checkbox_startupnotify = !self.checkbox_startupnotify;
        }
    }

    /// Submits the focused field: a toggle flips, and the focus moves on.
    pub fn submit_message(&mut self)
        requires
            old(self).wf(),
        ensures
            final(self).wf(),
            final(self)@ == submit(old(self)@),
    {
        self.checkbox();
        self.next_block();
    }

    /// Opens the dropdown on the enumerated field `index` with `options`,
    /// writing the first option to the field.
    pub fn open_dropdown(&mut self, index: usize, options: Vec<&'static str>)
        requires
            old(self).wf(),
            index == IDX_TYPE || index == IDX_CATEGORY,
            options@.len() > 0,
        ensures
            final(self).wf(),
            final(self)@ == open_dropdown_on(old(self)@, index as int, texts_of(options@)),
    {
        let first = TextField::from_str(options[0]);
        self.set_field(index, first);
        self.dropdown_open = true;
        self.dropdown_options = options;
        self.dropdown_selected = 0;
        self.dropdown_index = Some(index);
    }

    /// Sets the termination flag.
    pub fn exit(&mut self)
        requires
            old(self).wf(),
        ensures
            final(self).wf(),
            final(self)@ == with_exit(old(self)@),
    {
        self.exit = true;
    }

    /// Highlights option `k` of the open dropdown and writes it to its field.
    fn highlight(&mut self, k: usize)
        requires
            old(self).wf(),
            old(self).dropdown_index is Some,
            k < old(self).dropdown_options@.len(),
        ensures
            final(self).wf(),
            final(self)@ == highlight(old(self)@, k as int),
    {
        let idx = self.dropdown_index.unwrap();
        let t = TextField::from_str(self.dropdown_options[k]);
        self.set_field(idx, t);
        self.dropdown_selected = k;
    }

    /// The activation key in Normal mode.
    fn activate(&mut self, gate: bool) -> (r: Effect)
        requires
            old(self).wf(),
        ensures
            final(self).wf(),
            final(self)@ == activate(old(self)@, gate),
            match r {
                Effect::Nothing => !(old(self)@.focus == IDX_SAVE && gate),
                Effect::Save { file_name, lines } => {
                    &&& old(self)@.focus == IDX_SAVE
                    &&& gate
                    &&& file_name@ == desktop_file_name(old(self)@.texts[IDX_NAME as int])
                    &&& lines_of(lines@) == record_lines(old(self)@)
                },
            },
    {
        let i = self.block_index;
        if i == IDX_TERMINAL || i == IDX_NODISPLAY || i == IDX_STARTUPNOTIFY {
            self.checkbox();
            self.next_block();
        } else if i == IDX_TYPE {
            let options = type_options();
            assert(options@.len() == texts_of(options@).len());
            self.open_dropdown(IDX_TYPE, options);
            self.input_mode = InputMode::Insert;
        } else if i == IDX_CATEGORY {
            let options = category_options();
            assert(options@.len() == texts_of(options@).len());
            self.open_dropdown(IDX_CATEGORY, options);
            self.input_mode = InputMode::Insert;
        } else if i == IDX_SAVE {
            if gate {
                let file_name = self.desktop_file_name();
                let lines = self.desktop_entry();
                self.exit();
                return Effect::Save { file_name, lines };
            }
        } else if i == IDX_CANCEL {
            self.exit();
        } else {
            self.input_mode = InputMode::Insert;
        }
        Effect::Nothing
    }

    fn normal_key(&mut self, key: KeyPress, gate: bool) -> (r: Effect)
        requires
            old(self).wf(),
            old(self)@.mode == InputMode::Normal,
        ensures
            final(self).wf(),
            final(self)@ == normal_step(old(self)@, key, gate),
            effect_matches(r, old(self)@, key, gate),
    {
        if key.code == KeyCode::Char('g') {
            if self.last_key == PendingKey::G {
                self.block_index = IDX_NAME;
                self.last_key = PendingKey::Nothing;
            } else {
                self.last_key = PendingKey::G;
            }
            return Effect::Nothing;
        }
        if key.code == KeyCode::Char('d') {
            if self.last_key == PendingKey::D {
                self.set_field(self.block_index, TextField::empty());
                self.last_key = PendingKey::Nothing;
            } else {
                self.last_key = PendingKey::D;
            }
            return Effect::Nothing;
        }
        self.last_key = PendingKey::Nothing;
        self.normal_command(key, gate)
    }

    fn normal_command(&mut self, key: KeyPress, gate: bool) -> (r: Effect)
        requires
            old(self).wf(),
            old(self)@.mode == InputMode::Normal,
        ensures
            final(self).wf(),
            final(self)@ == normal_command(old(self)@, key, gate),
            effect_matches(r, old(self)@, key, gate),
    {
        match key.code {
            KeyCode::Char(c) => {
                if c == 'c' && key.control() {
                    self.exit();
                } else if c == 'G' {
                    self.block_index = IDX_SAVE;
                } else if c == 'j' {
                    self.next_block();
                } else if c == 'k' {
                    self.previous_block();
                } else if c == 'q' {
                    self.exit();
                } else if c == 'i' {
                    return self.activate(gate);
                }
            },
            KeyCode::Down => self.next_block(),
            KeyCode::Up => self.previous_block(),
            _ => {},
        }
        Effect::Nothing
    }

    fn insert_esc_enter(&mut self, key: KeyPress)
        requires
            old(self).wf(),
        ensures
            final(self).wf(),
            final(self)@ == insert_esc_enter(old(self)@, key),
    {
        let i = self.block_index;
        if key.code == KeyCode::Esc {
            if i == IDX_TYPE || i == IDX_CATEGORY {
                self.dropdown_open = false;
                self.dropdown_index = None;
            }
            self.input_mode = InputMode::Normal;
        } else if key.code == KeyCode::Enter {
            if i == IDX_COMMENT {
                self.submit_message();
                self.input_mode = InputMode::Normal;
            } else if i != IDX_TYPE && i != IDX_CATEGORY {
                self.submit_message();
            }
        }
    }

    fn dropdown_key(&mut self, key: KeyPress)
        requires
            old(self).wf(),
            old(self).dropdown_index is Some,
        ensures
            final(self).wf(),
            final(self)@ == dropdown_step(old(self)@, key),
    {
        let n = self.dropdown_options.len();
        if key.code == KeyCode::Down || key.code == KeyCode::Char('j') {
            let k = (self.dropdown_selected + 1) % n;
            self.highlight(k);
        } else if key.code == KeyCode::Up || key.code == KeyCode::Char('k') {
            let k = if self.dropdown_selected == 0 {
                0
            } else {
                self.dropdown_selected - 1
            };
            self.highlight(k);
        } else if key.code == KeyCode::Enter || key.code == KeyCode::Char('i') {
            self.dropdown_open = false;
            self.dropdown_index = None;
            self.submit_message();
            self.input_mode = InputMode::Normal;
        } else {
            self.insert_esc_enter(key);
        }
    }

    fn insert_key(&mut self, key: KeyPress)
        requires
            old(self).wf(),
            old(self)@.mode == InputMode::Insert,
        ensures
            final(self).wf(),
            final(self)@ == insert_step(old(self)@, key),
            typed_as_plain(old(self)@, final(self)@, key),
    {
        let i = self.block_index;
        if i != IDX_TYPE && i != IDX_CATEGORY {
            proof {
                old(self).lemma_field_wf(i as int);
            }
            let t = self.input[i].edited(key);
            self.set_field(i, t);
            assert(self@ == edit_focused(old(self)@, key));
        }
        let ghost mid = self@;
        if self.dropdown_index.is_some() {
            self.dropdown_key(key);
        } else {
            self.insert_esc_enter(key);
        }
        assert(i != IDX_TYPE && i != IDX_CATEGORY ==> self@.texts[i as int] == mid.texts[i as int]
            && self@.cursors[i as int] == mid.cursors[i as int]);
    }

    /// One key press, the save gate having answered `gate`.
    pub fn apply_key(&mut self, key: KeyPress, gate: bool) -> (r: Effect)
        requires
            old(self).wf(),
        ensures
            final(self).wf(),
            final(self)@ == step(old(self)@, key, gate),
            effect_matches(r, old(self)@, key, gate),
            typed_as_plain(old(self)@, final(self)@, key),
    {
        match self.input_mode {
            InputMode::Normal => self.normal_key(key, gate),
            InputMode::Insert => {
                self.insert_key(key);
                Effect::Nothing
            },
        }
    }

    /// One key press; on Save the save gate asks the filesystem.
    pub fn handle_key_input(&mut self, key: KeyPress) -> (r: Effect)
        requires
            old(self).wf(),
        ensures
            final(self).wf(),
            key_outcome(old(self)@, final(self)@, key, r),
    {
        let ghost f = self@;
        let ghost mut w: (bool, bool) = (false, false);
        let gate = if self.input_mode == InputMode::Normal && self.block_index == IDX_SAVE
            && key.code == KeyCode::Char('i') {
            let g = self.can_save();
            proof {
                w = if g == save_gate(f, false, false) {
                    (false, false)
                } else if g == save_gate(f, false, true) {
                    (false, true)
                } else if g == save_gate(f, true, false) {
                    (true, false)
                } else {
                    (true, true)
                };
            }
            g
        } else {
            false
        };
        assert(gate == gate_answer(f, key, w.0, w.1));
        self.apply_key(key, gate)
    }

    /// One input event: key presses drive the form, everything else
    /// (releases, repeats, resizes) leaves it as it is.
    pub fn handle_event(&mut self, event: Event) -> (r: Effect)
        requires
            old(self).wf(),
        ensures
            final(self).wf(),
            match event {
                Event::Key(key) => if key.kind == KeyKind::Press {
                    key_outcome(old(self)@, final(self)@, key, r)
                } else {
                    final(self)@ == old(self)@ && r is Nothing
                },
                _ => final(self)@ == old(self)@ && r is Nothing,
            },
    {
        match event {
            Event::Key(key) => {
                if key.kind == KeyKind::Press {
                    self.handle_key_input(key)
                } else {
                    Effect::Nothing
                }
            },
            _ => Effect::Nothing,
        }
    }
}

} // verus!
