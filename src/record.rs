//! The `key=value` record a form is saved as, and the loading of such a
//! record back into a form.
use crate::fields::{
    CATEGORY_NONE, IDX_ACTION, IDX_CATEGORY, IDX_COMMENT, IDX_EXEC, IDX_ICON, IDX_NAME, IDX_TYPE,
    IDX_VERSION, NUM_BLOCK, TYPE_LINK,
};
use crate::input::TextField;
use crate::state::{lines_of, set_text, App, Form};
use crate::text::{first_index_of, str_eq, str_find_char};
use vstd::prelude::*;

verus! {

pub const HEADER: &'static str = "[Desktop Entry]";
pub const KEY_NAME: &'static str = "Name";
pub const KEY_EXEC: &'static str = "Exec";
pub const KEY_URL: &'static str = "URL";
pub const KEY_ICON: &'static str = "Icon";
pub const KEY_VERSION: &'static str = "Version";
pub const KEY_COMMENT: &'static str = "Comment";
pub const KEY_ACTIONS: &'static str = "Actions";
pub const KEY_NODISPLAY: &'static str = "NoDisplay";
pub const KEY_STARTUPNOTIFY: &'static str = "StartupNotify";
pub const KEY_TERMINAL: &'static str = "Terminal";
pub const KEY_TYPE: &'static str = "Type";
pub const KEY_CATEGORY: &'static str = "Category";
pub const DESKTOP_SUFFIX: &'static str = ".desktop";
pub const TRUE_TEXT: &'static str = "true";
pub const FALSE_TEXT: &'static str = "false";

/// One line of the record.
pub open spec fn entry(key: Seq<char>, value: Seq<char>) -> Seq<char> {
    key + seq!['='] + value
}

pub open spec fn bool_text(b: bool) -> Seq<char> {
    if b {
        TRUE_TEXT@
    } else {
        FALSE_TEXT@
    }
}

/// The category as written: the sentinel `None` is written empty.
pub open spec fn category_text(c: Seq<char>) -> Seq<char> {
    if c == CATEGORY_NONE@ {
        Seq::empty()
    } else {
        c
    }
}

/// The record of a form, line by line, without line ends.
pub open spec fn record_lines(f: Form) -> Seq<Seq<char>> {
    seq![
        HEADER@,
        entry(KEY_NAME@, f.texts[IDX_NAME as int]),
        if f.texts[IDX_TYPE as int] == TYPE_LINK@ {
            entry(KEY_URL@, f.texts[IDX_EXEC as int])
        } else {
            entry(KEY_EXEC@, f.texts[IDX_EXEC as int])
        },
        entry(KEY_ICON@, f.texts[IDX_ICON as int]),
        entry(KEY_VERSION@, f.texts[IDX_VERSION as int]),
        entry(KEY_COMMENT@, f.texts[IDX_COMMENT as int]),
        entry(KEY_ACTIONS@, f.texts[IDX_ACTION as int]),
        entry(KEY_NODISPLAY@, bool_text(f.nodisplay)),
        entry(KEY_STARTUPNOTIFY@, bool_text(f.startupnotify)),
        entry(KEY_TERMINAL@, bool_text(f.terminal)),
        entry(KEY_TYPE@, f.texts[IDX_TYPE as int]),
        entry(KEY_CATEGORY@, category_text(f.texts[IDX_CATEGORY as int])),
    ]
}

/// The name of the record file for an entry called `name`.
pub open spec fn desktop_file_name(name: Seq<char>) -> Seq<char> {
    name + DESKTOP_SUFFIX@
}

/// A line cut at its first `=` into key and value.
pub open spec fn split_entry(line: Seq<char>) -> Option<(Seq<char>, Seq<char>)> {
    match first_index_of(line, '=') {
        Some(p) => Some((line.take(p), line.skip(p + 1))),
        None => None,
    }
}

/// A toggle read from its text: `true` and `false` set it, anything else
/// leaves it as it was.
pub open spec fn toggle_from(text: Seq<char>, current: bool) -> bool {
    if text == TRUE_TEXT@ {
        true
    } else if text == FALSE_TEXT@ {
        false
    } else {
        current
    }
}

/// The form after one `key=value` pair of a record; unknown keys change nothing.
pub open spec fn apply_entry(f: Form, key: Seq<char>, value: Seq<char>) -> Form {
    if key == KEY_NAME@ {
        set_text(f, IDX_NAME as int, value)
    } else if key == KEY_EXEC@ || key == KEY_URL@ {
        set_text(f, IDX_EXEC as int, value)
    } else if key == KEY_ICON@ {
        set_text(f, IDX_ICON as int, value)
    } else if key == KEY_VERSION@ {
        set_text(f, IDX_VERSION as int, value)
    } else if key == KEY_COMMENT@ {
        set_text(f, IDX_COMMENT as int, value)
    } else if key == KEY_ACTIONS@ {
        set_text(f, IDX_ACTION as int, value)
    } else if key == KEY_NODISPLAY@ {
        Form { nodisplay: toggle_from(value, f.nodisplay), ..f }
    } else if key == KEY_STARTUPNOTIFY@ {
        Form { startupnotify: toggle_from(value, f.startupnotify), ..f }
    } else if key == KEY_TERMINAL@ {
        Form { terminal: toggle_from(value, f.terminal), ..f }
    } else if key == KEY_TYPE@ {
        set_text(f, IDX_TYPE as int, value)
    } else if key == KEY_CATEGORY@ {
        set_text(f, IDX_CATEGORY as int, if value.len() == 0 { CATEGORY_NONE@ } else { value })
    } else {
        f
    }
}

/// The form after one line of a record; a line without `=` changes nothing.
pub open spec fn load_line(f: Form, line: Seq<char>) -> Form {
    match split_entry(line) {
        Some((k, v)) => apply_entry(f, k, v),
        None => f,
    }
}

/// The form after the lines of a record, in order.
pub open spec fn load_lines(f: Form, lines: Seq<Seq<char>>) -> Form
    decreases lines.len(),
{
    if lines.len() == 0 {
        f
    } else {
        load_lines(load_line(f, lines[0]), lines.drop_first())
    }
}

/// `key=value`.
pub fn entry_line(key: &str, value: &str) -> (r: String)
    ensures
        r@ == entry(key@, value@),
{
    let mut s = key.to_owned();
    s.append("=");
    s.append(value);
    proof {
        reveal_strlit("=");
    }
    assert(s@ =~= entry(key@, value@));
    s
}

pub fn bool_str(b: bool) -> (r: &'static str)
    ensures
        r@ == bool_text(b),
{
    if b {
        TRUE_TEXT
    } else {
        FALSE_TEXT
    }
}

/// Cuts a line at its first `=`.
pub fn split_line(line: &str) -> (r: Option<(&str, &str)>)
    ensures
        match r {
            Some((k, v)) => split_entry(line@) == Some((k@, v@)),
            None => split_entry(line@) is None,
        },
{
    match str_find_char(line, '=') {
        Some(p) => {
            let n = line.unicode_len();
            let k = line.substring_char(0, p);
            let v = line.substring_char(p + 1, n);
            assert(k@ =~= line@.take(p as int));
            assert(v@ =~= line@.skip(p + 1));
            Some((k, v))
        },
        None => None,
    }
}

impl App {
    fn field_str(&self, i: usize) -> (r: &str)
        requires
            self.wf(),
            i < NUM_BLOCK,
        ensures
            r@ == self@.texts[i as int],
    {
        self.input[i].value.as_str()
    }

    /// The record of the form, line by line.
    pub fn desktop_entry(&self) -> (r: Vec<String>)
        requires
            self.wf(),
        ensures
            lines_of(r@) == record_lines(self@),
    {
        let mut r: Vec<String> = Vec::new();
        r.push(HEADER.to_owned());
        r.push(entry_line(KEY_NAME, self.field_str(IDX_NAME)));
        if str_eq(self.field_str(IDX_TYPE), TYPE_LINK) {
            r.push(entry_line(KEY_URL, self.field_str(IDX_EXEC)));
        } else {
            r.push(entry_line(KEY_EXEC, self.field_str(IDX_EXEC)));
        }
        r.push(entry_line(KEY_ICON, self.field_str(IDX_ICON)));
        r.push(entry_line(KEY_VERSION, self.field_str(IDX_VERSION)));
        r.push(entry_line(KEY_COMMENT, self.field_str(IDX_COMMENT)));
        r.push(entry_line(KEY_ACTIONS, self.field_str(IDX_ACTION)));
        r.push(entry_line(KEY_NODISPLAY, bool_str(self.checkbox_nodisplay)));
        r.push(entry_line(KEY_STARTUPNOTIFY, bool_str(self.checkbox_startupnotify)));
        r.push(entry_line(KEY_TERMINAL, bool_str(self.checkbox_terminal)));
        r.push(entry_line(KEY_TYPE, self.field_str(IDX_TYPE)));
        let category = self.field_str(IDX_CATEGORY);
        if str_eq(category, CATEGORY_NONE) {
            r.push(entry_line(KEY_CATEGORY, ""));
            proof {
                reveal_strlit("");
            }
        } else {
            r.push(entry_line(KEY_CATEGORY, category));
        }
        assert(lines_of(r@) =~= record_lines(self@));
        r
    }

    /// The name of the record file: the Name text and `.desktop`.
    pub fn desktop_file_name(&self) -> (r: String)
        requires
            self.wf(),
        ensures
            r@ == desktop_file_name(self@.texts[IDX_NAME as int]),
    {
        let mut s = self.field_str(IDX_NAME).to_owned();
        s.append(DESKTOP_SUFFIX);
        s
    }

    fn apply_entry(&mut self, key: &str, value: &str)
        requires
            old(self).wf(),
        ensures
            final(self).wf(),
            final(self)@ == apply_entry(old(self)@, key@, value@),
    {
        if str_eq(key, KEY_NAME) {
            self.set_field(IDX_NAME, TextField::from_str(value));
        } else if str_eq(key, KEY_EXEC) || str_eq(key, KEY_URL) {
            self.set_field(IDX_EXEC, TextField::from_str(value));
        } else if str_eq(key, KEY_ICON) {
            self.set_field(IDX_ICON, TextField::from_str(value));
        } else if str_eq(key, KEY_VERSION) {
            self.set_field(IDX_VERSION, TextField::from_str(value));
        } else if str_eq(key, KEY_COMMENT) {
            self.set_field(IDX_COMMENT, TextField::from_str(value));
        } else if str_eq(key, KEY_ACTIONS) {
            self.set_field(IDX_ACTION, TextField::from_str(value));
        } else if str_eq(key, KEY_NODISPLAY) {
            self.checkbox_nodisplay = toggle_value(value, self.checkbox_nodisplay);
        } else if str_eq(key, KEY_STARTUPNOTIFY) {
            self.checkbox_startupnotify = toggle_value(value, self.checkbox_startupnotify);
        } else if str_eq(key, KEY_TERMINAL) {
            self.checkbox_terminal = toggle_value(value, self.checkbox_terminal);
        } else if str_eq(key, KEY_TYPE) {
            self.set_field(IDX_TYPE, TextField::from_str(value));
        } else if str_eq(key, KEY_CATEGORY) {
            if value.unicode_len() == 0 {
                self.set_field(IDX_CATEGORY, TextField::from_str(CATEGORY_NONE));
            } else {
                self.set_field(IDX_CATEGORY, TextField::from_str(value));
            }
        }
    }

    /// Fills the form from the lines of an existing record; lines without
    /// `=` and unknown keys are ignored, and a later line wins.
    pub fn load_record(&mut self, lines: &Vec<String>)
        requires
            old(self).wf(),
        ensures
            final(self).wf(),
            final(self)@ == load_lines(old(self)@, lines_of(lines@)),
    {
        let ghost all = lines_of(lines@);
        let mut i: usize = 0;
        assert(all.skip(0) =~= all);
        while i < lines.len()
            invariant
                self.wf(),
                all == lines_of(lines@),
                i <= lines@.len(),
                load_lines(self@, all.skip(i as int)) == load_lines(old(self)@, all),
            decreases lines@.len() - i,
        {
            assert(all.skip(i as int).drop_first() =~= all.skip(i + 1));
            match split_line(lines[i].as_str()) {
                Some((k, v)) => self.apply_entry(k, v),
                None => {},
            }
            i = i + 1;
        }
        assert(all.skip(i as int) =~= Seq::<Seq<char>>::empty());
    }
}

/// A toggle read from its text, as `toggle_from`.
pub fn toggle_value(text: &str, current: bool) -> (r: bool)
    ensures
        r == toggle_from(text@, current),
{
    if str_eq(text, TRUE_TEXT) {
        true
    } else if str_eq(text, FALSE_TEXT) {
        false
    } else {
        current
    }
}

} // verus!
