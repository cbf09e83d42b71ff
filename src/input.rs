//! Key presses as the form sees them, and one-line text buffers edited
//! through `tui_input`.
use ratatui::crossterm::event::{Event as TermEvent, KeyCode as TermKey, KeyEvent, KeyModifiers};
use tui_input::backend::crossterm::EventHandler;
use tui_input::Input;
use vstd::prelude::*;

verus! {

/// The key of a key press.
#[derive(Clone, Copy, Debug, PartialEq, Eq, Structural)]
pub enum KeyCode {
    Char(char),
    Enter,
    Esc,
    Backspace,
    Delete,
    Left,
    Right,
    Up,
    Down,
    Home,
    End,
    Tab,
    /// Any key the form does not tell apart.
    Other,
}

/// Whether a key went down, repeated, or came up.
#[derive(Clone, Copy, Debug, PartialEq, Eq, Structural)]
pub enum KeyKind {
    Press,
    Repeat,
    Release,
}

/// Modifier bits, laid out as the terminal backend reports them.
pub const SHIFT: u8 = 1;
pub const CONTROL: u8 = 2;
pub const ALT: u8 = 4;
pub const SUPER: u8 = 8;
pub const HYPER: u8 = 16;
pub const META: u8 = 32;

#[derive(Clone, Copy, Debug, PartialEq, Eq, Structural)]
pub struct KeyPress {
    pub code: KeyCode,
    /// A combination of `SHIFT`, `CONTROL`, `ALT`, `SUPER`, `HYPER` and `META`.
    pub modifiers: u8,
    pub kind: KeyKind,
}

/// An input event handed to the form.
#[derive(Clone, Copy, Debug, PartialEq, Eq, Structural)]
pub enum Event {
    Key(KeyPress),
    Resize(u16, u16),
    Other,
}

impl KeyPress {
    pub open spec fn has_control(self) -> bool {
        self.modifiers & CONTROL != 0
    }

    pub fn control(&self) -> (r: bool)
        ensures
            r == self.has_control(),
    {
        self.modifiers & CONTROL != 0
    }
}

/// What `tui_input` makes of a line `value` with its cursor at `cursor` after `key`.
pub uninterp spec fn edited_line(value: Seq<char>, cursor: nat, key: KeyPress) -> (Seq<char>, nat);

/// The line after `key`, for the keys whose editing is plain: with no
/// modifier (or Shift, for a character) a character is inserted at the
/// cursor, Backspace and Delete remove the character before or under the
/// cursor, Left/Right/Home/End move it; navigation and confirmation keys
/// leave the line as it is.
pub open spec fn plain_edit(value: Seq<char>, cursor: nat, key: KeyPress) -> Option<(Seq<char>, nat)> {
    let n = value.len();
    match key.code {
        KeyCode::Char(c) => if key.modifiers == 0 || key.modifiers == SHIFT {
            Some((value.take(cursor as int).push(c) + value.skip(cursor as int), cursor + 1))
        } else {
            None
        },
        KeyCode::Backspace => if key.modifiers != 0 {
            None
        } else if cursor == 0 {
            Some((value, cursor))
        } else {
            Some((value.remove(cursor - 1), (cursor - 1) as nat))
        },
        KeyCode::Delete => if key.modifiers != 0 {
            None
        } else if cursor == n {
            Some((value, cursor))
        } else {
            Some((value.remove(cursor as int), cursor))
        },
        KeyCode::Left => if key.modifiers != 0 {
            None
        } else if cursor == 0 {
            Some((value, cursor))
        } else {
            Some((value, (cursor - 1) as nat))
        },
        KeyCode::Right => if key.modifiers != 0 {
            None
        } else if cursor == n {
            Some((value, cursor))
        } else {
            Some((value, cursor + 1))
        },
        KeyCode::Home => if key.modifiers != 0 {
            None
        } else {
            Some((value, 0))
        },
        KeyCode::End => if key.modifiers != 0 {
            None
        } else {
            Some((value, n))
        },
        _ => Some((value, cursor)),
    }
}

/// Relies on `tui_input::Input::handle_event` (through its crossterm
/// backend) on an `Input` holding `value` with the cursor at `cursor`: the
/// result depends on these and the key alone, keeps the cursor within the
/// line, and for the plain keys is as `plain_edit` states (see
/// `to_input_request` and `Input::handle` in tui-input).
#[verifier::external_body]
fn edit_with_tui_input(value: &String, cursor: usize, key: KeyPress) -> (r: (String, usize))
    requires
        cursor <= value@.len(),
    ensures
        (r.0@, r.1 as nat) == edited_line(value@, cursor as nat, key),
        r.1 <= r.0@.len(),
        plain_edit(value@, cursor as nat, key) matches Some(e) ==> (r.0@, r.1 as nat) == e,
{
    let code = match key.code {
        KeyCode::Char(c) => TermKey::Char(c), KeyCode::Enter => TermKey::Enter,
        KeyCode::Esc => TermKey::Esc, KeyCode::Backspace => TermKey::Backspace,
        KeyCode::Delete => TermKey::Delete, KeyCode::Left => TermKey::Left,
        KeyCode::Right => TermKey::Right, KeyCode::Up => TermKey::Up,
        KeyCode::Down => TermKey::Down, KeyCode::Home => TermKey::Home,
        KeyCode::End => TermKey::End, KeyCode::Tab => TermKey::Tab,
        KeyCode::Other => TermKey::Null,
    };
    let mut input = Input::new(value.clone()).with_cursor(cursor);
    input.handle_event(&TermEvent::Key(KeyEvent::new(code, KeyModifiers::from_bits_retain(key.modifiers))));
    (input.value().to_string(), input.cursor())
}

/// A one-line text buffer with a cursor counted in characters.
#[derive(Debug)]
pub struct TextField {
    pub value: String,
    pub cursor: usize,
}

impl TextField {
    pub open spec fn wf(&self) -> bool {
        self.cursor <= self.value@.len()
    }

    /// An empty buffer.
    pub fn empty() -> (r: TextField)
        ensures
            r.value@ == Seq::<char>::empty(),
            r.cursor == 0,
    {
        TextField { value: String::new(), cursor: 0 }
    }

    /// A buffer holding `s`, with the cursor after its last character.
    pub fn from_str(s: &str) -> (r: TextField)
        ensures
            r.value@ == s@,
            r.cursor == s@.len(),
    {
        let value = s.to_owned();
        let cursor = s.unicode_len();
        TextField { value, cursor }
    }

    pub fn value(&self) -> (r: &str)
        ensures
            r@ == self.value@,
    {
        self.value.as_str()
    }

    /// Empties the buffer.
    pub fn reset(&mut self)
        ensures
            final(self).value@ == Seq::<char>::empty(),
            final(self).cursor == 0,
    {
        self.value = String::new();
        self.cursor = 0;
    }

    /// The line after one key press.
    pub fn edited(&self, key: KeyPress) -> (r: TextField)
        requires
            self.wf(),
        ensures
            r.wf(),
            (r.value@, r.cursor as nat) == edited_line(self.value@, self.cursor as nat, key),
            plain_edit(self.value@, self.cursor as nat, key) matches Some(e) ==> (r.value@,
            r.cursor as nat) == e,
    {
        let (value, cursor) = edit_with_tui_input(&self.value, self.cursor, key);
        TextField { value, cursor }
    }
}

} // verus!
