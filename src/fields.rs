//! The fixed, ordered set of form fields, their kinds, and the option lists
//! of the enumerated fields.
use crate::text::texts_of;
use vstd::prelude::*;

verus! {

pub const NUM_BLOCK: usize = 13;

pub const IDX_NAME: usize = 0;
/// The Exec-or-URL slot: its meaning follows the current Type.
pub const IDX_EXEC: usize = 1;
pub const IDX_URL: usize = 1;
pub const IDX_ICON: usize = 2;
pub const IDX_VERSION: usize = 3;
pub const IDX_COMMENT: usize = 4;
pub const IDX_ACTION: usize = 5;
pub const IDX_NODISPLAY: usize = 6;
pub const IDX_STARTUPNOTIFY: usize = 7;
pub const IDX_TERMINAL: usize = 8;
pub const IDX_TYPE: usize = 9;
pub const IDX_CATEGORY: usize = 10;
pub const IDX_SAVE: usize = 11;
pub const IDX_CANCEL: usize = 12;

pub const TYPE_APPLICATION: &'static str = "Application";
pub const TYPE_APPLICATION_OTHER: &'static str = "Application (other)";
pub const TYPE_LINK: &'static str = "Link";
pub const TYPE_DIRECTORY: &'static str = "Directory";
pub const CATEGORY_NONE: &'static str = "None";

/// How a field takes its value.
#[derive(Clone, Copy, Debug, PartialEq, Eq, Structural)]
pub enum FieldKind {
    /// Free text.
    Text,
    /// Text naming a path (or, for the Exec-or-URL slot under Link, a URL).
    Path,
    /// One of a fixed list of options, chosen through a dropdown.
    Choice,
    /// A boolean check box.
    Toggle,
    /// A button: Save or Cancel.
    Action,
}

pub open spec fn kind_of(index: int) -> FieldKind {
    if index == IDX_EXEC || index == IDX_ICON {
        FieldKind::Path
    } else if index == IDX_TYPE || index == IDX_CATEGORY {
        FieldKind::Choice
    } else if index == IDX_NODISPLAY || index == IDX_STARTUPNOTIFY || index == IDX_TERMINAL {
        FieldKind::Toggle
    } else if index == IDX_SAVE || index == IDX_CANCEL {
        FieldKind::Action
    } else {
        FieldKind::Text
    }
}

pub fn field_kind(index: usize) -> (r: FieldKind)
    requires
        index < NUM_BLOCK,
    ensures
        r == kind_of(index as int),
{
    if index == IDX_EXEC || index == IDX_ICON {
        FieldKind::Path
    } else if index == IDX_TYPE || index == IDX_CATEGORY {
        FieldKind::Choice
    } else if index == IDX_NODISPLAY || index == IDX_STARTUPNOTIFY || index == IDX_TERMINAL {
        FieldKind::Toggle
    } else if index == IDX_SAVE || index == IDX_CANCEL {
        FieldKind::Action
    } else {
        FieldKind::Text
    }
}

pub open spec fn type_option_texts() -> Seq<Seq<char>> {
    seq![TYPE_APPLICATION@, TYPE_APPLICATION_OTHER@, TYPE_LINK@, TYPE_DIRECTORY@]
}

pub open spec fn category_option_texts() -> Seq<Seq<char>> {
    seq![
        CATEGORY_NONE@,
        "Audio"@,
        "Video"@,
        "Development"@,
        "Education"@,
        "Graphics"@,
        "Network"@,
        "Office"@,
        "Settings"@,
        "System"@,
    ]
}

/// The options of the Type field.
pub fn type_options() -> (r: Vec<&'static str>)
    ensures
        texts_of(r@) == type_option_texts(),
{
    let r = vec![TYPE_APPLICATION, TYPE_APPLICATION_OTHER, TYPE_LINK, TYPE_DIRECTORY];
    assert(texts_of(r@) =~= type_option_texts());
    r
}

/// The options of the Category field.
pub fn category_options() -> (r: Vec<&'static str>)
    ensures
        texts_of(r@) == category_option_texts(),
{
    let r = vec![
        CATEGORY_NONE,
        "Audio",
        "Video",
        "Development",
        "Education",
        "Graphics",
        "Network",
        "Office",
        "Settings",
        "System",
    ];
    assert(texts_of(r@) =~= category_option_texts());
    r
}

} // verus!
