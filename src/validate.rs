//! Per-field verdicts and the probes of the filesystem they rest on.
//!
//! Every verdict is first computed by a pure function of the field text and
//! of what the filesystem answered (`PathProbe`); the functions that ask the
//! filesystem then only gather those answers.
use crate::text::{
    first_index_of, has_double_slash, is_white_space, is_whitespace_char, starts_with, str_eq_ignore_ascii_case,
    str_eq, str_find_char, str_has_double_slash, str_starts_with, texts_of, opt_text, trim, trim_str, eq_ignore_ascii_case,
};
use crate::fields::{
    IDX_CATEGORY, IDX_EXEC, IDX_ICON, IDX_NAME, IDX_TYPE, NUM_BLOCK, TYPE_APPLICATION,
    TYPE_APPLICATION_OTHER, TYPE_DIRECTORY, TYPE_LINK,
};
use crate::paths::{join, applications_path_of, record_path};
use crate::record::{desktop_file_name, DESKTOP_SUFFIX};
use crate::state::{App, Form};
use vstd::prelude::*;

verus! {

/// The outcome of checking one field, shown beside it.
#[derive(Clone, Copy, Debug, PartialEq, Eq, Structural)]
pub enum Verdict {
    /// The field is not focused: no feedback.
    Blank,
    Empty,
    NotFound,
    WrongType,
    InvalidScheme,
    /// The type of entry tolerates a path that does not resolve.
    Ignored,
    AlreadyExists,
    Valid,
}

/// How a verdict is coloured.
#[derive(Clone, Copy, Debug, PartialEq, Eq, Structural)]
pub enum Tone {
    Plain,
    Error,
    Warning,
    Success,
}

impl Verdict {
    pub open spec fn tone_of(self) -> Tone {
        match self {
            Verdict::Blank => Tone::Plain,
            Verdict::Empty | Verdict::NotFound | Verdict::AlreadyExists => Tone::Error,
            Verdict::WrongType | Verdict::InvalidScheme => Tone::Warning,
            Verdict::Ignored | Verdict::Valid => Tone::Success,
        }
    }

    pub fn tone(&self) -> (r: Tone)
        ensures
            r == self.tone_of(),
    {
        match self {
            Verdict::Blank => Tone::Plain,
            Verdict::Empty | Verdict::NotFound | Verdict::AlreadyExists => Tone::Error,
            Verdict::WrongType | Verdict::InvalidScheme => Tone::Warning,
            Verdict::Ignored | Verdict::Valid => Tone::Success,
        }
    }

    pub open spec fn label_of(self) -> Seq<char> {
        match self {
            Verdict::Blank => ""@,
            Verdict::Empty => " - Empty"@,
            Verdict::NotFound => " - Not found"@,
            Verdict::WrongType => " - Unexpected type"@,
            Verdict::InvalidScheme => " - Invalid scheme"@,
            Verdict::Ignored => " - Ignored"@,
            Verdict::AlreadyExists => " - Already exists"@,
            Verdict::Valid => " - OK"@,
        }
    }

    /// The short suffix shown after the field's title.
    pub fn label(&self) -> (r: &'static str)
        ensures
            r@ == self.label_of(),
    {
        match self {
            Verdict::Blank => "",
            Verdict::Empty => " - Empty",
            Verdict::NotFound => " - Not found",
            Verdict::WrongType => " - Unexpected type",
            Verdict::InvalidScheme => " - Invalid scheme",
            Verdict::Ignored => " - Ignored",
            Verdict::AlreadyExists => " - Already exists",
            Verdict::Valid => " - OK",
        }
    }
}

/// What the filesystem answered about the paths a field names: the whole
/// trimmed text, and the target (the local path of a `file://` URL, or the
/// executable named in an Exec line).
#[derive(Clone, Copy, Debug, PartialEq, Eq, Structural)]
pub struct PathProbe {
    pub whole_exists: bool,
    pub target_exists: bool,
    pub target_executable: bool,
}

pub const FILE_SCHEME: &'static str = "file://";

pub open spec fn has_known_scheme(t: Seq<char>) -> bool {
    starts_with(t, FILE_SCHEME@) || starts_with(t, "https://"@) || starts_with(t, "http://"@)
        || starts_with(t, "mailto:"@) || starts_with(t, "smb://"@) || starts_with(
        t,
        "trash:///"@,
    ) || starts_with(t, "recent:///"@)
}

/// The local path of a `file://` URL.
pub open spec fn local_path(t: Seq<char>) -> Seq<char> {
    t.skip(FILE_SCHEME@.len() as int)
}

/// The start of the run of non-whitespace characters that ends at `p`.
pub open spec fn token_start(s: Seq<char>, p: int) -> int
    decreases p,
{
    if 0 < p <= s.len() && !is_white_space(s[p - 1]) {
        token_start(s, p - 1)
    } else {
        p
    }
}

/// The end of the run of non-whitespace characters that starts at `p`.
pub open spec fn token_end(s: Seq<char>, p: int) -> int
    decreases s.len() - p,
{
    if 0 <= p < s.len() && !is_white_space(s[p]) {
        token_end(s, p + 1)
    } else {
        p
    }
}

/// The first whitespace-separated token of `s` that holds a `/`: the
/// token around the first `/`.
pub open spec fn exec_candidate(s: Seq<char>) -> Option<Seq<char>> {
    match first_index_of(s, '/') {
        Some(p) => Some(s.subrange(token_start(s, p), token_end(s, p))),
        None => None,
    }
}

/// The path whose existence decides a field under the given type: the
/// local path of a `file://` link, or the executable of an Exec line.
pub open spec fn probe_target(is_link: bool, t: Seq<char>) -> Option<Seq<char>> {
    if is_link {
        if starts_with(t, FILE_SCHEME@) {
            Some(local_path(t))
        } else {
            None
        }
    } else {
        exec_candidate(t)
    }
}

/// Verdict on a trimmed URL of a Link entry.
pub open spec fn link_verdict(t: Seq<char>, local_exists: bool) -> Verdict {
    if t.len() == 0 {
        Verdict::Empty
    } else if !has_known_scheme(t) {
        Verdict::InvalidScheme
    } else if starts_with(t, FILE_SCHEME@) && !local_exists {
        Verdict::NotFound
    } else {
        Verdict::Valid
    }
}

/// Verdict on a file extension against an allow-list, up to ASCII case.
pub open spec fn extension_verdict(ext: Option<Seq<char>>, exts: Seq<Seq<char>>) -> Verdict {
    match ext {
        Some(e) => if exists|i: int| 0 <= i < exts.len() && eq_ignore_ascii_case(#[trigger] exts[i], e) {
            Verdict::Valid
        } else {
            Verdict::WrongType
        },
        None => Verdict::WrongType,
    }
}

/// Verdict on a trimmed, non-empty Exec line.
pub open spec fn exec_verdict(t: Seq<char>, probe: PathProbe) -> Verdict {
    if has_double_slash(t) {
        Verdict::Valid
    } else if exec_candidate(t) is None {
        Verdict::Valid
    } else if !probe.target_exists {
        Verdict::NotFound
    } else if !probe.target_executable {
        Verdict::WrongType
    } else {
        Verdict::Valid
    }
}

/// Verdict on the Name field.
pub open spec fn name_verdict(focused: bool, edit: bool, text: Seq<char>, dest_exists: bool) -> Verdict {
    if !focused {
        Verdict::Blank
    } else if edit {
        Verdict::Ignored
    } else if trim(text).len() == 0 {
        Verdict::Empty
    } else if dest_exists {
        Verdict::AlreadyExists
    } else {
        Verdict::Valid
    }
}

/// Whether `t` starts with one of the recognised URL schemes.
pub fn known_scheme(t: &str) -> (r: bool)
    ensures
        r == has_known_scheme(t@),
{
    str_starts_with(t, FILE_SCHEME) || str_starts_with(t, "https://") || str_starts_with(
        t,
        "http://",
    ) || str_starts_with(t, "mailto:") || str_starts_with(t, "smb://") || str_starts_with(
        t,
        "trash:///",
    ) || str_starts_with(t, "recent:///")
}

/// The local path of a `file://` URL.
pub fn file_url_path(t: &str) -> (r: &str)
    requires
        starts_with(t@, FILE_SCHEME@),
    ensures
        r@ == local_path(t@),
{
    let n = t.unicode_len();
    let k = FILE_SCHEME.unicode_len();
    t.substring_char(k, n)
}

/// The first whitespace-separated token of `t` that holds a `/`.
pub fn find_exec_candidate(t: &str) -> (r: Option<&str>)
    ensures
        match r {
            Some(c) => exec_candidate(t@) == Some(c@),
            None => exec_candidate(t@) is None,
        },
{
    let n = t.unicode_len();
    match str_find_char(t, '/') {
        None => None,
        Some(p) => {
            let mut i: usize = p;
            while i > 0 && !is_whitespace_char(t.get_char(i - 1))
                invariant
                    n == t@.len(),
                    i <= p < n,
                    token_start(t@, p as int) == token_start(t@, i as int),
                decreases i,
            {
                i = i - 1;
            }
            let mut j: usize = p;
            while j < n && !is_whitespace_char(t.get_char(j))
                invariant
                    n == t@.len(),
                    p <= j <= n,
                    token_end(t@, p as int) == token_end(t@, j as int),
                decreases n - j,
            {
                j = j + 1;
            }
            Some(t.substring_char(i, j))
        },
    }
}

/// The verdict on a trimmed URL of a Link entry, given whether its local
/// path exists.
pub fn link_verdict_for(t: &str, local_exists: bool) -> (r: Verdict)
    ensures
        r == link_verdict(t@, local_exists),
{
    if t.unicode_len() == 0 {
        Verdict::Empty
    } else if !known_scheme(t) {
        Verdict::InvalidScheme
    } else if str_starts_with(t, FILE_SCHEME) && !local_exists {
        Verdict::NotFound
    } else {
        Verdict::Valid
    }
}

/// The verdict on a file extension (as `Path::extension` gives it)
/// against an allow-list.
pub fn extension_verdict_for(ext: Option<&str>, exts: &[&str]) -> (r: Verdict)
    ensures
        r == extension_verdict(opt_text(ext), texts_of(exts@)),
{
    let ghost allowed = texts_of(exts@);
    if ext.is_none() {
        return Verdict::WrongType;
    }
    let e = ext.unwrap();
    let mut i: usize = 0;
    while i < exts.len()
        invariant
            allowed == texts_of(exts@),
            opt_text(ext) == Some(e@),
            i <= exts@.len(),
            forall|k: int| 0 <= k < i ==> !eq_ignore_ascii_case(#[trigger] allowed[k], e@),
        decreases exts@.len() - i,
    {
        if str_eq_ignore_ascii_case(exts[i], e) {
            assert(eq_ignore_ascii_case(allowed[i as int], e@));
            return Verdict::Valid;
        }
        i = i + 1;
    }
    Verdict::WrongType
}

/// The verdict on a trimmed Exec line, given what the filesystem answered
/// about its executable.
pub fn exec_verdict_for(t: &str, probe: PathProbe) -> (r: Verdict)
    ensures
        r == exec_verdict(t@, probe),
{
    if str_has_double_slash(t) {
        Verdict::Valid
    } else if find_exec_candidate(t).is_none() {
        Verdict::Valid
    } else if !probe.target_exists {
        Verdict::NotFound
    } else if !probe.target_executable {
        Verdict::WrongType
    } else {
        Verdict::Valid
    }
}

/// The verdict on the Name field, given whether the record it would be
/// saved to already exists.
pub fn name_verdict_for(focused: bool, edit: bool, text: &str, dest_exists: bool) -> (r: Verdict)
    ensures
        r == name_verdict(focused, edit, text@, dest_exists),
{
    if !focused {
        Verdict::Blank
    } else if edit {
        Verdict::Ignored
    } else if trim_str(text).unicode_len() == 0 {
        Verdict::Empty
    } else if dest_exists {
        Verdict::AlreadyExists
    } else {
        Verdict::Valid
    }
}

/// Relies on `std::path::Path::exists`: whether something is at `path`
/// at the time of the call.
#[verifier::external_body]
pub(crate) fn path_exists(path: &str) -> bool {
    std::path::Path::new(path).exists()
}

/// Relies on `is_executable::is_executable`: whether a file at `path` is
/// marked executable at the time of the call.
#[verifier::external_body]
pub(crate) fn path_is_executable(path: &str) -> bool {
    is_executable::is_executable(path)
}

/// What `Path::extension` gives for a path: it depends on the path text alone.
pub uninterp spec fn path_extension(path: Seq<char>) -> Option<Seq<char>>;

/// Relies on `std::path::Path::extension`: the part of the file name after
/// its last `.`, read back as text.
#[verifier::external_body]
pub(crate) fn extension_of<'a>(path: &'a str) -> (r: Option<&'a str>)
    ensures
        match r {
            Some(e) => path_extension(path@) == Some(e@),
            None => path_extension(path@) is None,
        },
{
    std::path::Path::new(path).extension().and_then(|e| e.to_str())
}

/// Asks the filesystem about the paths a trimmed field text names.
pub fn probe_paths(is_link: bool, t: &str) -> (r: PathProbe)
    ensures
        probe_target(is_link, t@) is None ==> !r.target_exists && !r.target_executable,
{
    let whole_exists = path_exists(t);
    let target = if is_link {
        if str_starts_with(t, FILE_SCHEME) {
            Some(file_url_path(t))
        } else {
            None
        }
    } else {
        find_exec_candidate(t)
    };
    match target {
        Some(p) => PathProbe {
            whole_exists,
            target_exists: path_exists(p),
            target_executable: path_is_executable(p),
        },
        None => PathProbe { whole_exists, target_exists: false, target_executable: false },
    }
}

/// The verdict on a path-like field (`index` is Exec-or-URL or Icon) of
/// form `f` holding `text`, with extension allow-list `exts`, given what
/// the filesystem answered and the extension of the trimmed text.
pub open spec fn path_verdict(
    f: Form,
    text: Seq<char>,
    exts: Seq<Seq<char>>,
    index: int,
    probe: PathProbe,
    ext: Option<Seq<char>>,
) -> Verdict {
    let t = trim(text);
    let ty = f.texts[IDX_TYPE as int];
    if f.focus != index {
        Verdict::Blank
    } else if index == IDX_EXEC && ty == TYPE_LINK@ {
        link_verdict(t, probe.target_exists)
    } else if (ty == TYPE_APPLICATION_OTHER@ || ty == TYPE_DIRECTORY@) && !probe.whole_exists {
        Verdict::Ignored
    } else if t.len() == 0 && (index == IDX_EXEC || index == IDX_ICON) {
        Verdict::Empty
    } else if exts.len() > 0 {
        extension_verdict(ext, exts)
    } else {
        exec_verdict(t, probe)
    }
}

/// The save gate of form `f`, given whether its record file already
/// exists and whether the path its Exec-or-URL slot names exists.
pub open spec fn save_gate(f: Form, dest_exists: bool, target_exists: bool) -> bool {
    let name = trim(f.texts[IDX_NAME as int]);
    let ty = f.texts[IDX_TYPE as int];
    let slot = trim(f.texts[IDX_EXEC as int]);
    &&& name.len() > 0
    &&& f.edit || !dest_exists
    &&& if ty == TYPE_LINK@ {
        slot.len() > 0 && if starts_with(slot, FILE_SCHEME@) {
            target_exists
        } else {
            has_known_scheme(slot)
        }
    } else if ty == TYPE_APPLICATION@ {
        has_double_slash(slot) || (exec_candidate(slot) is Some && target_exists)
    } else {
        true
    }
}

/// How a field is highlighted.
#[derive(Clone, Copy, Debug, PartialEq, Eq, Structural)]
pub enum BlockStyle {
    Plain,
    Active,
    /// The focused Cancel button.
    ActiveCancel,
}

impl App {
    /// The verdict on a path-like field, given the filesystem's answers
    /// and the extension of the trimmed text.
    pub fn path_verdict(
        &self,
        input: &str,
        exts: &[&str],
        index: usize,
        probe: PathProbe,
        ext: Option<&str>,
    ) -> (r: Verdict)
        requires
            self.wf(),
        ensures
            r == path_verdict(self@, input@, texts_of(exts@), index as int, probe, opt_text(ext)),
    {
        let t = trim_str(input);
        let ty = self.input[IDX_TYPE].value.as_str();
        assert(ty@ == self@.texts[IDX_TYPE as int]);
        if self.block_index != index {
            Verdict::Blank
        } else if index == IDX_EXEC && str_eq(ty, TYPE_LINK) {
            link_verdict_for(t, probe.target_exists)
        } else if (str_eq(ty, TYPE_APPLICATION_OTHER) || str_eq(ty, TYPE_DIRECTORY))
            && !probe.whole_exists {
            Verdict::Ignored
        } else if t.unicode_len() == 0 && (index == IDX_EXEC || index == IDX_ICON) {
            Verdict::Empty
        } else if exts.len() > 0 {
            extension_verdict_for(ext, exts)
        } else {
            exec_verdict_for(t, probe)
        }
    }

    /// The verdict on a path-like field, asking the filesystem.
    pub fn validate_path(&self, input: &str, exts: &[&str], index: usize) -> (r: Verdict)
        requires
            self.wf(),
        ensures
            exists|probe: PathProbe|
                r == #[trigger] path_verdict(
                    self@,
                    input@,
                    texts_of(exts@),
                    index as int,
                    probe,
                    path_extension(trim(input@)),
                ),
            self@.focus != index ==> r == Verdict::Blank,
    {
        let t = trim_str(input);
        let is_link = index == IDX_EXEC && str_eq(self.input[IDX_TYPE].value.as_str(), TYPE_LINK);
        let probe = probe_paths(is_link, t);
        let ext = extension_of(t);
        self.path_verdict(input, exts, index, probe, ext)
    }

    /// The verdict on the Name field, asking the filesystem whether its
    /// record file already exists.
    pub fn validate_name(&self, input: &str, index: usize) -> (r: Verdict)
        requires
            self.wf(),
        ensures
            r == name_verdict(self@.focus == index, self@.edit, input@, false) || r
                == name_verdict(self@.focus == index, self@.edit, input@, true),
    {
        let focused = self.block_index == index;
        if !focused || self.edit {
            return name_verdict_for(focused, self.edit, input, false);
        }
        let trimmed = trim_str(input);
        let mut file_name = trimmed.to_owned();
        file_name.append(DESKTOP_SUFFIX);
        let path = record_path(file_name.as_str());
        let dest_exists = path_exists(path.as_str());
        name_verdict_for(focused, self.edit, input, dest_exists)
    }

    /// The save gate, given the filesystem's answers.
    pub fn can_save_with(&self, dest_exists: bool, target_exists: bool) -> (r: bool)
        requires
            self.wf(),
        ensures
            r == save_gate(self@, dest_exists, target_exists),
    {
        let name = trim_str(self.input[IDX_NAME].value.as_str());
        if name.unicode_len() == 0 {
            return false;
        }
        if !self.edit && dest_exists {
            return false;
        }
        let ty = self.input[IDX_TYPE].value.as_str();
        let slot = trim_str(self.input[IDX_EXEC].value.as_str());
        if str_eq(ty, TYPE_LINK) {
            if slot.unicode_len() == 0 {
                false
            } else if str_starts_with(slot, FILE_SCHEME) {
                target_exists
            } else {
                known_scheme(slot)
            }
        } else if str_eq(ty, TYPE_APPLICATION) {
            str_has_double_slash(slot) || (find_exec_candidate(slot).is_some() && target_exists)
        } else {
            true
        }
    }

    /// Whether the form may be saved now, asking the filesystem.
    pub fn can_save(&self) -> (r: bool)
        requires
            self.wf(),
        ensures
            exists|dest_exists: bool, target_exists: bool|
                r == #[trigger] save_gate(self@, dest_exists, target_exists),
            trim(self@.texts[IDX_NAME as int]).len() == 0 ==> !r,
    {
        let name = trim_str(self.input[IDX_NAME].value.as_str());
        if name.unicode_len() == 0 {
            return self.can_save_with(false, false);
        }
        let mut file_name = name.to_owned();
        file_name.append(DESKTOP_SUFFIX);
        let path = record_path(file_name.as_str());
        let dest_exists = path_exists(path.as_str());
        let slot = trim_str(self.input[IDX_EXEC].value.as_str());
        let is_link = str_eq(self.input[IDX_TYPE].value.as_str(), TYPE_LINK);
        let probe = probe_paths(is_link, slot);
        self.can_save_with(dest_exists, probe.target_exists)
    }

    /// How field `index` is highlighted: the focused field stands out, the
    /// focused Cancel button as a warning.
    pub fn is_active_block_style(&self, index: usize) -> (r: BlockStyle)
        ensures
            r == (if self.block_index == index && index == crate::fields::IDX_CANCEL {
                BlockStyle::ActiveCancel
            } else if self.block_index == index {
                BlockStyle::Active
            } else {
                BlockStyle::Plain
            }),
    {
        if self.block_index == index && index == crate::fields::IDX_CANCEL {
            BlockStyle::ActiveCancel
        } else if self.block_index == index {
            BlockStyle::Active
        } else {
            BlockStyle::Plain
        }
    }
}

} // verus!
