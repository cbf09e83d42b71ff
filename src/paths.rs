//! Where records live: the applications directory, record file names,
//! and path joining.
use crate::record::DESKTOP_SUFFIX;
use crate::text::{opt_string, ends_with, str_ends_with, trim, trim_str};
use crate::validate::{extension_of, path_exists, path_extension};
use vstd::prelude::*;

verus! {

/// Used when the platform names no data directory.
pub const FALLBACK_DATA_DIR: &'static str = "/tmp";
pub const APPLICATIONS: &'static str = "applications";
pub const DESKTOP_EXTENSION: &'static str = "desktop";

/// `seg` appended to `base` as `PathBuf::push` does on Unix: an absolute
/// `seg` replaces `base`, and a separator is added only where needed.
pub open spec fn join(base: Seq<char>, seg: Seq<char>) -> Seq<char> {
    if seg.len() > 0 && seg[0] == '/' {
        seg
    } else if base.len() == 0 {
        seg
    } else if base.last() == '/' {
        base + seg
    } else {
        base + seq!['/'] + seg
    }
}

/// The applications directory under a data directory, or under the
/// fallback when there is none.
pub open spec fn applications_path_of(data_dir: Option<Seq<char>>) -> Seq<char> {
    join(
        match data_dir {
            Some(d) => d,
            None => FALLBACK_DATA_DIR@,
        },
        APPLICATIONS@,
    )
}

/// A record file name for `input`: trimmed, with `.desktop` added unless
/// it is already there.
pub open spec fn normalized_name(input: Seq<char>) -> Seq<char> {
    let t = trim(input);
    if ends_with(t, DESKTOP_SUFFIX@) {
        t
    } else {
        t + DESKTOP_SUFFIX@
    }
}

pub fn join_path(base: &str, seg: &str) -> (r: String)
    ensures
        r@ == join(base@, seg@),
{
    let n = base.unicode_len();
    if seg.unicode_len() > 0 && seg.get_char(0) == '/' {
        seg.to_owned()
    } else if n == 0 {
        seg.to_owned()
    } else if base.get_char(n - 1) == '/' {
        let mut s = base.to_owned();
        s.append(seg);
        s
    } else {
        let mut s = base.to_owned();
        s.append("/");
        s.append(seg);
        proof {
            reveal_strlit("/");
        }
        assert(s@ =~= base@ + seq!['/'] + seg@);
        s
    }
}

pub fn applications_path(data_dir: Option<String>) -> (r: String)
    ensures
        r@ == applications_path_of(opt_string(data_dir)),
{
    match data_dir {
        Some(d) => join_path(d.as_str(), APPLICATIONS),
        None => join_path(FALLBACK_DATA_DIR, APPLICATIONS),
    }
}

/// Relies on `dirs::data_dir`: the user's data directory, if the platform
/// names one, read back as text.
#[verifier::external_body]
fn data_dir() -> Option<String> {
    dirs::data_dir().and_then(|p| p.to_str().map(|s| s.to_string()))
}

/// The directory records are kept in.
pub fn applications_dir() -> (r: String)
    ensures
        exists|d: Option<Seq<char>>| r@ == applications_path_of(d),
{
    applications_path(data_dir())
}

/// The path of the record file `file_name`.
pub fn record_path(file_name: &str) -> (r: String)
    ensures
        exists|d: Option<Seq<char>>| r@ == join(applications_path_of(d), file_name@),
{
    let dir = applications_dir();
    join_path(dir.as_str(), file_name)
}

/// A record file name for `input`: trimmed, with `.desktop` added unless
/// it is already there.
pub fn normalize_desktop_name(input: &str) -> (r: String)
    ensures
        r@ == normalized_name(input@),
{
    let trimmed = trim_str(input);
    if str_ends_with(trimmed, DESKTOP_SUFFIX) {
        trimmed.to_owned()
    } else {
        let mut s = trimmed.to_owned();
        s.append(DESKTOP_SUFFIX);
        s
    }
}

/// Whether a record for `name` exists; a blank name has none.
pub fn desktop_exists(name: &str) -> (r: bool)
    ensures
        trim(name@).len() == 0 ==> !r,
{
    let trimmed = trim_str(name);
    if trimmed.unicode_len() == 0 {
        return false;
    }
    let file_name = normalize_desktop_name(trimmed);
    let path = record_path(file_name.as_str());
    path_exists(path.as_str())
}

/// Whether a file name has the `desktop` extension, as directory listings
/// select records.
pub fn is_desktop_file(file_name: &str) -> (r: bool)
    ensures
        r == (path_extension(file_name@) == Some(DESKTOP_EXTENSION@)),
{
    match extension_of(file_name) {
        Some(e) => crate::text::str_eq(e, DESKTOP_EXTENSION),
        None => false,
    }
}

} // verus!
