//! File-system paths as text. Path syntax is `std::path`'s for the target
//! platform; each operation is a call of the `std::path` function, whose
//! result is named here so that contracts can speak of it.

use vstd::prelude::*;
use vstd::string::*;
use crate::text::{decimal, decimal_string};

verus! {

/// `Path::parent` of a path.
pub uninterp spec fn path_parent(path: Seq<char>) -> Option<Seq<char>>;

/// `Path::file_name` of a path.
pub uninterp spec fn path_file_name(path: Seq<char>) -> Option<Seq<char>>;

/// The index of the last `.` of a text, or -1 when it has none.
pub open spec fn last_dot(name: Seq<char>) -> int
    decreases name.len(),
{
    if name.len() == 0 {
        -1
    } else if name.last() == '.' {
        name.len() - 1
    } else {
        last_dot(name.drop_last())
    }
}

/// The extension of a file name, as `std::path` documents it: none for
/// `..`, none without an embedded `.`, none when the only `.` leads the
/// name; otherwise the part after the final `.`.
pub open spec fn name_extension(name: Seq<char>) -> Option<Seq<char>> {
    if name == ".."@ || last_dot(name) <= 0 {
        None
    } else {
        Some(name.subrange(last_dot(name) + 1, name.len() as int))
    }
}

/// `Path::extension` of a path: that of its file name, none without one.
pub open spec fn path_extension(path: Seq<char>) -> Option<Seq<char>> {
    match path_file_name(path) {
        Some(n) => name_extension(n),
        None => None,
    }
}

/// `Path::join` of a path and another.
pub uninterp spec fn path_joined(base: Seq<char>, part: Seq<char>) -> Seq<char>;

/// `Path::with_extension` of a path and an extension.
pub uninterp spec fn path_with_extension(path: Seq<char>, extension: Seq<char>) -> Seq<char>;

/// `std::path::Path::parent`: the claim is that the result is the one
/// `path_parent` names, and that a parent is a proper prefix of the path
/// (the path without its final component).
#[verifier::external_body]
pub(crate) fn parent(path: &str) -> (r: Option<String>)
    ensures
        r matches Some(p) ==> Some(p@) == path_parent(path@),
        r is None ==> path_parent(path@) is None,
        r matches Some(p) ==> p@.len() < path@.len() && path@.subrange(0, p@.len() as int) == p@,
{
    match std::path::Path::new(path).parent() {
        Some(p) => Some(p.to_string_lossy().into_owned()),
        None => None,
    }
}

/// `std::path::Path::file_name`: the claim is that the result is the one
/// `path_file_name` names.
#[verifier::external_body]
pub(crate) fn file_name(path: &str) -> (r: Option<String>)
    ensures
        r matches Some(n) ==> Some(n@) == path_file_name(path@),
        r is None ==> path_file_name(path@) is None,
{
    match std::path::Path::new(path).file_name() {
        Some(n) => Some(n.to_string_lossy().into_owned()),
        None => None,
    }
}

/// `std::path::Path::extension`: the claim is that the result is
/// `path_extension`: the extension of the file name as std documents it.
#[verifier::external_body]
pub(crate) fn extension(path: &str) -> (r: Option<String>)
    ensures
        r matches Some(e) ==> Some(e@) == path_extension(path@),
        r is None ==> path_extension(path@) is None,
{
    match std::path::Path::new(path).extension() {
        Some(e) => Some(e.to_string_lossy().into_owned()),
        None => None,
    }
}

/// `std::path::Path::join`: the claim is that the result is the one
/// `path_joined` names.
#[verifier::external_body]
pub(crate) fn join(base: &str, part: &str) -> (r: String)
    ensures
        r@ == path_joined(base@, part@),
{
    std::path::Path::new(base).join(part).to_string_lossy().into_owned()
}

/// Whether a text holds no path separator of any platform (`/` or `\\`).
pub open spec fn no_separator(s: Seq<char>) -> bool {
    !s.contains('/') && !s.contains('\\')
}

/// `std::path::Path::with_extension`: the claim is that the result is the
/// one `path_with_extension` names. `PathBuf::set_extension` panics on an
/// extension that holds a path separator, so such extensions are refused.
#[verifier::external_body]
pub(crate) fn with_extension(path: &str, extension: &str) -> (r: String)
    requires
        no_separator(extension@),
    ensures
        r@ == path_with_extension(path@, extension@),
{
    std::path::Path::new(path).with_extension(extension).to_string_lossy().into_owned()
}

/// The name of a fresh directory for a process and an instant:
/// `<prefix>-<pid>-<nanos>`.
pub open spec fn fresh_dir_name(prefix: Seq<char>, pid: u32, nanos: u128) -> Seq<char> {
    prefix + "-"@ + decimal(pid as nat) + "-"@ + decimal(nanos as nat)
}

/// A fresh directory path in the temporary directory, named after the
/// process and the instant: `<temp_dir>/<prefix>-<pid>-<nanos>`.
pub fn unique_temp_dir(temp_dir: &str, prefix: &str, pid: u32, nanos: u128) -> (d: String)
    ensures
        d@ == path_joined(temp_dir@, fresh_dir_name(prefix@, pid, nanos)),
{
    let name = String::from_str(prefix)
        .concat("-")
        .concat(decimal_string(pid as u128).as_str())
        .concat("-")
        .concat(decimal_string(nanos).as_str());
    join(temp_dir, name.as_str())
}

} // verus!
