//! Install strategies: the macOS `.app` bundle swap, and on Windows the
//! staged `msiexec` handoff of an `.msi` or the rename-in-place of a bare
//! `.exe`, and elsewhere the extraction of a `.tar.gz` whose binary is
//! renamed over the installed one. The file-system and process work runs
//! outside the library; the decisions, names and error texts are here.

use vstd::prelude::*;
use vstd::string::*;
use crate::error::{Error, ErrorView};
use crate::paths::{no_separator, extension, file_name, join, parent, path_extension, path_file_name, path_joined, path_parent, path_with_extension, with_extension};
use crate::text::{chars_of, eq_ignore_ascii_case, equals_ignore_ascii_case, string_of};

verus! {

/// The result of an install: the binary to relaunch, when one was found,
/// and a command to run after the app exits and before it is relaunched,
/// when the update is applied then (an installer handoff).
#[derive(Debug, PartialEq, Eq)]
pub struct Installed {
    pub restart_binary: Option<String>,
    pub apply_on_exit: Option<Vec<String>>,
}

/// The first of `path` and its ancestors (parent, grandparent, ...) whose
/// extension is `app`.
pub open spec fn enclosing_bundle(path: Seq<char>) -> Option<Seq<char>>
    decreases path.len(),
{
    if path_extension(path) == Some("app"@) {
        Some(path)
    } else {
        match path_parent(path) {
            Some(p) => if p.len() < path.len() {
                enclosing_bundle(p)
            } else {
                None
            },
            None => None,
        }
    }
}

/// The enclosing bundle of a path is an `.app`: a path that is itself an
/// `.app` is its own enclosing bundle, and whatever bundle is found has the
/// extension `app`.
pub proof fn lemma_enclosing_bundle_is_an_app(path: Seq<char>)
    ensures
        path_extension(path) == Some("app"@) ==> enclosing_bundle(path) == Some(path),
        enclosing_bundle(path) matches Some(b) ==> path_extension(b) == Some("app"@),
    decreases path.len(),
{
    if path_extension(path) != Some("app"@) {
        if let Some(p) = path_parent(path) {
            if p.len() < path.len() {
                lemma_enclosing_bundle_is_an_app(p);
            }
        }
    }
}

/// Walk up from `exe` to the enclosing `*.app` bundle directory.
pub fn bundle_root(exe: &str) -> (r: Option<String>)
    ensures
        match r { Some(b) => Some(b@), None => None::<Seq<char>> } == enclosing_bundle(exe@),
{
    let app = String::from_str("app");
    let mut cur = String::from_str(exe);
    loop
        invariant
            app@ == "app"@,
            enclosing_bundle(cur@) == enclosing_bundle(exe@),
        decreases cur@.len(),
    {
        let ext = extension(cur.as_str());
        let is_app = match &ext {
            Some(e) => *e == app,
            None => false,
        };
        if is_app {
            return Some(cur);
        }
        match parent(cur.as_str()) {
            Some(p) => {
                cur = p;
            },
            None => {
                return None;
            },
        }
    }
}

/// Whether the character is white space as `char::is_whitespace` decides
/// (the Unicode `White_Space` property).
pub open spec fn is_white_space(c: char) -> bool {
    ||| '\t' <= c && c <= '\r'
    ||| c == ' '
    ||| c == '\u{85}'
    ||| c == '\u{a0}'
    ||| c == '\u{1680}'
    ||| '\u{2000}' <= c && c <= '\u{200a}'
    ||| c == '\u{2028}'
    ||| c == '\u{2029}'
    ||| c == '\u{202f}'
    ||| c == '\u{205f}'
    ||| c == '\u{3000}'
}

fn white_space(c: char) -> (r: bool)
    ensures
        r == is_white_space(c),
{
    ('\t' <= c && c <= '\r') || c == ' ' || c == '\u{85}' || c == '\u{a0}' || c == '\u{1680}'
        || ('\u{2000}' <= c && c <= '\u{200a}') || c == '\u{2028}' || c == '\u{2029}'
        || c == '\u{202f}' || c == '\u{205f}' || c == '\u{3000}'
}

/// `s` without leading and trailing white space, as `str::trim` gives it:
/// the part between the first and the last character that is not white
/// space (empty when there is none).
pub open spec fn trimmed(s: Seq<char>, from: int, to: int) -> bool {
    &&& 0 <= from <= to <= s.len()
    &&& forall|i: int| 0 <= i < from ==> is_white_space(#[trigger] s[i])
    &&& forall|i: int| to <= i < s.len() ==> is_white_space(#[trigger] s[i])
    &&& from < to ==> !is_white_space(s[from]) && !is_white_space(s[to - 1])
}

/// Trims white space from both ends.
pub fn trim(s: &str) -> (r: String)
    ensures
        exists|from: int, to: int| trimmed(s@, from, to) && r@ == s@.subrange(from, to),
{
    let v = chars_of(s);
    let n = v.len();
    let mut from: usize = 0;
    while from < n && white_space(v[from])
        invariant
            from <= n,
            n == v@.len(),
            forall|i: int| 0 <= i < from ==> is_white_space(#[trigger] v@[i]),
        decreases n - from,
    {
        from = from + 1;
    }
    let mut to: usize = n;
    while to > from && white_space(v[to - 1])
        invariant
            from <= to <= n,
            n == v@.len(),
            forall|i: int| to <= i < n ==> is_white_space(#[trigger] v@[i]),
        decreases to,
    {
        to = to - 1;
    }
    let r = string_of(v.as_slice(), from, to);
    assert(trimmed(s@, from as int, to as int));
    r
}

/// The error of a helper tool that exited unsuccessfully: `<what> failed:
/// <stderr trimmed>`.
pub fn tool_outcome(what: &str, success: bool, stderr: &str) -> (r: Result<(), Error>)
    ensures
        success ==> r is Ok,
        !success ==> exists|from: int, to: int| trimmed(stderr@, from, to) && (r matches Err(e) && e@
            == ErrorView::Install(what@ + " failed: "@ + stderr@.subrange(from, to))),
{
    if success {
        Ok(())
    } else {
        let t = trim(stderr);
        Err(Error::Install(String::from_str(what).concat(" failed: ").concat(t.as_str())))
    }
}

/// The error when a mounted disk image holds no `.app`.
pub open spec fn no_app_text() -> Seq<char> {
    "no .app found in the mounted disk image"@
}

/// Whether a path names an `.app` bundle (its extension is `app`).
pub open spec fn is_app_path(p: Seq<char>) -> bool {
    path_extension(p) == Some("app"@)
}

/// Finds the first `*.app` among the entries of a mounted volume, in the
/// order the directory listed them.
pub fn find_app(entries: &[String]) -> (r: Result<String, Error>)
    ensures
        r matches Ok(p) ==> exists|i: int| 0 <= i < entries@.len() && entries@[i] == p && is_app_path(p@)
            && forall|j: int| 0 <= j < i ==> !is_app_path(#[trigger] entries@[j]@),
        r is Err <==> forall|j: int| 0 <= j < entries@.len() ==> !is_app_path(#[trigger] entries@[j]@),
        r matches Err(e) ==> e@ == ErrorView::Install(no_app_text()),
{
    let app = String::from_str("app");
    let mut i: usize = 0;
    while i < entries.len()
        invariant
            app@ == "app"@,
            i <= entries@.len(),
            forall|j: int| 0 <= j < i ==> !is_app_path(#[trigger] entries@[j]@),
        decreases entries@.len() - i,
    {
        let found = match extension(entries[i].as_str()) {
            Some(e) => e == app,
            None => false,
        };
        if found {
            return Ok(entries[i].clone());
        }
        i = i + 1;
    }
    Err(Error::Install(String::from_str("no .app found in the mounted disk image")))
}

/// The path of the first entry that is a regular file, in listing order.
pub open spec fn first_file(es: Seq<(String, bool)>) -> Option<String>
    decreases es.len(),
{
    if es.len() == 0 {
        None
    } else if es[0].1 {
        Some(es[0].0)
    } else {
        first_file(es.drop_first())
    }
}

/// `first_file` picks the first regular file of a listing: the entry it
/// gives is a regular file of the listing and no earlier entry is one; it
/// gives nothing exactly when no entry is a regular file.
pub proof fn lemma_first_file_is_first(es: Seq<(String, bool)>)
    ensures
        first_file(es) matches Some(p) ==> exists|i: int|
            0 <= i < es.len() && es[i].1 && es[i].0 == p && forall|j: int| 0 <= j < i ==> !(#[trigger] es[j]).1,
        first_file(es) is None <==> forall|j: int| 0 <= j < es.len() ==> !(#[trigger] es[j]).1,
    decreases es.len(),
{
    if es.len() > 0 {
        lemma_first_file_is_first(es.drop_first());
        if !es[0].1 {
            if let Some(p) = first_file(es) {
                let k = choose|k: int|
                    0 <= k < es.drop_first().len() && es.drop_first()[k].1 && es.drop_first()[k].0 == p
                        && forall|j: int| 0 <= j < k ==> !(#[trigger] es.drop_first()[j]).1;
                assert(es[k + 1] == es.drop_first()[k]);
                assert forall|j: int| 0 <= j < k + 1 implies !(#[trigger] es[j]).1 by {
                    if j > 0 {
                        assert(es[j] == es.drop_first()[j - 1]);
                    }
                }
            } else {
                assert forall|j: int| 0 <= j < es.len() implies !(#[trigger] es[j]).1 by {
                    if j > 0 {
                        assert(es[j] == es.drop_first()[j - 1]);
                    }
                }
            }
            if forall|j: int| 0 <= j < es.len() ==> !(#[trigger] es[j]).1 {
                assert forall|j: int| 0 <= j < es.drop_first().len() implies !(#[trigger] es.drop_first()[j]).1 by {
                    assert(es.drop_first()[j] == es[j + 1]);
                }
            }
        }
    }
}

/// The first regular file of a directory listing, in listing order; `None`
/// when the directory could not be read or holds no file. Each entry is a
/// path and whether it is a regular file.
pub fn first_file_in(listing: Option<Vec<(String, bool)>>) -> (r: Option<String>)
    ensures
        r == match listing {
            Some(es) => first_file(es@),
            None => None,
        },
{
    let es = match listing {
        Some(es) => es,
        None => return None,
    };
    let mut i: usize = 0;
    assert(es@.subrange(0, es@.len() as int) =~= es@);
    while i < es.len()
        invariant
            i <= es@.len(),
            listing == Some(es),
            first_file(es@) == first_file(es@.subrange(i as int, es@.len() as int)),
        decreases es@.len() - i,
    {
        let ghost rest = es@.subrange(i as int, es@.len() as int);
        assert(rest.drop_first() =~= es@.subrange(i + 1, es@.len() as int));
        if es[i].1 {
            return Some(es[i].0.clone());
        }
        i = i + 1;
    }
    None
}

/// Where the macOS bundle swap works: the install root, its parent and file
/// name, the staging bundle beside it (on the same volume, so that the
/// final exchange is a cheap, atomic rename), and the backup name beside it
/// under which an earlier install may have left an old bundle.
pub struct MacLayout {
    pub app_root: String,
    pub parent: String,
    pub name: String,
    pub staging: String,
    pub backup: String,
}

/// The hidden sibling `.<name><suffix>` of a bundle.
pub open spec fn sibling_name(name: Seq<char>, suffix: Seq<char>) -> Seq<char> {
    "."@ + name + suffix
}

/// The error texts of the macOS layout.
pub open spec fn no_parent_text() -> Seq<char> {
    "install root has no parent directory"@
}

pub open spec fn no_file_name_text() -> Seq<char> {
    "install root has no file name"@
}

/// Lays out a macOS install over `app_root`: fails when the root has no
/// parent directory, then when it has no file name.
pub fn mac_layout(app_root: &str) -> (r: Result<MacLayout, Error>)
    ensures
        path_parent(app_root@) is None ==> (r matches Err(e) && e@ == ErrorView::Install(no_parent_text())),
        path_parent(app_root@) is Some && path_file_name(app_root@) is None ==> (r matches Err(e) && e@
            == ErrorView::Install(no_file_name_text())),
        path_parent(app_root@) is Some && path_file_name(app_root@) is Some ==> (r matches Ok(l) && {
            let p = path_parent(app_root@)->0;
            let n = path_file_name(app_root@)->0;
            &&& l.app_root@ == app_root@
            &&& l.parent@ == p
            &&& l.name@ == n
            &&& l.staging@ == path_joined(p, sibling_name(n, ".new"@))
            &&& l.backup@ == path_joined(p, sibling_name(n, ".old"@))
        }),
{
    let p = match parent(app_root) {
        Some(p) => p,
        None => return Err(Error::Install(String::from_str("install root has no parent directory"))),
    };
    let n = match file_name(app_root) {
        Some(n) => n,
        None => return Err(Error::Install(String::from_str("install root has no file name"))),
    };
    let staging_name = String::from_str(".").concat(n.as_str()).concat(".new");
    let backup_name = String::from_str(".").concat(n.as_str()).concat(".old");
    let staging = join(p.as_str(), staging_name.as_str());
    let backup = join(p.as_str(), backup_name.as_str());
    Ok(MacLayout { app_root: String::from_str(app_root), parent: p, name: n, staging, backup })
}

/// Where the bundle's executables are: `Contents/MacOS` inside the bundle.
pub fn executables_dir(app_root: &str) -> (d: String)
    ensures
        d@ == path_joined(app_root@, "Contents/MacOS"@),
{
    join(app_root, "Contents/MacOS")
}

/// A file-system or process step of an install protocol.
#[derive(Debug)]
pub enum FsAction {
    /// Remove a directory tree; the outcome is ignored.
    RemoveDirAll(String),
    /// Remove a file; the outcome is ignored.
    RemoveFile(String),
    /// Copy a bundle with `ditto`, preserving metadata and signatures.
    Ditto { from: String, to: String },
    /// Copy a file.
    Copy { from: String, to: String },
    /// Ask whether a path exists.
    Exists(String),
    /// Rename a path.
    Rename { from: String, to: String },
    /// Extract a `.tar.gz` archive into a directory with `tar`.
    ExtractTarGz { archive: String, into: String },
    /// List a directory.
    ListFiles(String),
    /// Exchange two existing paths in one atomic rename (`renamex_np` with
    /// `RENAME_SWAP`): each then names what the other named.
    Exchange { first: String, second: String },
    /// The protocol is over, with this result.
    Finish(Result<(), Error>),
}

/// The outcome of the last step.
pub enum FsEvent {
    /// A removal, rename or copy ended, with the failure's text if it failed.
    Done(Result<(), String>),
    /// `ditto` ended (an unsuccessful exit is an install error, a failure to
    /// run it an I/O error).
    Tool(Result<(), Error>),
    /// Whether the asked-about path exists.
    Present(bool),
    /// The entries of the listed directory, each with whether it is a
    /// regular file, in listing order; `None` when it could not be read.
    Listing(Option<Vec<(String, bool)>>),
}

/// The state of the macOS bundle swap: the step whose outcome is awaited.
pub enum MacSwap {
    ClearingStaging,
    Copying,
    CheckingCurrent,
    Exchanging,
    MovingIn,
    DroppingOld,
    /// Removing a stale backup; `staging_gone` records whether the staging
    /// path was reported removed.
    DroppingBackup { staging_gone: bool },
    DroppingStaging(String),
    /// The swap is over; `tidy` records whether every clean-up removal on
    /// the way was reported done.
    Finished { tidy: bool },
}

/// Which outcome each state awaits.
pub open spec fn mac_awaits(s: MacSwap, e: FsEvent) -> bool {
    match s {
        MacSwap::Copying => e is Tool,
        MacSwap::CheckingCurrent => e is Present,
        MacSwap::Finished { .. } => false,
        _ => e is Done,
    }
}

/// The text of a failed exchange or move into place.
pub open spec fn move_in_text(m: Seq<char>) -> Seq<char> {
    "could not move new app into place: "@ + m
}

/// The first step of the swap: clear a stale staging bundle.
pub fn mac_swap_start(l: &MacLayout) -> (r: (MacSwap, FsAction))
    ensures
        r.0 is ClearingStaging,
        r.1 == FsAction::RemoveDirAll(l.staging),
{
    (MacSwap::ClearingStaging, FsAction::RemoveDirAll(l.staging.clone()))
}

/// The swap's transition table: the state and step that follow an outcome.
pub open spec fn mac_swap_transition(l: MacLayout, new_app: Seq<char>, s: MacSwap, e: FsEvent, r: (MacSwap, FsAction)) -> bool {
        match (s, e) {
            (MacSwap::ClearingStaging, _) => r.0 is Copying && (r.1 matches FsAction::Ditto { from, to }
                && from@ == new_app && to == l.staging),
            (MacSwap::Copying, FsEvent::Tool(Ok(()))) => r.0 is CheckingCurrent
                && r.1 == FsAction::Exists(l.app_root),
            (MacSwap::Copying, FsEvent::Tool(Err(x))) => r.0 == (MacSwap::Finished { tidy: false })
                && r.1 == FsAction::Finish(Err(x)),
            (MacSwap::CheckingCurrent, FsEvent::Present(true)) => r.0 is Exchanging
                && r.1 == (FsAction::Exchange { first: l.staging, second: l.app_root }),
            (MacSwap::CheckingCurrent, FsEvent::Present(false)) => r.0 is MovingIn
                && r.1 == (FsAction::Rename { from: l.staging, to: l.app_root }),
            (MacSwap::Exchanging, FsEvent::Done(Ok(()))) => r.0 is DroppingOld
                && r.1 == FsAction::RemoveDirAll(l.staging),
            (MacSwap::Exchanging, FsEvent::Done(Err(m))) => r.0 == MacSwap::DroppingStaging(m)
                && r.1 == FsAction::RemoveDirAll(l.staging),
            (MacSwap::MovingIn, FsEvent::Done(Ok(()))) => r.0 == (MacSwap::DroppingBackup { staging_gone: true })
                && r.1 == FsAction::RemoveDirAll(l.backup),
            (MacSwap::MovingIn, FsEvent::Done(Err(m))) => r.0 == MacSwap::DroppingStaging(m)
                && r.1 == FsAction::RemoveDirAll(l.staging),
            (MacSwap::DroppingStaging(m), FsEvent::Done(res)) => r.0 == (MacSwap::Finished { tidy: res is Ok })
                && (r.1 matches FsAction::Finish(Err(x)) && x@ == ErrorView::Install(move_in_text(m@))),
            (MacSwap::DroppingOld, FsEvent::Done(res)) => r.0 == (MacSwap::DroppingBackup { staging_gone: res is Ok })
                && r.1 == FsAction::RemoveDirAll(l.backup),
            (MacSwap::DroppingBackup { staging_gone }, FsEvent::Done(res)) => r.0 == (MacSwap::Finished {
                tidy: staging_gone && res is Ok,
            }) && r.1 == FsAction::Finish(Ok(())),
            _ => true,
        }
}

fn move_in_error(m: &String) -> (e: Error)
    ensures
        e@ == ErrorView::Install(move_in_text(m@)),
{
    Error::Install(String::from_str("could not move new app into place: ").concat(m.as_str()))
}

/// The next step of the swap after an outcome. The new bundle is copied to
/// a staging bundle next to the old one; then, in one atomic step, the
/// staging bundle and the install root are exchanged, and the old bundle,
/// now at the staging path, is deleted, and so is a backup an earlier
/// install may have left. With no bundle installed yet the staging bundle is
/// renamed into place. When the exchange or the rename fails, the staging
/// bundle is deleted and the install root is untouched.
pub fn mac_swap_step(l: &MacLayout, new_app: &str, s: MacSwap, e: FsEvent) -> (r: (MacSwap, FsAction))
    requires
        mac_awaits(s, e),
    ensures
        mac_swap_transition(*l, new_app@, s, e, r),
{
    match (s, e) {
        (MacSwap::ClearingStaging, _) => (
            MacSwap::Copying,
            FsAction::Ditto { from: String::from_str(new_app), to: l.staging.clone() },
        ),
        (MacSwap::Copying, FsEvent::Tool(Ok(()))) => (MacSwap::CheckingCurrent, FsAction::Exists(l.app_root.clone())),
        (MacSwap::Copying, FsEvent::Tool(Err(x))) => (MacSwap::Finished { tidy: false }, FsAction::Finish(Err(x))),
        (MacSwap::CheckingCurrent, FsEvent::Present(present)) => if present {
            (MacSwap::Exchanging, FsAction::Exchange { first: l.staging.clone(), second: l.app_root.clone() })
        } else {
            (MacSwap::MovingIn, FsAction::Rename { from: l.staging.clone(), to: l.app_root.clone() })
        },
        (MacSwap::Exchanging, FsEvent::Done(Ok(()))) => (MacSwap::DroppingOld, FsAction::RemoveDirAll(l.staging.clone())),
        (MacSwap::Exchanging, FsEvent::Done(Err(m))) => (MacSwap::DroppingStaging(m), FsAction::RemoveDirAll(l.staging.clone())),
        (MacSwap::MovingIn, FsEvent::Done(Ok(()))) => (
            MacSwap::DroppingBackup { staging_gone: true },
            FsAction::RemoveDirAll(l.backup.clone()),
        ),
        (MacSwap::MovingIn, FsEvent::Done(Err(m))) => (MacSwap::DroppingStaging(m), FsAction::RemoveDirAll(l.staging.clone())),
        (MacSwap::DroppingStaging(m), FsEvent::Done(res)) => {
            let err = move_in_error(&m);
            (MacSwap::Finished { tidy: res.is_ok() }, FsAction::Finish(Err(err)))
        },
        (MacSwap::DroppingOld, FsEvent::Done(res)) => (
            MacSwap::DroppingBackup { staging_gone: res.is_ok() },
            FsAction::RemoveDirAll(l.backup.clone()),
        ),
        (MacSwap::DroppingBackup { staging_gone }, FsEvent::Done(res)) => (
            MacSwap::Finished { tidy: staging_gone && res.is_ok() },
            FsAction::Finish(Ok(())),
        ),
        _ => vstd::pervasive::unreached(),
    }
}

/// What a step does to a file system, seen as the contents held at each
/// present path: a removal reported done removes the path, one reported
/// failed may or may not have removed it; a successful copy or
/// rename needs its source and puts its contents at the target (a rename
/// also drops the source); a successful exchange needs both paths and swaps
/// their contents in one step; a failed copy may leave anything at its
/// target only; a failed rename or exchange changes nothing; an extraction
/// may change anything within its target directory and nothing else;
/// listing changes nothing; asking changes nothing and answers
/// truthfully.
pub open spec fn fs_outcome(a: FsAction, e: FsEvent, fs: Map<Seq<char>, int>, fs2: Map<Seq<char>, int>) -> bool {
    match a {
        FsAction::RemoveDirAll(p) => if e matches FsEvent::Done(Ok(_)) {
            fs2 == fs.remove(p@)
        } else {
            fs2 == fs || fs2 == fs.remove(p@)
        },
        FsAction::RemoveFile(p) => if e matches FsEvent::Done(Ok(_)) {
            fs2 == fs.remove(p@)
        } else {
            fs2 == fs || fs2 == fs.remove(p@)
        },
        FsAction::Ditto { from, to } => if e matches FsEvent::Tool(Ok(_)) {
            fs.contains_key(from@) && fs2 == fs.insert(to@, fs[from@])
        } else {
            fs2.remove(to@) == fs.remove(to@)
        },
        FsAction::Copy { from, to } => if e matches FsEvent::Done(Ok(_)) {
            fs.contains_key(from@) && fs2 == fs.insert(to@, fs[from@])
        } else {
            fs2.remove(to@) == fs.remove(to@)
        },
        FsAction::Exists(p) => fs2 == fs && e == FsEvent::Present(fs.contains_key(p@)),
        FsAction::Rename { from, to } => if e matches FsEvent::Done(Ok(_)) {
            fs.contains_key(from@) && fs2 == fs.remove(from@).insert(to@, fs[from@])
        } else {
            fs2 == fs
        },
        FsAction::ExtractTarGz { archive, into } => forall|p: Seq<char>|
            #![trigger same_at(fs2, fs, p)]
            !within(into@, p) ==> same_at(fs2, fs, p),
        FsAction::ListFiles(_) => fs2 == fs && e is Listing,
        FsAction::Exchange { first, second } => if e matches FsEvent::Done(Ok(_)) {
            &&& fs.contains_key(first@)
            &&& fs.contains_key(second@)
            &&& fs2 == fs.insert(first@, fs[second@]).insert(second@, fs[first@])
        } else {
            fs2 == fs
        },
        FsAction::Finish(_) => false,
    }
}

/// Whether `p` is `dir` or lies within it, read as text: every path that
/// starts with `dir`'s text (a superset of the paths inside it).
pub open spec fn within(dir: Seq<char>, p: Seq<char>) -> bool {
    dir.len() <= p.len() && p.subrange(0, dir.len() as int) == dir
}

/// Whether `fs` holds at `p` what `fs0` held there (or, like it, nothing).
pub open spec fn same_at(fs: Map<Seq<char>, int>, fs0: Map<Seq<char>, int>, p: Seq<char>) -> bool {
    &&& fs.contains_key(p) == fs0.contains_key(p)
    &&& fs0.contains_key(p) ==> fs[p] == fs0[p]
}

/// Whether `fs` holds `v` at `p`.
pub open spec fn holds(fs: Map<Seq<char>, int>, p: Seq<char>, v: int) -> bool {
    fs.contains_key(p) && fs[p] == v
}

/// What holds while the swap is in a state, with `a` the step it awaits the
/// outcome of, `fs0` the file system when it started and `fs` the current
/// one: the new bundle stays where it was; until the exchange (or the move
/// into an empty place) succeeds, the install root holds what it held at
/// the start; once it has, the root holds the new bundle; once staged, the
/// staging bundle is the new one; at the end, success means the root holds
/// the new bundle and failure means the root holds what it held at the
/// start, and when the clean-up removals were reported done, neither the
/// staging path nor (after a success) the backup path is left.
pub open spec fn mac_swap_inv(
    l: MacLayout,
    new_app: Seq<char>,
    s: MacSwap,
    a: FsAction,
    fs0: Map<Seq<char>, int>,
    fs: Map<Seq<char>, int>,
) -> bool {
    let root = l.app_root@;
    let staging = l.staging@;
    let new = fs0[new_app];
    &&& fs0.contains_key(new_app)
    &&& holds(fs, new_app, new)
    &&& match s {
        MacSwap::ClearingStaging => a == FsAction::RemoveDirAll(l.staging) && same_at(fs, fs0, root),
        MacSwap::Copying => (a matches FsAction::Ditto { from, to } && from@ == new_app && to == l.staging)
            && same_at(fs, fs0, root),
        MacSwap::CheckingCurrent => a == FsAction::Exists(l.app_root) && same_at(fs, fs0, root)
            && holds(fs, staging, new),
        MacSwap::Exchanging => a == (FsAction::Exchange { first: l.staging, second: l.app_root })
            && same_at(fs, fs0, root) && fs.contains_key(root) && holds(fs, staging, new),
        MacSwap::MovingIn => a == (FsAction::Rename { from: l.staging, to: l.app_root })
            && same_at(fs, fs0, root) && !fs.contains_key(root) && holds(fs, staging, new),
        MacSwap::DroppingOld => a == FsAction::RemoveDirAll(l.staging) && holds(fs, root, new),
        MacSwap::DroppingBackup { staging_gone } => a == FsAction::RemoveDirAll(l.backup) && holds(fs, root, new)
            && (staging_gone ==> !fs.contains_key(staging)),
        MacSwap::DroppingStaging(_) => a == FsAction::RemoveDirAll(l.staging) && same_at(fs, fs0, root),
        MacSwap::Finished { tidy } => match a {
            FsAction::Finish(Ok(())) => holds(fs, root, new) && (tidy ==> !fs.contains_key(staging)
                && !fs.contains_key(l.backup@)),
            FsAction::Finish(Err(_)) => same_at(fs, fs0, root) && (tidy ==> !fs.contains_key(staging)),
            _ => false,
        },
    }
}

/// Whether the paths the swap works on are four distinct paths.
pub open spec fn mac_paths_distinct(l: MacLayout, new_app: Seq<char>) -> bool {
    let root = l.app_root@;
    let staging = l.staging@;
    let backup = l.backup@;
    &&& root != staging && root != backup && root != new_app
    &&& staging != backup && staging != new_app
    &&& backup != new_app
}

/// The swap starts in its invariant, on any file system that holds the new
/// bundle.
pub proof fn lemma_mac_swap_starts(l: MacLayout, new_app: Seq<char>, fs0: Map<Seq<char>, int>)
    requires
        fs0.contains_key(new_app),
    ensures
        mac_swap_inv(l, new_app, MacSwap::ClearingStaging, FsAction::RemoveDirAll(l.staging), fs0, fs0),
{
}

/// Every step keeps the swap's invariant, whatever the file system answers.
pub proof fn lemma_mac_swap_step(
    l: MacLayout,
    new_app: Seq<char>,
    s: MacSwap,
    a: FsAction,
    e: FsEvent,
    r: (MacSwap, FsAction),
    fs0: Map<Seq<char>, int>,
    fs: Map<Seq<char>, int>,
    fs2: Map<Seq<char>, int>,
)
    requires
        mac_paths_distinct(l, new_app),
        mac_swap_inv(l, new_app, s, a, fs0, fs),
        mac_awaits(s, e),
        fs_outcome(a, e, fs, fs2),
        mac_swap_transition(l, new_app, s, e, r),
    ensures
        mac_swap_inv(l, new_app, r.0, r.1, fs0, fs2),
{
    let root = l.app_root@;
    let staging = l.staging@;
    match s {
        MacSwap::Copying => {
            if !(e matches FsEvent::Tool(Ok(_))) {
                assert(fs2.remove(staging) == fs.remove(staging));
                assert(fs2.remove(staging).contains_key(root) == fs.remove(staging).contains_key(root));
                assert(fs2.remove(staging).contains_key(new_app) == fs.remove(staging).contains_key(new_app));
                if fs.contains_key(root) {
                    assert(fs2.remove(staging)[root] == fs.remove(staging)[root]);
                }
                assert(fs2.remove(staging)[new_app] == fs.remove(staging)[new_app]);
            }
        },
        _ => {},
    }
}

/// The replacement is atomic: in every state of the swap, the install root
/// holds either exactly what it held at the start (the old bundle, or
/// nothing when none was installed) or the whole new bundle, never a
/// partial copy and never nothing in place of an installed bundle. Each
/// step changes the root at most once, from the first to the second.
pub proof fn lemma_mac_root_always_whole(
    l: MacLayout,
    new_app: Seq<char>,
    s: MacSwap,
    a: FsAction,
    fs0: Map<Seq<char>, int>,
    fs: Map<Seq<char>, int>,
)
    requires
        mac_swap_inv(l, new_app, s, a, fs0, fs),
    ensures
        same_at(fs, fs0, l.app_root@) || holds(fs, l.app_root@, fs0[new_app]),
        fs0.contains_key(l.app_root@) ==> fs.contains_key(l.app_root@),
{
}

/// Whether steps form a run of the swap: it starts with the first step,
/// each outcome is one the file system can give to the step taken
/// (`fss[i]` before it, `fss[i + 1]` after), and each next state and step
/// are those that `mac_swap_step` chooses. This is the loop that drives an
/// install, from the first step to the last one taken.
pub open spec fn mac_run(
    l: MacLayout,
    new_app: Seq<char>,
    states: Seq<MacSwap>,
    actions: Seq<FsAction>,
    events: Seq<FsEvent>,
    fss: Seq<Map<Seq<char>, int>>,
) -> bool {
    &&& states.len() > 0
    &&& actions.len() == states.len()
    &&& fss.len() == states.len()
    &&& events.len() + 1 == states.len()
    &&& states[0] is ClearingStaging
    &&& actions[0] == FsAction::RemoveDirAll(l.staging)
    &&& forall|i: int|
        0 <= i < events.len() ==> {
            &&& mac_awaits(states[i], #[trigger] events[i])
            &&& fs_outcome(actions[i], events[i], fss[i], fss[i + 1])
            &&& mac_swap_transition(l, new_app, states[i], events[i], (states[i + 1], actions[i + 1]))
        }
}

proof fn lemma_mac_run_inv(
    l: MacLayout,
    new_app: Seq<char>,
    states: Seq<MacSwap>,
    actions: Seq<FsAction>,
    events: Seq<FsEvent>,
    fss: Seq<Map<Seq<char>, int>>,
    n: int,
)
    requires
        mac_paths_distinct(l, new_app),
        fss[0].contains_key(new_app),
        mac_run(l, new_app, states, actions, events, fss),
        0 <= n < states.len(),
    ensures
        mac_swap_inv(l, new_app, states[n], actions[n], fss[0], fss[n]),
    decreases n,
{
    if n == 0 {
        lemma_mac_swap_starts(l, new_app, fss[0]);
    } else {
        lemma_mac_run_inv(l, new_app, states, actions, events, fss, n - 1);
        let e = events[n - 1];
        lemma_mac_swap_step(
            l,
            new_app,
            states[n - 1],
            actions[n - 1],
            e,
            (states[n], actions[n]),
            fss[0],
            fss[n - 1],
            fss[n],
        );
    }
}

/// The replacement is atomic over a whole run of the swap: at every step of
/// any run, whatever the file system answers, the install root holds either
/// exactly what it held before the run (the old bundle, or nothing when
/// none was installed) or the whole new bundle, and is never missing where
/// a bundle was installed; a run that has finished has the new bundle at the
/// root on success and the root as it was on failure.
pub proof fn lemma_mac_run_keeps_root_whole(
    l: MacLayout,
    new_app: Seq<char>,
    states: Seq<MacSwap>,
    actions: Seq<FsAction>,
    events: Seq<FsEvent>,
    fss: Seq<Map<Seq<char>, int>>,
)
    requires
        mac_paths_distinct(l, new_app),
        fss[0].contains_key(new_app),
        mac_run(l, new_app, states, actions, events, fss),
    ensures
        forall|i: int|
            0 <= i < fss.len() ==> (same_at(#[trigger] fss[i], fss[0], l.app_root@) || holds(
                fss[i],
                l.app_root@,
                fss[0][new_app],
            )) && (fss[0].contains_key(l.app_root@) ==> fss[i].contains_key(l.app_root@)),
        actions.last() matches FsAction::Finish(Ok(_)) ==> holds(fss.last(), l.app_root@, fss[0][new_app]),
        actions.last() matches FsAction::Finish(Err(_)) ==> same_at(fss.last(), fss[0], l.app_root@),
{
    assert forall|i: int| 0 <= i < fss.len() implies (same_at(#[trigger] fss[i], fss[0], l.app_root@) || holds(
        fss[i],
        l.app_root@,
        fss[0][new_app],
    )) && (fss[0].contains_key(l.app_root@) ==> fss[i].contains_key(l.app_root@)) by {
        lemma_mac_run_inv(l, new_app, states, actions, events, fss, i);
        lemma_mac_root_always_whole(l, new_app, states[i], actions[i], fss[0], fss[i]);
    }
    let n = states.len() - 1;
    lemma_mac_run_inv(l, new_app, states, actions, events, fss, n);
}

/// How far a swap that meets no failure has got.
pub open spec fn mac_progress(s: MacSwap) -> int {
    match s {
        MacSwap::ClearingStaging => 0,
        MacSwap::Copying => 1,
        MacSwap::CheckingCurrent => 2,
        MacSwap::Exchanging => 3,
        MacSwap::MovingIn => 3,
        MacSwap::DroppingOld => 4,
        MacSwap::DroppingBackup { staging_gone } => if staging_gone { 5 } else { -1 },
        MacSwap::Finished { tidy } => if tidy { 6 } else { -1 },
        _ => -1,
    }
}

proof fn lemma_mac_success_prefix(
    l: MacLayout,
    new_app: Seq<char>,
    states: Seq<MacSwap>,
    actions: Seq<FsAction>,
    events: Seq<FsEvent>,
    fss: Seq<Map<Seq<char>, int>>,
    n: int,
)
    requires
        mac_paths_distinct(l, new_app),
        fss[0].contains_key(new_app),
        mac_run(l, new_app, states, actions, events, fss),
        forall|i: int| 0 <= i < events.len() ==> reports_success(#[trigger] events[i]),
        0 <= n < states.len(),
    ensures
        mac_progress(states[n]) >= n,
        states[n] is Finished ==> actions[n] == FsAction::Finish(Ok::<(), Error>(())),
    decreases n,
{
    if n > 0 {
        lemma_mac_success_prefix(l, new_app, states, actions, events, fss, n - 1);
        let e = events[n - 1];
        assert(reports_success(e));
    }
}

/// A swap that meets no failure succeeds and cleans up: in a run where
/// every outcome reports success, there are at most seven states, and once
/// the run has finished it has finished with success, the install root
/// holding the new bundle and neither the staging nor the backup path left.
pub proof fn lemma_mac_success_run(
    l: MacLayout,
    new_app: Seq<char>,
    states: Seq<MacSwap>,
    actions: Seq<FsAction>,
    events: Seq<FsEvent>,
    fss: Seq<Map<Seq<char>, int>>,
)
    requires
        mac_paths_distinct(l, new_app),
        fss[0].contains_key(new_app),
        mac_run(l, new_app, states, actions, events, fss),
        forall|i: int| 0 <= i < events.len() ==> reports_success(#[trigger] events[i]),
    ensures
        states.len() <= 7,
        states.last() is Finished ==> {
            &&& actions.last() == FsAction::Finish(Ok::<(), Error>(()))
            &&& holds(fss.last(), l.app_root@, fss[0][new_app])
            &&& !fss.last().contains_key(l.staging@)
            &&& !fss.last().contains_key(l.backup@)
        },
{
    let n = states.len() - 1;
    lemma_mac_success_prefix(l, new_app, states, actions, events, fss, n);
    lemma_mac_run_inv(l, new_app, states, actions, events, fss, n);
}

/// How a swap ends, read off its invariant: success leaves the new bundle
/// at the install root; failure leaves the root as it was at the start;
/// when every clean-up removal was reported done, the staging path is gone,
/// and after a success the backup path too.
pub proof fn lemma_mac_swap_outcome(
    l: MacLayout,
    new_app: Seq<char>,
    tidy: bool,
    a: FsAction,
    fs0: Map<Seq<char>, int>,
    fs: Map<Seq<char>, int>,
)
    requires
        mac_swap_inv(l, new_app, MacSwap::Finished { tidy }, a, fs0, fs),
    ensures
        a matches FsAction::Finish(Ok(_)) ==> holds(fs, l.app_root@, fs0[new_app]),
        a matches FsAction::Finish(Ok(_)) && tidy ==> !fs.contains_key(l.staging@) && !fs.contains_key(l.backup@),
        a matches FsAction::Finish(Err(_)) ==> same_at(fs, fs0, l.app_root@),
        a matches FsAction::Finish(Err(_)) && tidy ==> !fs.contains_key(l.staging@),
{
}

/// The Windows strategy only replaces a bare executable: the install root
/// must have the extension `exe` (in any ASCII case).
pub open spec fn is_exe_path(p: Seq<char>) -> bool {
    path_extension(p) matches Some(e) && eq_ignore_ascii_case(e, "exe"@)
}

pub open spec fn installer_text() -> Seq<char> {
    "windows installer-based update"@
}

/// Checks that a Windows install root is a bare `.exe` and gives the path
/// the running executable is moved aside to (`<root>` with the extension
/// `old.exe`). Installer-shipped apps are not supported by this strategy.
pub fn windows_aside_path(install_root: &str) -> (r: Result<String, Error>)
    ensures
        is_exe_path(install_root@) ==> (r matches Ok(p) && p@ == path_with_extension(install_root@, "old.exe"@)),
        !is_exe_path(install_root@) ==> (r matches Err(e) && e@ == ErrorView::UnsupportedPlatform(installer_text())),
{
    let is_exe = match extension(install_root) {
        Some(e) => equals_ignore_ascii_case(e.as_str(), "exe"),
        None => false,
    };
    if !is_exe {
        return Err(Error::UnsupportedPlatform(String::from_str("windows installer-based update")));
    }
    proof {
        reveal_strlit("old.exe");
        assert(no_separator("old.exe"@));
    }
    Ok(with_extension(install_root, "old.exe"))
}

/// Whether an artifact is a Windows Installer package: its extension is
/// `msi` (in any ASCII case).
pub open spec fn is_msi_path(p: Seq<char>) -> bool {
    path_extension(p) matches Some(e) && eq_ignore_ascii_case(e, "msi"@)
}

/// The command that applies a staged installer package once the app has
/// exited: `msiexec /i <package> /passive /norestart`.
pub open spec fn msiexec_command(package: Seq<char>) -> Seq<Seq<char>> {
    seq!["msiexec"@, "/i"@, package, "/passive"@, "/norestart"@]
}

/// The texts of a command line.
pub open spec fn command_texts(c: Seq<String>) -> Seq<Seq<char>> {
    c.map_values(|a: String| a@)
}

/// A staged installer handoff: nothing is installed now; after the app exits
/// the package is applied with `msiexec`, then the app is relaunched.
pub open spec fn staged_installer(i: Installed, package: Seq<char>, install_root: Seq<char>) -> bool {
    &&& i.restart_binary matches Some(b) && b@ == install_root
    &&& i.apply_on_exit matches Some(c) && command_texts(c@) == msiexec_command(package)
}

/// The installer handoff for a verified package: the restart path runs
/// `msiexec /i <package> /passive /norestart` after the app exits and then
/// relaunches the install root.
pub fn staged_msi(package: &str, install_root: &str) -> (i: Installed)
    ensures
        staged_installer(i, package@, install_root@),
{
    let mut c: Vec<String> = Vec::new();
    c.push(String::from_str("msiexec"));
    c.push(String::from_str("/i"));
    c.push(String::from_str(package));
    c.push(String::from_str("/passive"));
    c.push(String::from_str("/norestart"));
    assert(command_texts(c@) =~= msiexec_command(package@));
    Installed { restart_binary: Some(String::from_str(install_root)), apply_on_exit: Some(c) }
}

/// How a Windows install proceeds.
pub enum WindowsRoute {
    /// Move the running executable aside and copy the new one into place.
    Replace(WindowsLayout),
    /// Stage the installer package: nothing on disk changes now, and the
    /// result says what the restart path runs.
    StageInstaller(Installed),
}

/// Chooses the Windows install: an `.msi` package is staged for an
/// `msiexec` handoff after exit, leaving the install root untouched; any
/// other artifact replaces a bare `.exe` in place; with an install root that
/// is not an `.exe`, anything but a package is refused.
pub fn windows_route(artifact: &str, install_root: &str) -> (r: Result<WindowsRoute, Error>)
    ensures
        is_msi_path(artifact@) ==> (r matches Ok(WindowsRoute::StageInstaller(i)) && staged_installer(
            i,
            artifact@,
            install_root@,
        )),
        !is_msi_path(artifact@) && is_exe_path(install_root@) ==> (r matches Ok(WindowsRoute::Replace(l)) && {
            &&& l.install_root@ == install_root@
            &&& l.aside@ == path_with_extension(install_root@, "old.exe"@)
            &&& l.new_exe@ == artifact@
        }),
        !is_msi_path(artifact@) && !is_exe_path(install_root@) ==> (r matches Err(e) && e@
            == ErrorView::UnsupportedPlatform(installer_text())),
{
    let is_msi = match extension(artifact) {
        Some(e) => equals_ignore_ascii_case(e.as_str(), "msi"),
        None => false,
    };
    if is_msi {
        return Ok(WindowsRoute::StageInstaller(staged_msi(artifact, install_root)));
    }
    let aside = windows_aside_path(install_root)?;
    Ok(WindowsRoute::Replace(
        WindowsLayout { install_root: String::from_str(install_root), aside, new_exe: String::from_str(artifact) },
    ))
}

/// Where the Windows replacement works: the running executable, the path it
/// is moved aside to, and the new executable.
pub struct WindowsLayout {
    pub install_root: String,
    pub aside: String,
    pub new_exe: String,
}

/// The state of the Windows replacement: the step whose outcome is awaited.
pub enum WindowsSwap {
    RemovingStale,
    CheckingCurrent,
    MovingAside,
    Copying,
    CheckingAside(String),
    Restoring(String),
    Finished,
}

/// Which outcome each state awaits.
pub open spec fn windows_awaits(s: WindowsSwap, e: FsEvent) -> bool {
    match s {
        WindowsSwap::CheckingCurrent | WindowsSwap::CheckingAside(_) => e is Present,
        WindowsSwap::Finished => false,
        _ => e is Done,
    }
}

pub open spec fn rename_exe_text(m: Seq<char>) -> Seq<char> {
    "could not rename running exe: "@ + m
}

pub open spec fn place_exe_text(m: Seq<char>) -> Seq<char> {
    "could not place new exe: "@ + m
}

/// The replacement's transition table.
pub open spec fn windows_transition(l: WindowsLayout, s: WindowsSwap, e: FsEvent, r: (WindowsSwap, FsAction)) -> bool {
    match (s, e) {
        (WindowsSwap::RemovingStale, _) => r.0 is CheckingCurrent && r.1 == FsAction::Exists(l.install_root),
        (WindowsSwap::CheckingCurrent, FsEvent::Present(true)) => r.0 is MovingAside
            && r.1 == (FsAction::Rename { from: l.install_root, to: l.aside }),
        (WindowsSwap::CheckingCurrent, FsEvent::Present(false)) => r.0 is Copying
            && r.1 == (FsAction::Copy { from: l.new_exe, to: l.install_root }),
        (WindowsSwap::MovingAside, FsEvent::Done(Ok(()))) => r.0 is Copying
            && r.1 == (FsAction::Copy { from: l.new_exe, to: l.install_root }),
        (WindowsSwap::MovingAside, FsEvent::Done(Err(m))) => r.0 is Finished
            && (r.1 matches FsAction::Finish(Err(x)) && x@ == ErrorView::Install(rename_exe_text(m@))),
        (WindowsSwap::Copying, FsEvent::Done(Ok(()))) => r.0 is Finished && r.1 == FsAction::Finish(Ok(())),
        (WindowsSwap::Copying, FsEvent::Done(Err(m))) => r.0 == WindowsSwap::CheckingAside(m)
            && r.1 == FsAction::Exists(l.aside),
        (WindowsSwap::CheckingAside(m), FsEvent::Present(true)) => r.0 == WindowsSwap::Restoring(m)
            && r.1 == (FsAction::Rename { from: l.aside, to: l.install_root }),
        (WindowsSwap::CheckingAside(m), FsEvent::Present(false)) => r.0 is Finished
            && (r.1 matches FsAction::Finish(Err(x)) && x@ == ErrorView::Install(place_exe_text(m@))),
        (WindowsSwap::Restoring(m), _) => r.0 is Finished
            && (r.1 matches FsAction::Finish(Err(x)) && x@ == ErrorView::Install(place_exe_text(m@))),
        _ => true,
    }
}

/// The first step of the replacement: remove a stale moved-aside executable.
pub fn windows_swap_start(l: &WindowsLayout) -> (r: (WindowsSwap, FsAction))
    ensures
        r.0 is RemovingStale,
        r.1 == FsAction::RemoveFile(l.aside),
{
    (WindowsSwap::RemovingStale, FsAction::RemoveFile(l.aside.clone()))
}

fn place_error(m: &String) -> (e: Error)
    ensures
        e@ == ErrorView::Install(place_exe_text(m@)),
{
    Error::Install(String::from_str("could not place new exe: ").concat(m.as_str()))
}

/// The next step of the replacement after an outcome. Windows refuses to
/// delete a running executable but allows renaming it: the running one is
/// moved aside, the new one copied into place, and when the copy fails the
/// old one is moved back so that the app is never left without its
/// executable.
pub fn windows_swap_step(l: &WindowsLayout, s: WindowsSwap, e: FsEvent) -> (r: (WindowsSwap, FsAction))
    requires
        windows_awaits(s, e),
    ensures
        windows_transition(*l, s, e, r),
{
    match (s, e) {
        (WindowsSwap::RemovingStale, _) => (WindowsSwap::CheckingCurrent, FsAction::Exists(l.install_root.clone())),
        (WindowsSwap::CheckingCurrent, FsEvent::Present(present)) => if present {
            (WindowsSwap::MovingAside, FsAction::Rename { from: l.install_root.clone(), to: l.aside.clone() })
        } else {
            (WindowsSwap::Copying, FsAction::Copy { from: l.new_exe.clone(), to: l.install_root.clone() })
        },
        (WindowsSwap::MovingAside, FsEvent::Done(Ok(()))) => (
            WindowsSwap::Copying,
            FsAction::Copy { from: l.new_exe.clone(), to: l.install_root.clone() },
        ),
        (WindowsSwap::MovingAside, FsEvent::Done(Err(m))) => (
            WindowsSwap::Finished,
            FsAction::Finish(Err(Error::Install(String::from_str("could not rename running exe: ").concat(m.as_str())))),
        ),
        (WindowsSwap::Copying, FsEvent::Done(Ok(()))) => (WindowsSwap::Finished, FsAction::Finish(Ok(()))),
        (WindowsSwap::Copying, FsEvent::Done(Err(m))) => (WindowsSwap::CheckingAside(m), FsAction::Exists(l.aside.clone())),
        (WindowsSwap::CheckingAside(m), FsEvent::Present(present)) => if present {
            (WindowsSwap::Restoring(m), FsAction::Rename { from: l.aside.clone(), to: l.install_root.clone() })
        } else {
            let err = place_error(&m);
            (WindowsSwap::Finished, FsAction::Finish(Err(err)))
        },
        (WindowsSwap::Restoring(m), _) => {
            let err = place_error(&m);
            (WindowsSwap::Finished, FsAction::Finish(Err(err)))
        },
        _ => vstd::pervasive::unreached(),
    }
}

/// The result of a successful Windows replacement: the replaced executable
/// is the one to relaunch.
pub fn windows_installed(l: &WindowsLayout) -> (i: Installed)
    ensures
        i.restart_binary == Some(l.install_root),
        i.apply_on_exit is None,
{
    Installed { restart_binary: Some(l.install_root.clone()), apply_on_exit: None }
}

/// The result of a successful macOS swap: the first regular file of the new
/// bundle's `Contents/MacOS` listing (when it could be read) is the binary to
/// relaunch.
pub fn mac_installed(listing: Option<Vec<(String, bool)>>) -> (i: Installed)
    ensures
        i.restart_binary == match listing {
            Some(es) => first_file(es@),
            None => None,
        },
        i.apply_on_exit is None,
{
    Installed { restart_binary: first_file_in(listing), apply_on_exit: None }
}

/// What holds while the replacement is in a state (see `mac_swap_inv`): the
/// new executable stays where it is; until the running one is moved, the
/// install root is untouched; once it is moved, the aside path holds it; at
/// the end, success means the root holds the new executable and the aside
/// path the old one, and failure means the root holds the old one, if there
/// was one.
pub open spec fn windows_swap_inv(
    l: WindowsLayout,
    s: WindowsSwap,
    a: FsAction,
    fs0: Map<Seq<char>, int>,
    fs: Map<Seq<char>, int>,
) -> bool {
    let root = l.install_root@;
    let aside = l.aside@;
    let new_exe = l.new_exe@;
    let had = fs0.contains_key(root);
    let old = fs0[root];
    let new = fs0[new_exe];
    &&& fs0.contains_key(new_exe)
    &&& holds(fs, new_exe, new)
    &&& match s {
        WindowsSwap::RemovingStale => a == FsAction::RemoveFile(l.aside) && same_at(fs, fs0, root),
        WindowsSwap::CheckingCurrent => a == FsAction::Exists(l.install_root) && same_at(fs, fs0, root),
        WindowsSwap::MovingAside => a == (FsAction::Rename { from: l.install_root, to: l.aside })
            && same_at(fs, fs0, root) && fs.contains_key(root),
        WindowsSwap::Copying => a == (FsAction::Copy { from: l.new_exe, to: l.install_root })
            && !fs.contains_key(root) && (had ==> holds(fs, aside, old)),
        WindowsSwap::CheckingAside(_) => a == FsAction::Exists(l.aside) && (had ==> holds(fs, aside, old)),
        WindowsSwap::Restoring(_) => a == (FsAction::Rename { from: l.aside, to: l.install_root })
            && fs.contains_key(aside) && (had ==> holds(fs, aside, old)),
        WindowsSwap::Finished => match a {
            FsAction::Finish(Ok(())) => holds(fs, root, new) && (had ==> holds(fs, aside, old)),
            FsAction::Finish(Err(_)) => had ==> holds(fs, root, old),
            _ => false,
        },
    }
}

/// Whether the paths the replacement works on are three distinct paths.
pub open spec fn windows_paths_distinct(l: WindowsLayout) -> bool {
    l.install_root@ != l.aside@ && l.install_root@ != l.new_exe@ && l.aside@ != l.new_exe@
}

/// The replacement starts in its invariant, on any file system that holds
/// the new executable.
pub proof fn lemma_windows_swap_starts(l: WindowsLayout, fs0: Map<Seq<char>, int>)
    requires
        fs0.contains_key(l.new_exe@),
    ensures
        windows_swap_inv(l, WindowsSwap::RemovingStale, FsAction::RemoveFile(l.aside), fs0, fs0),
{
}

/// Every step keeps the replacement's invariant, whatever the file system
/// answers, provided that moving the old executable back, once attempted,
/// succeeds: the app is never left without its executable.
pub proof fn lemma_windows_swap_step(
    l: WindowsLayout,
    s: WindowsSwap,
    a: FsAction,
    e: FsEvent,
    r: (WindowsSwap, FsAction),
    fs0: Map<Seq<char>, int>,
    fs: Map<Seq<char>, int>,
    fs2: Map<Seq<char>, int>,
)
    requires
        windows_paths_distinct(l),
        windows_swap_inv(l, s, a, fs0, fs),
        windows_awaits(s, e),
        fs_outcome(a, e, fs, fs2),
        s is Restoring ==> e matches FsEvent::Done(Ok(_)),
        windows_transition(l, s, e, r),
    ensures
        windows_swap_inv(l, r.0, r.1, fs0, fs2),
{
    let root = l.install_root@;
    let aside = l.aside@;
    let new_exe = l.new_exe@;
    match s {
        WindowsSwap::Copying => {
            if !(e matches FsEvent::Done(Ok(_))) {
                assert(fs2.remove(root) == fs.remove(root));
                assert(fs2.remove(root).contains_key(aside) == fs.remove(root).contains_key(aside));
                assert(fs2.remove(root).contains_key(new_exe) == fs.remove(root).contains_key(new_exe));
                if fs.contains_key(aside) {
                    assert(fs2.remove(root)[aside] == fs.remove(root)[aside]);
                }
                assert(fs2.remove(root)[new_exe] == fs.remove(root)[new_exe]);
            }
        },
        _ => {},
    }
}

/// A successful copy is never rolled back: once the copy of the new
/// executable into the install root is reported done, the replacement
/// finishes with success and the install root holds the new executable.
pub proof fn lemma_windows_copy_done_succeeds(
    l: WindowsLayout,
    a: FsAction,
    r: (WindowsSwap, FsAction),
    fs0: Map<Seq<char>, int>,
    fs: Map<Seq<char>, int>,
    fs2: Map<Seq<char>, int>,
)
    requires
        windows_paths_distinct(l),
        windows_swap_inv(l, WindowsSwap::Copying, a, fs0, fs),
        fs_outcome(a, FsEvent::Done(Ok::<(), String>(())), fs, fs2),
        windows_transition(l, WindowsSwap::Copying, FsEvent::Done(Ok::<(), String>(())), r),
    ensures
        r.0 is Finished,
        r.1 == FsAction::Finish(Ok::<(), Error>(())),
        holds(fs2, l.install_root@, fs0[l.new_exe@]),
{
}

/// Whether an outcome reports success: a removal, copy, rename or tool run
/// that went through, or any answer to a question.
pub open spec fn reports_success(e: FsEvent) -> bool {
    match e {
        FsEvent::Done(r) => r is Ok,
        FsEvent::Tool(r) => r is Ok,
        FsEvent::Present(_) => true,
        FsEvent::Listing(_) => true,
    }
}

/// Whether steps form a run of the Windows replacement (see `mac_run`).
pub open spec fn windows_run(
    l: WindowsLayout,
    states: Seq<WindowsSwap>,
    actions: Seq<FsAction>,
    events: Seq<FsEvent>,
    fss: Seq<Map<Seq<char>, int>>,
) -> bool {
    &&& states.len() > 0
    &&& actions.len() == states.len()
    &&& fss.len() == states.len()
    &&& events.len() + 1 == states.len()
    &&& states[0] is RemovingStale
    &&& actions[0] == FsAction::RemoveFile(l.aside)
    &&& forall|i: int|
        0 <= i < events.len() ==> {
            &&& windows_awaits(states[i], #[trigger] events[i])
            &&& fs_outcome(actions[i], events[i], fss[i], fss[i + 1])
            &&& windows_transition(l, states[i], events[i], (states[i + 1], actions[i + 1]))
        }
}

/// How far a replacement that meets no failure has got.
pub open spec fn windows_progress(s: WindowsSwap) -> int {
    match s {
        WindowsSwap::RemovingStale => 0,
        WindowsSwap::CheckingCurrent => 1,
        WindowsSwap::MovingAside => 2,
        WindowsSwap::Copying => 3,
        WindowsSwap::Finished => 4,
        _ => -1,
    }
}

proof fn lemma_windows_success_prefix(
    l: WindowsLayout,
    states: Seq<WindowsSwap>,
    actions: Seq<FsAction>,
    events: Seq<FsEvent>,
    fss: Seq<Map<Seq<char>, int>>,
    n: int,
)
    requires
        windows_paths_distinct(l),
        fss[0].contains_key(l.new_exe@),
        windows_run(l, states, actions, events, fss),
        forall|i: int| 0 <= i < events.len() ==> reports_success(#[trigger] events[i]),
        0 <= n < states.len(),
    ensures
        windows_progress(states[n]) >= n,
        states[n] is Finished ==> actions[n] == FsAction::Finish(Ok::<(), Error>(())),
        windows_swap_inv(l, states[n], actions[n], fss[0], fss[n]),
    decreases n,
{
    if n == 0 {
        lemma_windows_swap_starts(l, fss[0]);
    } else {
        lemma_windows_success_prefix(l, states, actions, events, fss, n - 1);
        let e = events[n - 1];
        assert(reports_success(e));
        lemma_windows_swap_step(l, states[n - 1], actions[n - 1], e, (states[n], actions[n]), fss[0], fss[n - 1], fss[n]);
    }
}

/// A replacement that meets no failure succeeds: in a run where every
/// outcome reports success, there are at most five states, and once the
/// run has finished it has finished with success, the install root holding
/// the new executable and the aside path the old one.
pub proof fn lemma_windows_success_run(
    l: WindowsLayout,
    states: Seq<WindowsSwap>,
    actions: Seq<FsAction>,
    events: Seq<FsEvent>,
    fss: Seq<Map<Seq<char>, int>>,
)
    requires
        windows_paths_distinct(l),
        fss[0].contains_key(l.new_exe@),
        windows_run(l, states, actions, events, fss),
        forall|i: int| 0 <= i < events.len() ==> reports_success(#[trigger] events[i]),
    ensures
        states.len() <= 5,
        states.last() is Finished ==> {
            &&& actions.last() == FsAction::Finish(Ok::<(), Error>(()))
            &&& holds(fss.last(), l.install_root@, fss[0][l.new_exe@])
            &&& fss[0].contains_key(l.install_root@) ==> holds(fss.last(), l.aside@, fss[0][l.install_root@])
        },
{
    let n = states.len() - 1;
    lemma_windows_success_prefix(l, states, actions, events, fss, n);
}

/// How a replacement ends, read off its invariant: success leaves the new
/// executable at the install root and the old one, when there was one, at
/// the aside path (to be removed on a later launch); failure leaves the old
/// one at the install root when there was one.
pub proof fn lemma_windows_swap_outcome(l: WindowsLayout, a: FsAction, fs0: Map<Seq<char>, int>, fs: Map<Seq<char>, int>)
    requires
        windows_swap_inv(l, WindowsSwap::Finished, a, fs0, fs),
    ensures
        a matches FsAction::Finish(Ok(_)) ==> holds(fs, l.install_root@, fs0[l.new_exe@]),
        a matches FsAction::Finish(Ok(_)) ==> (fs0.contains_key(l.install_root@) ==> holds(
            fs,
            l.aside@,
            fs0[l.install_root@],
        )),
        a matches FsAction::Finish(Err(_)) ==> (fs0.contains_key(l.install_root@) ==> holds(
            fs,
            l.install_root@,
            fs0[l.install_root@],
        )),
{
}

/// Where the archive install works: the archive, the fresh directory it is
/// extracted into, the install root, and the file beside the root that the
/// new binary is copied to before it is renamed over the root.
pub struct ArchiveLayout {
    pub archive: String,
    pub extract_dir: String,
    pub install_root: String,
    pub incoming: String,
}

/// The file beside an install root that the new binary is copied to.
pub open spec fn incoming_path(install_root: Seq<char>) -> Seq<char> {
    install_root + ".new"@
}

/// Lays out an archive install of `archive`, extracted into `extract_dir`,
/// over `install_root`.
pub fn archive_layout(archive: &str, extract_dir: &str, install_root: &str) -> (l: ArchiveLayout)
    ensures
        l.archive@ == archive@,
        l.extract_dir@ == extract_dir@,
        l.install_root@ == install_root@,
        l.incoming@ == incoming_path(install_root@),
{
    ArchiveLayout {
        archive: String::from_str(archive),
        extract_dir: String::from_str(extract_dir),
        install_root: String::from_str(install_root),
        incoming: String::from_str(install_root).concat(".new"),
    }
}

/// The state of the archive install: the step whose outcome is awaited.
pub enum ArchiveSwap {
    Extracting,
    Listing,
    Copying,
    Replacing,
    CleaningUp(Result<(), Error>),
    Finished,
}

/// Which outcome each state awaits.
pub open spec fn archive_awaits(s: ArchiveSwap, e: FsEvent) -> bool {
    match s {
        ArchiveSwap::Extracting => e is Tool,
        ArchiveSwap::Listing => e is Listing,
        ArchiveSwap::Finished => false,
        _ => e is Done,
    }
}

pub open spec fn empty_archive_text() -> Seq<char> {
    "no file found in the archive"@
}

/// The first regular file of a listing, if it could be read.
pub open spec fn listed_file(l: Option<Vec<(String, bool)>>) -> Option<String> {
    match l {
        Some(es) => first_file(es@),
        None => None,
    }
}

/// The first step of the archive install: extract the archive.
pub fn archive_swap_start(l: &ArchiveLayout) -> (r: (ArchiveSwap, FsAction))
    ensures
        r.0 is Extracting,
        r.1 == (FsAction::ExtractTarGz { archive: l.archive, into: l.extract_dir }),
{
    (ArchiveSwap::Extracting, FsAction::ExtractTarGz { archive: l.archive.clone(), into: l.extract_dir.clone() })
}

/// The archive install's transition table.
pub open spec fn archive_transition(l: ArchiveLayout, s: ArchiveSwap, e: FsEvent, r: (ArchiveSwap, FsAction)) -> bool {
    match (s, e) {
        (ArchiveSwap::Extracting, FsEvent::Tool(Ok(()))) => r.0 is Listing && r.1 == FsAction::ListFiles(l.extract_dir),
        (ArchiveSwap::Extracting, FsEvent::Tool(Err(x))) => r.0 == ArchiveSwap::CleaningUp(Err(x))
            && r.1 == FsAction::RemoveDirAll(l.extract_dir),
        (ArchiveSwap::Listing, FsEvent::Listing(found)) => match listed_file(found) {
            Some(f) => r.0 is Copying && r.1 == (FsAction::Copy { from: f, to: l.incoming }),
            None => (r.0 matches ArchiveSwap::CleaningUp(Err(x)) && x@ == ErrorView::Install(empty_archive_text()))
                && r.1 == FsAction::RemoveDirAll(l.extract_dir),
        },
        (ArchiveSwap::Copying, FsEvent::Done(Ok(()))) => r.0 is Replacing
            && r.1 == (FsAction::Rename { from: l.incoming, to: l.install_root }),
        (ArchiveSwap::Copying, FsEvent::Done(Err(m))) => (r.0 matches ArchiveSwap::CleaningUp(Err(x)) && x@
            == ErrorView::Io(m@)) && r.1 == FsAction::RemoveDirAll(l.extract_dir),
        (ArchiveSwap::Replacing, FsEvent::Done(Ok(()))) => r.0 == ArchiveSwap::CleaningUp(Ok(()))
            && r.1 == FsAction::RemoveDirAll(l.extract_dir),
        (ArchiveSwap::Replacing, FsEvent::Done(Err(m))) => (r.0 matches ArchiveSwap::CleaningUp(Err(x)) && x@
            == ErrorView::Io(m@)) && r.1 == FsAction::RemoveDirAll(l.extract_dir),
        (ArchiveSwap::CleaningUp(res), _) => r.0 is Finished && r.1 == FsAction::Finish(res),
        _ => true,
    }
}

/// The next step of the archive install after an outcome. The archive is
/// extracted into a fresh directory; its first regular file, in listing
/// order, is copied beside the install root and renamed over it in one
/// atomic step; the extraction directory is removed at the end, whatever
/// happened. A failed copy or rename is an I/O error, an archive without a
/// file an install error.
pub fn archive_swap_step(l: &ArchiveLayout, s: ArchiveSwap, e: FsEvent) -> (r: (ArchiveSwap, FsAction))
    requires
        archive_awaits(s, e),
    ensures
        archive_transition(*l, s, e, r),
{
    match (s, e) {
        (ArchiveSwap::Extracting, FsEvent::Tool(Ok(()))) => (ArchiveSwap::Listing, FsAction::ListFiles(l.extract_dir.clone())),
        (ArchiveSwap::Extracting, FsEvent::Tool(Err(x))) => (
            ArchiveSwap::CleaningUp(Err(x)),
            FsAction::RemoveDirAll(l.extract_dir.clone()),
        ),
        (ArchiveSwap::Listing, FsEvent::Listing(found)) => match first_file_in(found) {
            Some(f) => (ArchiveSwap::Copying, FsAction::Copy { from: f, to: l.incoming.clone() }),
            None => (
                ArchiveSwap::CleaningUp(Err(Error::Install(String::from_str("no file found in the archive")))),
                FsAction::RemoveDirAll(l.extract_dir.clone()),
            ),
        },
        (ArchiveSwap::Copying, FsEvent::Done(Ok(()))) => (
            ArchiveSwap::Replacing,
            FsAction::Rename { from: l.incoming.clone(), to: l.install_root.clone() },
        ),
        (ArchiveSwap::Copying, FsEvent::Done(Err(m))) => (
            ArchiveSwap::CleaningUp(Err(Error::Io(m))),
            FsAction::RemoveDirAll(l.extract_dir.clone()),
        ),
        (ArchiveSwap::Replacing, FsEvent::Done(Ok(()))) => (
            ArchiveSwap::CleaningUp(Ok(())),
            FsAction::RemoveDirAll(l.extract_dir.clone()),
        ),
        (ArchiveSwap::Replacing, FsEvent::Done(Err(m))) => (
            ArchiveSwap::CleaningUp(Err(Error::Io(m))),
            FsAction::RemoveDirAll(l.extract_dir.clone()),
        ),
        (ArchiveSwap::CleaningUp(res), _) => (ArchiveSwap::Finished, FsAction::Finish(res)),
        _ => vstd::pervasive::unreached(),
    }
}

/// The result of a successful archive install: the replaced binary is the
/// one to relaunch.
pub fn archive_installed(l: &ArchiveLayout) -> (i: Installed)
    ensures
        i.restart_binary == Some(l.install_root),
        i.apply_on_exit is None,
{
    Installed { restart_binary: Some(l.install_root.clone()), apply_on_exit: None }
}

/// Whether the archive install's paths are apart: the install root and the
/// incoming file are distinct and neither lies within the extraction
/// directory.
pub open spec fn archive_paths_apart(l: ArchiveLayout) -> bool {
    &&& l.install_root@ != l.incoming@
    &&& !within(l.extract_dir@, l.install_root@)
    &&& !within(l.extract_dir@, l.incoming@)
}

/// What holds while the archive install is in a state: until the rename
/// over the install root succeeds, the root holds what it held at the start;
/// once it has, the root holds the new binary; at the end, failure means the
/// root holds what it held at the start, success that it holds a binary.
pub open spec fn archive_swap_inv(
    l: ArchiveLayout,
    s: ArchiveSwap,
    a: FsAction,
    fs0: Map<Seq<char>, int>,
    fs: Map<Seq<char>, int>,
) -> bool {
    let root = l.install_root@;
    match s {
        ArchiveSwap::Extracting => a == (FsAction::ExtractTarGz { archive: l.archive, into: l.extract_dir })
            && same_at(fs, fs0, root),
        ArchiveSwap::Listing => a == FsAction::ListFiles(l.extract_dir) && same_at(fs, fs0, root),
        ArchiveSwap::Copying => (a matches FsAction::Copy { from, to } && to == l.incoming) && same_at(fs, fs0, root),
        ArchiveSwap::Replacing => a == (FsAction::Rename { from: l.incoming, to: l.install_root })
            && same_at(fs, fs0, root),
        ArchiveSwap::CleaningUp(res) => a == FsAction::RemoveDirAll(l.extract_dir) && match res {
            Ok(()) => fs.contains_key(root),
            Err(_) => same_at(fs, fs0, root),
        },
        ArchiveSwap::Finished => match a {
            FsAction::Finish(Ok(())) => fs.contains_key(root),
            FsAction::Finish(Err(_)) => same_at(fs, fs0, root),
            _ => false,
        },
    }
}

/// The archive install starts in its invariant.
pub proof fn lemma_archive_swap_starts(l: ArchiveLayout, fs0: Map<Seq<char>, int>)
    ensures
        archive_swap_inv(
            l,
            ArchiveSwap::Extracting,
            FsAction::ExtractTarGz { archive: l.archive, into: l.extract_dir },
            fs0,
            fs0,
        ),
{
}

/// Every step keeps the archive install's invariant, whatever the file
/// system answers.
pub proof fn lemma_archive_swap_step(
    l: ArchiveLayout,
    s: ArchiveSwap,
    a: FsAction,
    e: FsEvent,
    r: (ArchiveSwap, FsAction),
    fs0: Map<Seq<char>, int>,
    fs: Map<Seq<char>, int>,
    fs2: Map<Seq<char>, int>,
)
    requires
        archive_paths_apart(l),
        archive_swap_inv(l, s, a, fs0, fs),
        archive_awaits(s, e),
        fs_outcome(a, e, fs, fs2),
        archive_transition(l, s, e, r),
    ensures
        archive_swap_inv(l, r.0, r.1, fs0, fs2),
{
    let root = l.install_root@;
    if l.extract_dir@ == root {
        assert(root.subrange(0, root.len() as int) =~= root);
    }
    match s {
        ArchiveSwap::Extracting => {
            assert(same_at(fs2, fs, root));
        },
        ArchiveSwap::Copying => {
            if !(e matches FsEvent::Done(Ok(_))) {
                let incoming = l.incoming@;
                assert(fs2.remove(incoming) == fs.remove(incoming));
                assert(fs2.remove(incoming).contains_key(root) == fs.remove(incoming).contains_key(root));
                if fs.contains_key(root) {
                    assert(fs2.remove(incoming)[root] == fs.remove(incoming)[root]);
                }
            }
        },
        _ => {},
    }
}

/// The replacement of the binary is atomic: in every state, the install
/// root holds exactly what it held at the start, or, once the rename has
/// succeeded, the new binary; it is never missing when a binary was
/// installed.
pub proof fn lemma_archive_root_always_whole(
    l: ArchiveLayout,
    s: ArchiveSwap,
    a: FsAction,
    fs0: Map<Seq<char>, int>,
    fs: Map<Seq<char>, int>,
)
    requires
        archive_swap_inv(l, s, a, fs0, fs),
    ensures
        same_at(fs, fs0, l.install_root@) || fs.contains_key(l.install_root@),
        fs0.contains_key(l.install_root@) ==> fs.contains_key(l.install_root@),
{
}

/// Whether steps form a run of the archive install (see `mac_run`).
pub open spec fn archive_run(
    l: ArchiveLayout,
    states: Seq<ArchiveSwap>,
    actions: Seq<FsAction>,
    events: Seq<FsEvent>,
    fss: Seq<Map<Seq<char>, int>>,
) -> bool {
    &&& states.len() > 0
    &&& actions.len() == states.len()
    &&& fss.len() == states.len()
    &&& events.len() + 1 == states.len()
    &&& states[0] is Extracting
    &&& actions[0] == (FsAction::ExtractTarGz { archive: l.archive, into: l.extract_dir })
    &&& forall|i: int|
        0 <= i < events.len() ==> {
            &&& archive_awaits(states[i], #[trigger] events[i])
            &&& fs_outcome(actions[i], events[i], fss[i], fss[i + 1])
            &&& archive_transition(l, states[i], events[i], (states[i + 1], actions[i + 1]))
        }
}

/// Whether an outcome of the archive install reports success: every step
/// went through and the extracted archive holds a regular file.
pub open spec fn archive_success(e: FsEvent) -> bool {
    reports_success(e) && (e matches FsEvent::Listing(found) ==> listed_file(found) is Some)
}

/// How far an archive install that meets no failure has got.
pub open spec fn archive_progress(s: ArchiveSwap) -> int {
    match s {
        ArchiveSwap::Extracting => 0,
        ArchiveSwap::Listing => 1,
        ArchiveSwap::Copying => 2,
        ArchiveSwap::Replacing => 3,
        ArchiveSwap::CleaningUp(res) => if res == Ok::<(), Error>(()) { 4 } else { -1 },
        ArchiveSwap::Finished => 5,
    }
}

proof fn lemma_archive_success_prefix(
    l: ArchiveLayout,
    states: Seq<ArchiveSwap>,
    actions: Seq<FsAction>,
    events: Seq<FsEvent>,
    fss: Seq<Map<Seq<char>, int>>,
    n: int,
)
    requires
        archive_run(l, states, actions, events, fss),
        forall|i: int| 0 <= i < events.len() ==> archive_success(#[trigger] events[i]),
        0 <= n < states.len(),
    ensures
        archive_progress(states[n]) == n,
        states[n] is Finished ==> actions[n] == FsAction::Finish(Ok::<(), Error>(())),
    decreases n,
{
    if n > 0 {
        lemma_archive_success_prefix(l, states, actions, events, fss, n - 1);
        let e = events[n - 1];
        assert(archive_success(e));
    }
}

/// An archive install that meets no failure succeeds with the extracted
/// binary: in a run where every step goes through and the archive holds a
/// regular file, there are at most six states, and once the run has
/// finished it has finished with success, the first regular file of the
/// extraction having been copied beside the install root and the install
/// root then holding what that file held.
pub proof fn lemma_archive_success_run(
    l: ArchiveLayout,
    states: Seq<ArchiveSwap>,
    actions: Seq<FsAction>,
    events: Seq<FsEvent>,
    fss: Seq<Map<Seq<char>, int>>,
)
    requires
        archive_paths_apart(l),
        archive_run(l, states, actions, events, fss),
        forall|i: int| 0 <= i < events.len() ==> archive_success(#[trigger] events[i]),
    ensures
        states.len() <= 6,
        states.last() is Finished ==> {
            &&& states.len() == 6
            &&& actions.last() == FsAction::Finish(Ok::<(), Error>(()))
            &&& events[1] matches FsEvent::Listing(found) && listed_file(found) matches Some(f) && actions[2] == (
            FsAction::Copy { from: f, to: l.incoming }) && holds(fss.last(), l.install_root@, fss[2][f@])
        },
{
    let n = states.len() - 1;
    lemma_archive_success_prefix(l, states, actions, events, fss, n);
    if states.last() is Finished {
        assert(n == 5);
        let root = l.install_root@;
        let incoming = l.incoming@;
        if l.extract_dir@ == root {
            assert(root.subrange(0, root.len() as int) =~= root);
        }
        lemma_archive_success_prefix(l, states, actions, events, fss, 1);
        lemma_archive_success_prefix(l, states, actions, events, fss, 2);
        lemma_archive_success_prefix(l, states, actions, events, fss, 3);
        lemma_archive_success_prefix(l, states, actions, events, fss, 4);
        let e1 = events[1];
        let e2 = events[2];
        let e3 = events[3];
        let e4 = events[4];
        assert(archive_success(e1) && archive_success(e2) && archive_success(e3) && archive_success(e4));
    }
}

} // verus!
