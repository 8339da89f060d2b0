//! Where the history and the private-mode marker live on disk: in the
//! directory `clipboard-history` under the user's data directory (or under
//! the current directory when the system names no data directory).

use vstd::prelude::*;
use vstd::utf8::encode_utf8;
use std::path::PathBuf;

verus! {

/// Paths are carried through opaque; what the library knows of one is the
/// list of its components (`path_components`).
#[verifier::external_type_specification]
#[verifier::external_body]
pub struct ExPathBuf(PathBuf);

/// What a path holds: the components that `Path::components` yields, each as
/// the bytes of its `as_os_str()` (UTF-8 for text).
pub uninterp spec fn path_components(p: PathBuf) -> Seq<Seq<u8>>;

/// A text that makes exactly one path component: not empty and without `'/'`.
pub open spec fn is_plain_name(s: Seq<char>) -> bool {
    s.len() > 0 && !s.contains('/')
}

/// The name of the directory that holds the history and the private-mode marker.
pub open spec fn data_dir_name() -> Seq<char> {
    "clipboard-history"@
}

/// The components of a file `name` in the data path: the data path ends in
/// the `clipboard-history` directory, under a directory of at least one component.
pub open spec fn is_data_file(c: Seq<Seq<u8>>, name: Seq<char>) -> bool {
    &&& c.len() >= 3
    &&& c[c.len() - 2] == encode_utf8(data_dir_name())
    &&& c.last() == encode_utf8(name)
}

/// `dirs_next::data_dir`: the user's data directory, read from the
/// environment (`$XDG_DATA_HOME` if it is absolute, else `$HOME/.local/share`
/// on Linux). Which directory is not stated (it depends on the machine);
/// stated is what the source shows of every outcome: it is an absolute path
/// or lies under a non-empty home directory, so it has a component.
#[verifier::external_body]
fn data_dir() -> (r: Option<PathBuf>)
    ensures
        r matches Some(p) ==> path_components(p).len() > 0,
{
    dirs_next::data_dir()
}

/// `PathBuf::from` on a string: a text that is not empty and holds no `'/'`
/// is a path of exactly that one component (`Path::components` keeps a lone
/// `"."` as the current-directory component). Other texts are not stated.
#[verifier::external_body]
fn path_from(s: &str) -> (r: PathBuf)
    ensures
        is_plain_name(s@) ==> path_components(r) == seq![encode_utf8(s@)],
{
    PathBuf::from(s)
}

/// `PathBuf::push`: pushing a relative path extends the path; a text that
/// makes one component (other than `"."`, which `Path::components`
/// normalizes away) becomes its last component. Other texts are not stated.
#[verifier::external_body]
fn push_component(path: &mut PathBuf, component: &str)
    ensures
        is_plain_name(component@) && component@ != seq!['.'] ==> path_components(*final(path))
            == path_components(*old(path)).push(encode_utf8(component@)),
{
    path.push(component)
}

/// `Path::exists`: whether something is found on disk at `path`. Nothing is
/// stated: it depends on the file system at the time of the call.
#[verifier::external_body]
fn path_exists(path: &PathBuf) -> bool {
    path.exists()
}

/// The components of the data path over a looked-up data directory: that
/// directory followed by `clipboard-history`, or `./clipboard-history` when
/// there is none.
pub open spec fn data_path_components(base: Option<PathBuf>) -> Seq<Seq<u8>> {
    match base {
        Some(d) => path_components(d).push(encode_utf8(data_dir_name())),
        None => seq![encode_utf8("."@), encode_utf8(data_dir_name())],
    }
}

/// The data path over the data directory `base` (as `dirs_next::data_dir`
/// gives it): `base/clipboard-history`, or `./clipboard-history` without one.
pub fn data_path_in(base: Option<PathBuf>) -> (r: PathBuf)
    ensures
        base matches Some(d) ==> path_components(r) == path_components(d).push(
            encode_utf8("clipboard-history"@),
        ),
        base is None ==> path_components(r) == seq![
            encode_utf8("."@),
            encode_utf8("clipboard-history"@),
        ],
        path_components(r) == data_path_components(base),
{
    let mut path = match base {
        Some(dir) => dir,
        None => {
            proof {
                reveal_strlit(".");
                assert(is_plain_name("."@));
            }
            path_from(".")
        },
    };
    proof {
        reveal_strlit("clipboard-history");
    }
    push_component(&mut path, "clipboard-history");
    path
}

/// The history file over the data directory `base`:
/// `base/clipboard-history/history.json` (`./clipboard-history/history.json`
/// without one).
pub fn history_path_in(base: Option<PathBuf>) -> (r: PathBuf)
    ensures
        path_components(r) == data_path_components(base).push(encode_utf8("history.json"@)),
{
    let mut path = data_path_in(base);
    proof {
        reveal_strlit("history.json");
    }
    push_component(&mut path, "history.json");
    path
}

/// The private-mode marker over the data directory `base`:
/// `base/clipboard-history/.private` (`./clipboard-history/.private` without one).
pub fn private_mode_path_in(base: Option<PathBuf>) -> (r: PathBuf)
    ensures
        path_components(r) == data_path_components(base).push(encode_utf8(".private"@)),
{
    let mut path = data_path_in(base);
    proof {
        reveal_strlit(".private");
    }
    push_component(&mut path, ".private");
    path
}

/// The directory `clipboard-history` under the user's data directory, or
/// under `.` when there is none: `data_path_in` over the looked-up directory.
pub fn data_path() -> (r: PathBuf)
    ensures
        path_components(r).len() >= 2,
        path_components(r).last() == encode_utf8(data_dir_name()),
{
    data_path_in(data_dir())
}

/// The history file, `history.json` in the data path: `history_path_in`
/// over the looked-up data directory.
pub fn history_path() -> (r: PathBuf)
    ensures
        is_data_file(path_components(r), "history.json"@),
{
    history_path_in(data_dir())
}

/// The private-mode marker, `.private` in the data path:
/// `private_mode_path_in` over the looked-up data directory. While it
/// exists, nothing copied is recorded.
pub fn private_mode_path() -> (r: PathBuf)
    ensures
        is_data_file(path_components(r), ".private"@),
{
    private_mode_path_in(data_dir())
}

/// Whether private mode is on: the file system is asked whether the marker
/// `private_mode_path()` exists. The answer comes from the disk, so nothing
/// is stated of it.
pub fn is_private_mode() -> bool {
    let marker = private_mode_path();
    path_exists(&marker)
}

} // verus!
