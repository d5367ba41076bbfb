//! Where things live below the user's home directory, and the test whether
//! a directory is on the executable search path.

use crate::constants::{CLI_NAME, CONFIG_SUBDIR, INSTALL_SUBDIR, VERSION_RECORD};
use crate::text::{chars_of, same_chars, slice_of, split, split_on};
use vstd::prelude::*;
use vstd::string::*;

verus! {

/// The directories of the tool, all derived from the home directory.
#[derive(Clone, Debug, PartialEq, Eq)]
pub struct Layout {
    pub home: String,
}

/// The directory that holds the binary and the version record.
pub open spec fn install_dir_of(home: Seq<char>) -> Seq<char> {
    home + "/"@ + INSTALL_SUBDIR@
}

/// The directory that holds the tool's configuration.
pub open spec fn config_dir_of(home: Seq<char>) -> Seq<char> {
    home + "/"@ + CONFIG_SUBDIR@
}

/// The path of the installed binary.
pub open spec fn binary_path_of(home: Seq<char>) -> Seq<char> {
    install_dir_of(home) + "/"@ + CLI_NAME@
}

/// The path of the file that records the installed version.
pub open spec fn version_record_path_of(home: Seq<char>) -> Seq<char> {
    install_dir_of(home) + "/"@ + VERSION_RECORD@
}

/// Whether `path` starts at the root of the file system.
pub open spec fn is_rooted(path: Seq<char>) -> bool {
    path.len() > 0 && path[0] == '/'
}

/// Whether `path` starts with an explicit reference to the current
/// directory: it is `.` or begins with `./`.
pub open spec fn starts_at_current_dir(path: Seq<char>) -> bool {
    path.len() > 0 && path[0] == '.' && (path.len() == 1 || path[1] == '/')
}

/// Whether a piece between two slashes names something: it is neither
/// empty nor a lone dot.
pub open spec fn is_name(piece: Seq<char>) -> bool {
    piece.len() > 0 && !(piece.len() == 1 && piece[0] == '.')
}

/// The names along `path`, in order. Repeated and trailing slashes and dots
/// that stand for "here" contribute nothing.
pub open spec fn names_of(path: Seq<char>) -> Seq<Seq<char>> {
    split(path, '/').filter(|piece: Seq<char>| is_name(piece))
}

/// Whether two paths denote the same place without looking at the file
/// system: both or neither are rooted, both or neither start at the current
/// directory, and they walk through the same names.
pub open spec fn same_path(a: Seq<char>, b: Seq<char>) -> bool {
    &&& is_rooted(a) == is_rooted(b)
    &&& starts_at_current_dir(a) == starts_at_current_dir(b)
    &&& names_of(a) == names_of(b)
}

/// Whether one of the colon-separated entries of `search_path` is `dir`.
pub open spec fn on_search_path(search_path: Seq<char>, dir: Seq<char>) -> bool {
    exists|i: int|
        0 <= i < split(search_path, ':').len() && same_path(
            #[trigger] split(search_path, ':')[i],
            dir,
        )
}

/// The names along `path`.
fn path_names(path: &Vec<char>) -> (names: Vec<Vec<char>>)
    ensures
        names@.len() == names_of(path@).len(),
        forall|i: int| 0 <= i < names@.len() ==> (#[trigger] names@[i])@ == names_of(path@)[i],
{
    let pieces = split_on(path, '/');
    let ghost all = split(path@, '/');
    let ghost keep = |piece: Seq<char>| is_name(piece);
    let mut names: Vec<Vec<char>> = Vec::new();
    let mut i: usize = 0;
    proof {
        reveal(Seq::filter);
        assert(all.take(0).filter(keep) == Seq::<Seq<char>>::empty());
    }
    while i < pieces.len()
        invariant
            i <= pieces.len(),
            pieces@.len() == all.len(),
            forall|k: int| 0 <= k < pieces@.len() ==> (#[trigger] pieces@[k])@ == all[k],
            keep == (|piece: Seq<char>| is_name(piece)),
            names@.len() == all.take(i as int).filter(keep).len(),
            forall|k: int|
                0 <= k < names@.len() ==> (#[trigger] names@[k])@ == all.take(i as int).filter(
                    keep,
                )[k],
        decreases pieces.len() - i,
    {
        let piece = &pieces[i];
        proof {
            reveal(Seq::filter);
            assert(all.take(i + 1).drop_last() == all.take(i as int));
            assert(all.take(i + 1).last() == piece@);
        }
        if piece.len() > 0 && !(piece.len() == 1 && piece[0] == '.') {
            names.push(slice_all(piece));
        }
        i += 1;
    }
    assert(all.take(all.len() as int) == all);
    names
}

/// A copy of `text`.
fn slice_all(text: &Vec<char>) -> (copy: Vec<char>)
    ensures
        copy@ == text@,
{
    let copy = slice_of(text, 0, text.len());
    assert(text@.subrange(0, text@.len() as int) == text@);
    copy
}

/// Whether two paths denote the same place without looking at the file
/// system.
pub fn paths_match(a: &Vec<char>, b: &Vec<char>) -> (same: bool)
    ensures
        same == same_path(a@, b@),
{
    let a_rooted = a.len() > 0 && a[0] == '/';
    let b_rooted = b.len() > 0 && b[0] == '/';
    let a_here = a.len() > 0 && a[0] == '.' && (a.len() == 1 || a[1] == '/');
    let b_here = b.len() > 0 && b[0] == '.' && (b.len() == 1 || b[1] == '/');
    if a_rooted != b_rooted || a_here != b_here {
        return false;
    }
    let a_names = path_names(a);
    let b_names = path_names(b);
    if a_names.len() != b_names.len() {
        return false;
    }
    let mut i: usize = 0;
    while i < a_names.len()
        invariant
            i <= a_names.len(),
            a_names@.len() == b_names@.len(),
            a_names@.len() == names_of(a@).len(),
            b_names@.len() == names_of(b@).len(),
            forall|k: int|
                0 <= k < a_names@.len() ==> (#[trigger] a_names@[k])@ == names_of(a@)[k],
            forall|k: int|
                0 <= k < b_names@.len() ==> (#[trigger] b_names@[k])@ == names_of(b@)[k],
            forall|k: int| 0 <= k < i ==> names_of(a@)[k] == names_of(b@)[k],
        decreases a_names.len() - i,
    {
        if !same_chars(&a_names[i], &b_names[i]) {
            assert(names_of(a@)[i as int] != names_of(b@)[i as int]);
            return false;
        }
        i += 1;
    }
    assert(names_of(a@) =~= names_of(b@));
    true
}

/// Whether `dir` is one of the colon-separated entries of `search_path`.
/// Without a search path no directory is on it.
pub fn path_contains(search_path: Option<&str>, dir: &str) -> (found: bool)
    ensures
        found == match search_path {
            Some(list) => on_search_path(list@, dir@),
            None => false,
        },
{
    match search_path {
        None => false,
        Some(list) => {
            let entries = split_on(&chars_of(list), ':');
            let wanted = chars_of(dir);
            let mut i: usize = 0;
            while i < entries.len()
                invariant
                    i <= entries.len(),
                    search_path == Some(list),
                    wanted@ == dir@,
                    entries@.len() == split(list@, ':').len(),
                    forall|k: int|
                        0 <= k < entries@.len() ==> (#[trigger] entries@[k])@ == split(
                            list@,
                            ':',
                        )[k],
                    forall|k: int| 0 <= k < i ==> !same_path(split(list@, ':')[k], dir@),
                decreases entries.len() - i,
            {
                if paths_match(&entries[i], &wanted) {
                    assert(same_path(split(list@, ':')[i as int], dir@));
                    return true;
                }
                i += 1;
            }
            false
        },
    }
}

impl Layout {
    /// The layout below `home`.
    pub fn new(home: &str) -> (layout: Layout)
        ensures
            layout.home@ == home@,
    {
        Layout { home: home.to_owned() }
    }

    /// The directory that holds the binary and the version record.
    pub fn install_dir(&self) -> (path: String)
        ensures
            path@ == install_dir_of(self.home@),
    {
        let mut path = self.home.clone();
        path.append("/");
        path.append(INSTALL_SUBDIR);
        path
    }

    /// The directory that holds the tool's configuration.
    pub fn config_dir(&self) -> (path: String)
        ensures
            path@ == config_dir_of(self.home@),
    {
        let mut path = self.home.clone();
        path.append("/");
        path.append(CONFIG_SUBDIR);
        path
    }

    /// The path of the installed binary.
    pub fn binary_path(&self) -> (path: String)
        ensures
            path@ == binary_path_of(self.home@),
    {
        let mut path = self.install_dir();
        path.append("/");
        path.append(CLI_NAME);
        path
    }

    /// The path of the file that records the installed version.
    pub fn version_record_path(&self) -> (path: String)
        ensures
            path@ == version_record_path_of(self.home@),
    {
        let mut path = self.install_dir();
        path.append("/");
        path.append(VERSION_RECORD);
        path
    }

    /// Whether the install directory is on `search_path`.
    pub fn on_path(&self, search_path: Option<&str>) -> (found: bool)
        ensures
            found == match search_path {
                Some(list) => on_search_path(list@, install_dir_of(self.home@)),
                None => false,
            },
    {
        let dir = self.install_dir();
        path_contains(search_path, dir.as_str())
    }
}

} // verus!
