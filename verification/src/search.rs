//! The external command resolver's pure half.
//!
//! An external command is an executable named by convention from the
//! command name, looked for in an ordered list of directories; the
//! first directory that holds such an entry wins.  The caller probes
//! the file system and hands each directory's relevant entries in as
//! plain values; the search itself — naming convention, order, first
//! match — is specified and proved here.

use vstd::prelude::*;

use crate::strutil::str_eq;

verus! {

/// One search location: its path and the executable names present in
/// it.
#[derive(Debug, PartialEq, Eq)]
pub struct Directory {
    pub path: String,
    pub entries: Vec<String>,
}

/// Mathematical image of a `Directory`.
pub ghost struct DirectoryView {
    pub path: Seq<char>,
    pub entries: Seq<Seq<char>>,
}

impl View for Directory {
    type V = DirectoryView;

    open spec fn view(&self) -> DirectoryView {
        DirectoryView { path: self.path@, entries: self.entries.deep_view() }
    }
}

impl DeepView for Directory {
    type V = DirectoryView;

    open spec fn deep_view(&self) -> DirectoryView {
        self@
    }
}

/// The naming convention: the executable looked for on behalf of
/// command `cmd`.
pub open spec fn external_name_spec(cmd: Seq<char>) -> Seq<char> {
    "cargo-"@ + cmd
}

/// Build the conventional executable name for a command.
pub fn external_name(cmd: &str) -> (r: String)
    ensures
        r@ == external_name_spec(cmd@),
{
    let mut s = String::from_str("cargo-");
    s.append(cmd);
    s
}

/// A path inside a directory.
pub open spec fn join_path_spec(dir: Seq<char>, file: Seq<char>) -> Seq<char> {
    dir + "/"@ + file
}

/// Join a directory path and a file name.
pub fn join_path(dir: &str, file: &str) -> (r: String)
    ensures
        r@ == join_path_spec(dir@, file@),
{
    let mut s = String::from_str(dir);
    s.append("/");
    s.append(file);
    s
}

/// The directory holds an entry of that name.
pub open spec fn dir_contains(d: DirectoryView, name: Seq<char>) -> bool {
    exists|j: int| 0 <= j < d.entries.len() && d.entries[j] == name
}

/// Index of the first directory at or after `i` that holds `name`.
pub open spec fn first_hit_from(dirs: Seq<DirectoryView>, name: Seq<char>, i: int) -> Option<int>
    decreases dirs.len() - i,
{
    if i < 0 || i >= dirs.len() {
        None
    } else if dir_contains(dirs[i], name) {
        Some(i)
    } else {
        first_hit_from(dirs, name, i + 1)
    }
}

/// Index of the first directory of the ordered search that holds
/// `name`.
pub open spec fn first_hit(dirs: Seq<DirectoryView>, name: Seq<char>) -> Option<int> {
    first_hit_from(dirs, name, 0)
}

/// What the ordered search returns: the full path of `name` inside the
/// first directory that holds it.
pub open spec fn spec_search(dirs: Seq<DirectoryView>, name: Seq<char>) -> Option<Seq<char>> {
    match first_hit(dirs, name) {
        Some(i) => Some(join_path_spec(dirs[i].path, name)),
        None => None,
    }
}

/// The first hit is a hit, and nothing before it is: the ordered
/// search returns the first match and only the first.
pub proof fn lemma_first_hit_from(dirs: Seq<DirectoryView>, name: Seq<char>, i: int)
    requires
        0 <= i <= dirs.len(),
    ensures
        match first_hit_from(dirs, name, i) {
            Some(k) => i <= k < dirs.len() && dir_contains(dirs[k], name) && (forall|j: int|
                i <= j < k ==> !dir_contains(dirs[j], name)),
            None => forall|j: int| i <= j < dirs.len() ==> !dir_contains(dirs[j], name),
        },
    decreases dirs.len() - i,
{
    if i < dirs.len() && !dir_contains(dirs[i], name) {
        lemma_first_hit_from(dirs, name, i + 1);
    }
}

/// Characterization of the whole ordered search.
pub proof fn lemma_first_hit(dirs: Seq<DirectoryView>, name: Seq<char>)
    ensures
        match first_hit(dirs, name) {
            Some(k) => 0 <= k < dirs.len() && dir_contains(dirs[k], name) && (forall|j: int|
                0 <= j < k ==> !dir_contains(dirs[j], name)),
            None => forall|j: int| 0 <= j < dirs.len() ==> !dir_contains(dirs[j], name),
        },
{
    lemma_first_hit_from(dirs, name, 0);
}

/// Membership test over one directory's entries.
fn dir_has_entry(d: &Directory, name: &str) -> (r: bool)
    ensures
        r == dir_contains(d@, name@),
{
    let mut j: usize = 0;
    while j < d.entries.len()
        invariant
            j <= d.entries.len(),
            d.entries.len() == d@.entries.len(),
            forall|k: int| 0 <= k < j ==> d@.entries[k] != name@,
        decreases d.entries.len() - j,
    {
        if str_eq(d.entries[j].as_str(), name) {
            proof {
                assert(d@.entries[j as int] == name@);
            }
            return true;
        }
        j = j + 1;
    }
    false
}

/// Linear search over the ordered locations: the resolved path of the
/// first directory holding `name`, or `None` when no location does.
pub fn find_external(dirs: &Vec<Directory>, name: &str) -> (r: Option<String>)
    ensures
        match r {
            Some(p) => spec_search(dirs.deep_view(), name@) == Some(p@),
            None => spec_search(dirs.deep_view(), name@) is None,
        },
{
    let ghost dv = dirs.deep_view();
    let mut i: usize = 0;
    while i < dirs.len()
        invariant
            dv == dirs.deep_view(),
            dv.len() == dirs.len(),
            i <= dirs.len(),
            first_hit_from(dv, name@, i as int) == first_hit(dv, name@),
        decreases dirs.len() - i,
    {
        proof {
            assert(dv[i as int] == dirs@[i as int]@);
        }
        if dir_has_entry(&dirs[i], name) {
            return Some(join_path(dirs[i].path.as_str(), name));
        }
        i = i + 1;
    }
    None
}

} // verus!
