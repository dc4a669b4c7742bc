//! Directories and the paths of what lies in them.

use crate::text::{finishes_with, same_text};
use vstd::prelude::*;

verus! {

/// Whether a directory is a drive alone, on a system whose paths have drives: one
/// letter and a colon. It stands for the current directory of that drive.
pub open spec fn bare_drive(directory: Seq<char>, separator: Seq<char>) -> bool {
    &&& separator == "\\"@
    &&& directory.len() == 2
    &&& 'a' <= directory[0] <= 'z' || 'A' <= directory[0] <= 'Z'
    &&& directory[1] == ':'
}

/// The path of an entry of a directory: a separator stands between the two,
/// unless the directory is empty, ends with one or is a drive alone.
pub open spec fn path_in(directory: Seq<char>, separator: Seq<char>, name: Seq<char>) -> Seq<char> {
    if directory.len() == 0 || "/"@.is_suffix_of(directory) || separator.is_suffix_of(directory)
        || bare_drive(directory, separator) {
        directory + name
    } else {
        directory + separator + name
    }
}

/// Whether a directory is a drive alone.
fn is_bare_drive(directory: &str, separator: &str) -> (bare: bool)
    ensures
        bare == bare_drive(directory@, separator@),
{
    if !same_text(separator, "\\") || directory.unicode_len() != 2 {
        return false;
    }
    let letter = directory.get_char(0);
    let lower = 'a' <= letter && letter <= 'z';
    let upper = 'A' <= letter && letter <= 'Z';
    (lower || upper) && directory.get_char(1) == ':'
}

/// The path of an entry of a directory.
pub fn join_path(directory: &str, separator: &str, name: &str) -> (path: String)
    ensures
        path@ == path_in(directory@, separator@, name@),
{
    let mut path = directory.to_string();
    if !directory.is_empty() && !finishes_with(directory, "/") && !finishes_with(
        directory,
        separator,
    ) && !is_bare_drive(directory, separator) {
        path.append(separator);
    }
    path.append(name);
    path
}

/// A directory, by its path and the separator of the system's paths.
#[derive(Debug)]
pub struct Directory {
    pub path: String,
    pub separator: &'static str,
}

impl Directory {
    /// The path of an entry.
    pub open spec fn entry(self, name: Seq<char>) -> Seq<char> {
        path_in(self.path@, self.separator@, name)
    }

    /// The path of an entry.
    pub fn join(&self, name: &str) -> (path: String)
        ensures
            path@ == self.entry(name@),
    {
        join_path(self.path.as_str(), self.separator, name)
    }
}

impl Clone for Directory {
    fn clone(&self) -> (copy: Directory)
        ensures
            copy == *self,
    {
        Directory { path: self.path.clone(), separator: self.separator }
    }
}

/// Every entry lies in its directory, under its name.
pub proof fn entry_lies_in_directory(directory: Directory, name: Seq<char>)
    ensures
        directory.path@.is_prefix_of(directory.entry(name)),
        name.is_suffix_of(directory.entry(name)),
{
    let path = directory.entry(name);
    assert(directory.path@ =~= path.take(directory.path@.len() as int));
    assert(name =~= path.skip(path.len() - name.len()));
}

/// Entries with different names have different paths.
pub proof fn entries_are_distinct(directory: Directory, first: Seq<char>, second: Seq<char>)
    requires
        directory.entry(first) == directory.entry(second),
    ensures
        first == second,
{
    let path = directory.entry(first);
    let kept = path.len() - first.len();
    assert(first =~= path.skip(kept));
    assert(second =~= directory.entry(second).skip(kept));
}

} // verus!
