//! Which directory entries are converted.

use crate::naming::{has_source_extension, is_source_name};
use vstd::prelude::*;

verus! {

/// What kind of thing a directory entry is.
#[derive(Clone, Copy, Debug, PartialEq, Eq, Structural)]
pub enum EntryKind {
    /// A regular file.
    Regular,
    /// A directory.
    Directory,
    /// Anything else: a symbolic link, a socket, a device.
    Other,
}

/// One entry met while walking the directory tree.
#[derive(Debug, PartialEq, Eq)]
pub struct FileEntry {
    /// The path by which the entry was reached.
    pub path: String,
    /// The last component of the path.
    pub name: String,
    pub kind: EntryKind,
}

/// Whether an entry is converted: it is a regular file and its name is a
/// bitmap name.
pub open spec fn accepted(entry: FileEntry) -> bool {
    entry.kind == EntryKind::Regular && is_source_name(entry.name@)
}

/// Whether an entry is converted.
pub fn accepts(entry: &FileEntry) -> (r: bool)
    ensures
        r == accepted(*entry),
{
    match entry.kind {
        EntryKind::Regular => has_source_extension(entry.name.as_str()),
        _ => false,
    }
}

} // verus!
