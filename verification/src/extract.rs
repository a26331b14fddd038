//! Unpacking archives: what is done with each entry of a zip archive.

use vstd::prelude::*;

verus! {

/// What is done with one entry of a zip archive.
#[derive(Debug, Clone, Copy, PartialEq, Eq, Structural)]
pub enum ZipEntryAction {
    /// The entry's name would leave the target directory: it is skipped.
    Skip,
    /// A directory: it is created.
    CreateDir,
    /// A file: its parent directory is created, then the file is written
    /// (and given its recorded Unix mode, where there is one).
    WriteFile,
}

/// What is done with an entry of a zip archive, given whether its name stays
/// inside the target directory and whether it is a directory.
pub fn zip_entry_action(name_is_enclosed: bool, is_dir: bool) -> (a: ZipEntryAction)
    ensures
        !name_is_enclosed ==> a == ZipEntryAction::Skip,
        name_is_enclosed && is_dir ==> a == ZipEntryAction::CreateDir,
        name_is_enclosed && !is_dir ==> a == ZipEntryAction::WriteFile,
{
    if !name_is_enclosed {
        ZipEntryAction::Skip
    } else if is_dir {
        ZipEntryAction::CreateDir
    } else {
        ZipEntryAction::WriteFile
    }
}

} // verus!
