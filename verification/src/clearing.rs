//! The clear operation: empty every log file in place, so that a
//! writer still holding the file open keeps writing into the same
//! storage object, simply starting from offset zero.

use vstd::prelude::*;
use crate::retention::FsEntry;

verus! {

/// Decide a whole clear: for every immediate child of the log
/// directory, whether the operation truncates it to length zero.
/// Exactly the regular files are truncated — never deleted or renamed
/// — and subdirectories are never touched. Every entry is decided: the
/// operation is best-effort and always completes its full enumeration.
pub fn clear_logs(entries: &Vec<FsEntry>) -> (r: Vec<bool>)
    ensures
        r@.len() == entries@.len(),
        forall|i: int| 0 <= i < entries@.len() ==> r@[i] == entries@[i].is_file,
{
    let mut truncate: Vec<bool> = Vec::new();
    let mut i: usize = 0;
    while i < entries.len()
        invariant
            i <= entries@.len(),
            truncate@.len() == i,
            forall|j: int| 0 <= j < i ==> truncate@[j] == entries@[j].is_file,
        decreases entries@.len() - i,
    {
        truncate.push(entries[i].is_file);
        i = i + 1;
    }
    truncate
}

} // verus!
