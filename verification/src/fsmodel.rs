//! A model of the log directory's immediate children, and what the
//! sweep and clear operations do to it when every per-file step
//! succeeds. The laws here are what the two operations promise.

use vstd::prelude::*;
use crate::retention::{should_delete_spec, FsEntry};

verus! {

/// One immediate child of the log directory as the batch operations
/// see it: its name, whether it is a regular file, its last-modified
/// time in seconds since the epoch, and its content bytes.
pub struct FileModel {
    pub name: Seq<char>,
    pub is_file: bool,
    pub mtime: nat,
    pub bytes: Seq<u8>,
}

/// Whether a sweep with the given cutoff keeps an entry: everything
/// but a regular file whose modification time is older than the
/// cutoff.
pub open spec fn kept_spec(f: FileModel, cutoff: nat) -> bool {
    !(f.is_file && f.mtime < cutoff)
}

/// The directory after a retention sweep whose deletions all succeed:
/// stale regular files are gone, everything else stays as it was.
pub open spec fn sweep_model(dir: Seq<FileModel>, cutoff: nat) -> Seq<FileModel> {
    dir.filter(|f: FileModel| kept_spec(f, cutoff))
}

/// Retention correctness: after a sweep, every regular file whose
/// last-modified time is older than the cutoff is absent; every other
/// entry remains, byte-identical; and nothing appears that was not
/// there before.
pub proof fn lemma_sweep_retention(dir: Seq<FileModel>, cutoff: nat)
    ensures
        forall|f: FileModel| !kept_spec(f, cutoff) ==> !sweep_model(dir, cutoff).contains(f),
        forall|i: int|
            0 <= i < dir.len() && kept_spec(#[trigger] dir[i], cutoff) ==> sweep_model(
                dir,
                cutoff,
            ).contains(dir[i]),
        forall|f: FileModel| #[trigger] sweep_model(dir, cutoff).contains(f) ==> dir.contains(f),
{
    broadcast use vstd::seq_lib::group_seq_properties;

    let pred = |f: FileModel| kept_spec(f, cutoff);
    let out = sweep_model(dir, cutoff);
    assert forall|f: FileModel| !kept_spec(f, cutoff) implies !out.contains(f) by {
        if out.contains(f) {
            let k = choose|k: int| 0 <= k < out.len() && out[k] == f;
            dir.lemma_filter_pred(pred, k);
        }
    }
    assert forall|i: int|
        0 <= i < dir.len() && kept_spec(#[trigger] dir[i], cutoff) implies out.contains(dir[i]) by {
        dir.lemma_filter_contains(pred, i);
    }
    assert forall|f: FileModel| #[trigger] out.contains(f) implies dir.contains(f) by {
        dir.lemma_filter_contains_rev(pred, f);
    }
}

/// Retention correctness, end to end: over a scan whose metadata was
/// readable, a sweep plan that decided every entry marks exactly the
/// entries the directory model loses — so, when the marked deletions
/// succeed, what remains on disk is what the model keeps,
/// byte-identical.
pub proof fn lemma_plan_matches_model(
    entries: Seq<FsEntry>,
    dir: Seq<FileModel>,
    del: Seq<bool>,
    cutoff: nat,
)
    requires
        entries.len() == dir.len(),
        del.len() == entries.len(),
        forall|i: int|
            0 <= i < entries.len() ==> (#[trigger] entries[i]).has_meta && entries[i].has_mtime,
        forall|i: int|
            0 <= i < entries.len() ==> (#[trigger] dir[i]).is_file == entries[i].is_file
                && dir[i].mtime == entries[i].mtime_secs as nat,
        forall|i: int|
            0 <= i < entries.len() ==> #[trigger] del[i] == should_delete_spec(
                entries[i],
                cutoff,
            ),
    ensures
        forall|i: int| 0 <= i < dir.len() ==> (#[trigger] del[i] <==> !kept_spec(dir[i], cutoff)),
{
}

/// The directory after a clear: every regular file keeps its name and
/// identity but holds no bytes; subdirectories are untouched.
pub open spec fn clear_model(dir: Seq<FileModel>) -> Seq<FileModel> {
    dir.map(
        |i: int, f: FileModel|
            if f.is_file {
                FileModel { name: f.name, is_file: f.is_file, mtime: f.mtime, bytes: Seq::empty() }
            } else {
                f
            },
    )
}

/// Clear correctness: the directory keeps exactly its entries, each
/// under its own name; every regular file now has length zero;
/// subdirectories are untouched.
pub proof fn lemma_clear_preserves_entries(dir: Seq<FileModel>)
    ensures
        clear_model(dir).len() == dir.len(),
        forall|i: int|
            0 <= i < dir.len() ==> (#[trigger] clear_model(dir)[i]).name == dir[i].name
                && clear_model(dir)[i].is_file == dir[i].is_file && clear_model(dir)[i].mtime
                == dir[i].mtime,
        forall|i: int|
            0 <= i < dir.len() && dir[i].is_file ==> (#[trigger] clear_model(dir)[i]).bytes.len()
                == 0,
        forall|i: int| 0 <= i < dir.len() && !dir[i].is_file ==> #[trigger] clear_model(dir)[i]
            == dir[i],
{
}

/// Clear idempotence: clearing an already-cleared directory changes
/// nothing.
pub proof fn lemma_clear_idempotent(dir: Seq<FileModel>)
    ensures
        clear_model(clear_model(dir)) == clear_model(dir),
{
    let once = clear_model(dir);
    let twice = clear_model(once);
    assert forall|i: int| 0 <= i < dir.len() implies twice[i] == once[i] by {
        assert(once[i].bytes =~= twice[i].bytes);
    }
    assert(twice =~= once);
}

} // verus!
