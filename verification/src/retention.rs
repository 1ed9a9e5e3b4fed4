//! Age-based retention: decide which log files a sweep removes, keep
//! the running totals, and render the summary line.

use vstd::prelude::*;
use crate::digits::{dec2, dec2_spec, dec_spec, dec_string};

verus! {

/// Seconds in one day.
pub const SECS_PER_DAY: u64 = 86400;

/// The moment before which a file is stale: `now` minus the retention
/// window, clamped at zero (a window reaching before the epoch keeps
/// everything ever written).
pub open spec fn cutoff_spec(now_secs: nat, days_to_keep: nat) -> nat {
    if days_to_keep * 86400 >= now_secs {
        0
    } else {
        (now_secs - days_to_keep * 86400) as nat
    }
}

/// Compute the retention cutoff from the current time in seconds since
/// the epoch and the number of days to keep.
pub fn retention_cutoff(now_secs: u64, days_to_keep: u64) -> (r: u64)
    ensures
        r == cutoff_spec(now_secs as nat, days_to_keep as nat),
{
    let window = match days_to_keep.checked_mul(SECS_PER_DAY) {
        Some(w) => w,
        None => u64::MAX,
    };
    now_secs.saturating_sub(window)
}

/// What a directory scan reports of one immediate child: whether it is
/// a regular file, whether its metadata and modification time could be
/// read, that time in seconds since the epoch (zero for a pre-epoch
/// time), and its size in bytes.
pub struct FsEntry {
    pub name: String,
    pub is_file: bool,
    pub has_meta: bool,
    pub has_mtime: bool,
    pub mtime_secs: u64,
    pub size: u64,
}

/// A sweep deletes exactly the regular files whose known modification
/// time is older than the cutoff; subdirectories and unreadable
/// entries are skipped.
pub open spec fn should_delete_spec(e: FsEntry, cutoff: nat) -> bool {
    e.is_file && e.has_meta && e.has_mtime && (e.mtime_secs as nat) < cutoff
}

/// Decide one entry of a sweep.
pub fn should_delete(e: &FsEntry, cutoff: u64) -> (r: bool)
    ensures
        r == should_delete_spec(*e, cutoff as nat),
{
    e.is_file && e.has_meta && e.has_mtime && e.mtime_secs < cutoff
}

/// The retention plan: the cutoff a sweep used and, for every entry of
/// the scan, whether the sweep removes it.
pub struct SweepPlan {
    pub cutoff: u64,
    pub delete: Vec<bool>,
}

/// Decide a whole sweep: which immediate children of the log directory
/// a sweep of `days_to_keep` days removes. Every entry is decided —
/// the sweep always completes its full enumeration — and exactly the
/// stale regular files are marked.
pub fn cleanup_old_logs(entries: &Vec<FsEntry>, now_secs: u64, days_to_keep: u64) -> (r: SweepPlan)
    ensures
        r.cutoff == cutoff_spec(now_secs as nat, days_to_keep as nat),
        r.delete@.len() == entries@.len(),
        forall|i: int|
            0 <= i < entries@.len() ==> r.delete@[i] == should_delete_spec(
                entries@[i],
                r.cutoff as nat,
            ),
{
    let cutoff = retention_cutoff(now_secs, days_to_keep);
    let mut delete: Vec<bool> = Vec::new();
    let mut i: usize = 0;
    while i < entries.len()
        invariant
            i <= entries@.len(),
            delete@.len() == i,
            forall|j: int|
                0 <= j < i ==> delete@[j] == should_delete_spec(entries@[j], cutoff as nat),
        decreases entries@.len() - i,
    {
        delete.push(should_delete(&entries[i], cutoff));
        i = i + 1;
    }
    SweepPlan { cutoff, delete }
}

/// Running totals of a sweep: files deleted and bytes freed. The
/// counters saturate rather than wrap.
pub struct SweepStats {
    pub deleted_count: u64,
    pub bytes_freed: u64,
}

impl SweepStats {
    /// Totals before anything was deleted.
    pub fn new() -> (s: SweepStats)
        ensures
            s.deleted_count == 0,
            s.bytes_freed == 0,
    {
        SweepStats { deleted_count: 0, bytes_freed: 0 }
    }

    /// Record one successful deletion of a file of `size` bytes. A
    /// failed deletion is simply not recorded: the sweep is
    /// best-effort and goes on with the next entry.
    pub fn record_deleted(&mut self, size: u64)
        ensures
            final(self).deleted_count as nat == if old(self).deleted_count as nat + 1 <= u64::MAX as nat {
                old(self).deleted_count as nat + 1
            } else {
                u64::MAX as nat
            },
            final(self).bytes_freed as nat == if old(self).bytes_freed as nat + size as nat
                <= u64::MAX as nat {
                old(self).bytes_freed as nat + size as nat
            } else {
                u64::MAX as nat
            },
    {
        self.deleted_count = self.deleted_count.saturating_add(1);
        self.bytes_freed = self.bytes_freed.saturating_add(size);
    }
}

/// How many of the first `n` planned deletions succeeded.
pub open spec fn swept_count(del: Seq<bool>, ok: Seq<bool>, n: int) -> nat
    decreases n,
{
    if n <= 0 {
        0
    } else {
        swept_count(del, ok, n - 1) + (if del[n - 1] && ok[n - 1] {
            1nat
        } else {
            0nat
        })
    }
}

/// How many bytes the first `n` successful deletions freed.
pub open spec fn swept_bytes(entries: Seq<FsEntry>, del: Seq<bool>, ok: Seq<bool>, n: int) -> nat
    decreases n,
{
    if n <= 0 {
        0
    } else {
        swept_bytes(entries, del, ok, n - 1) + (if del[n - 1] && ok[n - 1] {
            entries[n - 1].size as nat
        } else {
            0nat
        })
    }
}

/// Fold a sweep's per-file outcomes into its totals. The sweep is
/// best-effort: a failed deletion is skipped without aborting anything,
/// every entry is still processed, and the totals count exactly the
/// deletions that succeeded (saturating at the counters' bounds).
pub fn apply_sweep_outcomes(
    plan: &SweepPlan,
    entries: &Vec<FsEntry>,
    deleted_ok: &Vec<bool>,
) -> (stats: SweepStats)
    requires
        plan.delete@.len() == entries@.len(),
        deleted_ok@.len() == entries@.len(),
    ensures
        stats.deleted_count as nat == vstd::math::min(
            swept_count(plan.delete@, deleted_ok@, entries@.len() as int) as int,
            u64::MAX as int,
        ),
        stats.bytes_freed as nat == vstd::math::min(
            swept_bytes(entries@, plan.delete@, deleted_ok@, entries@.len() as int) as int,
            u64::MAX as int,
        ),
{
    let mut stats = SweepStats::new();
    let mut i: usize = 0;
    while i < entries.len()
        invariant
            i <= entries@.len(),
            plan.delete@.len() == entries@.len(),
            deleted_ok@.len() == entries@.len(),
            stats.deleted_count as nat == vstd::math::min(
                swept_count(plan.delete@, deleted_ok@, i as int) as int,
                u64::MAX as int,
            ),
            stats.bytes_freed as nat == vstd::math::min(
                swept_bytes(entries@, plan.delete@, deleted_ok@, i as int) as int,
                u64::MAX as int,
            ),
        decreases entries@.len() - i,
    {
        if plan.delete[i] && deleted_ok[i] {
            stats.record_deleted(entries[i].size);
        }
        i = i + 1;
    }
    stats
}

/// Bytes as hundredths of a mebibyte, rounded half up: the two-decimal
/// figure the summary line shows.
pub open spec fn centi_mib_spec(bytes: nat) -> nat {
    (bytes * 100 + 524288) / 1048576
}

/// Convert a byte total to hundredths of a mebibyte.
pub fn centi_mib(bytes: u64) -> (r: u64)
    ensures
        r == centi_mib_spec(bytes as nat),
{
    let c: u128 = ((bytes as u128) * 100 + 524288) / 1048576;
    proof {
        assert((bytes as nat * 100 + 524288) / 1048576 <= u64::MAX) by (nonlinear_arith)
            requires
                bytes <= u64::MAX,
        ;
    }
    c as u64
}

/// The one summary line of a sweep that removed anything: how many
/// files were deleted and how much space was freed, in mebibytes with
/// two decimals.
pub open spec fn summary_spec(count: nat, bytes: nat) -> Seq<char> {
    "Log cleanup completed: deleted "@ + dec_spec(count) + " files, freed "@ + dec_spec(
        centi_mib_spec(bytes) / 100,
    ) + "."@ + dec2_spec(centi_mib_spec(bytes) % 100) + " MB space"@
}

/// Render the summary of a finished sweep: no line when nothing was
/// deleted, else exactly the summary line.
pub fn sweep_summary(stats: &SweepStats) -> (r: Option<String>)
    ensures
        r is Some <==> stats.deleted_count != 0,
        r matches Some(s) ==> s@ == summary_spec(stats.deleted_count as nat, stats.bytes_freed as nat),
{
    if stats.deleted_count == 0 {
        return None;
    }
    let centi = centi_mib(stats.bytes_freed);
    let mut s = "Log cleanup completed: deleted ".to_owned();
    s.append(dec_string(stats.deleted_count).as_str());
    s.append(" files, freed ");
    s.append(dec_string(centi / 100).as_str());
    s.append(".");
    s.append(dec2(centi % 100).as_str());
    s.append(" MB space");
    proof {
        assert(s@ =~= summary_spec(stats.deleted_count as nat, stats.bytes_freed as nat));
    }
    Some(s)
}

/// The logs subdirectory under a data directory.
pub fn log_dir_path(data_dir: &str) -> (r: String)
    ensures
        r@ == data_dir@ + "/logs"@,
{
    let mut s = data_dir.to_owned();
    s.append("/logs");
    s
}

} // verus!
