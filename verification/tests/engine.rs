use applog::clearing::clear_logs;
use applog::errors::LogError;
use applog::httpcfg::{choose_client, should_use_proxy, ClientChoice};
use applog::initguard::{plan_init, InitGuard, InitStep, DEFAULT_RETENTION_DAYS};
use applog::retention::{
    apply_sweep_outcomes, cleanup_old_logs, log_dir_path, retention_cutoff, should_delete,
    sweep_summary, FsEntry, SweepStats, SECS_PER_DAY,
};

fn file_entry(name: &str, mtime_secs: u64, size: u64) -> FsEntry {
    FsEntry {
        name: name.to_string(),
        is_file: true,
        has_meta: true,
        has_mtime: true,
        mtime_secs,
        size,
    }
}

fn dir_entry(name: &str) -> FsEntry {
    FsEntry {
        name: name.to_string(),
        is_file: false,
        has_meta: true,
        has_mtime: true,
        mtime_secs: 0,
        size: 0,
    }
}

#[test]
fn cutoff_subtracts_window() {
    assert_eq!(retention_cutoff(1_000_000, 7), 1_000_000 - 7 * SECS_PER_DAY);
}

#[test]
fn cutoff_clamps_at_epoch() {
    assert_eq!(retention_cutoff(100, 7), 0);
    assert_eq!(retention_cutoff(1_000_000, u64::MAX), 0);
}

#[test]
fn sweep_deletes_only_stale_files() {
    let now = 20 * SECS_PER_DAY;
    let entries = vec![
        file_entry("app.log.2024-01-01", now - 10 * SECS_PER_DAY, 500_000),
        file_entry("app.log.2024-01-10", now, 1_200),
    ];
    let plan = cleanup_old_logs(&entries, now, 7);
    assert_eq!(plan.cutoff, now - 7 * SECS_PER_DAY);
    assert_eq!(plan.delete, vec![true, false]);

    let mut stats = SweepStats::new();
    stats.record_deleted(500_000);
    assert_eq!(stats.deleted_count, 1);
    assert_eq!(stats.bytes_freed, 500_000);
    let summary = sweep_summary(&stats).expect("one deletion must produce a summary");
    assert_eq!(
        summary,
        "Log cleanup completed: deleted 1 files, freed 0.48 MB space"
    );
}

#[test]
fn sweep_skips_directories_and_unreadable_entries() {
    let cutoff = 1_000;
    assert!(!should_delete(&dir_entry("archive"), cutoff));
    let mut no_meta = file_entry("app.log.2023-01-01", 0, 10);
    no_meta.has_meta = false;
    assert!(!should_delete(&no_meta, cutoff));
    let mut no_mtime = file_entry("app.log.2023-01-02", 0, 10);
    no_mtime.has_mtime = false;
    assert!(!should_delete(&no_mtime, cutoff));
    assert!(should_delete(&file_entry("app.log.2023-01-03", 999, 10), cutoff));
}

#[test]
fn sweep_keeps_file_at_cutoff_boundary() {
    let cutoff = 1_000;
    assert!(!should_delete(&file_entry("app.log", 1_000, 10), cutoff));
    assert!(!should_delete(&file_entry("app.log", 1_001, 10), cutoff));
}

#[test]
fn sweep_decides_every_entry() {
    let now = 30 * SECS_PER_DAY;
    let entries = vec![
        file_entry("a", 0, 1),
        dir_entry("sub"),
        file_entry("b", now, 1),
        file_entry("c", 1, 1),
    ];
    let plan = cleanup_old_logs(&entries, now, 7);
    assert_eq!(plan.delete.len(), entries.len());
    assert_eq!(plan.delete, vec![true, false, false, true]);
}

#[test]
fn sweep_totals_count_only_successful_deletions() {
    // One stale file is locked and cannot be deleted: the sweep still
    // processes every other file and reports only what it freed.
    let now = 30 * SECS_PER_DAY;
    let entries = vec![
        file_entry("locked.log", 0, 700),
        file_entry("stale.log", 1, 500_000),
        file_entry("fresh.log", now, 9),
    ];
    let plan = cleanup_old_logs(&entries, now, 7);
    assert_eq!(plan.delete, vec![true, true, false]);
    let deleted_ok = vec![false, true, false];
    let stats = apply_sweep_outcomes(&plan, &entries, &deleted_ok);
    assert_eq!(stats.deleted_count, 1);
    assert_eq!(stats.bytes_freed, 500_000);
    assert_eq!(
        sweep_summary(&stats).unwrap(),
        "Log cleanup completed: deleted 1 files, freed 0.48 MB space"
    );
}

#[test]
fn sweep_summary_silent_when_nothing_deleted() {
    let stats = SweepStats::new();
    assert!(sweep_summary(&stats).is_none());
}

#[test]
fn sweep_summary_whole_mebibyte() {
    let mut stats = SweepStats::new();
    stats.record_deleted(1_048_576);
    stats.record_deleted(1_048_576);
    let summary = sweep_summary(&stats).unwrap();
    assert_eq!(
        summary,
        "Log cleanup completed: deleted 2 files, freed 2.00 MB space"
    );
}

#[test]
fn sweep_stats_saturate() {
    let mut stats = SweepStats::new();
    stats.record_deleted(u64::MAX);
    stats.record_deleted(100);
    assert_eq!(stats.bytes_freed, u64::MAX);
    assert_eq!(stats.deleted_count, 2);
}

#[test]
fn clear_truncates_exactly_the_regular_files() {
    let entries = vec![
        file_entry("app.log.2024-01-01", 0, 2_048),
        dir_entry("nested"),
        file_entry("app.log.2024-01-02", 5, 0),
    ];
    let plan = clear_logs(&entries);
    assert_eq!(plan, vec![true, false, true]);
}

#[test]
fn clear_single_file_scenario() {
    let entries = vec![file_entry("app.log", 123, 2_048)];
    let plan = clear_logs(&entries);
    assert_eq!(plan, vec![true]);
}

#[test]
fn clear_decides_every_entry_despite_failures() {
    // A locked file only fails at truncation time, outside the decision:
    // the plan still covers every other entry.
    let entries = vec![
        file_entry("locked.log", 0, 10),
        file_entry("open.log", 0, 10),
        file_entry("other.log", 0, 10),
    ];
    let plan = clear_logs(&entries);
    assert_eq!(plan.len(), 3);
    assert!(plan.iter().all(|t| *t));
}

#[test]
fn init_guard_installs_exactly_once() {
    let mut guard = InitGuard::new();
    assert!(guard.try_init());
    assert!(!guard.try_init());
    assert!(!guard.try_init());
}

#[test]
fn init_plan_orders_directory_before_guard() {
    assert_eq!(plan_init(false, false), InitStep::AbortNoDirectory);
    assert_eq!(plan_init(false, true), InitStep::AbortNoDirectory);
    assert_eq!(plan_init(true, true), InitStep::AlreadyInstalled);
    assert_eq!(plan_init(true, false), InitStep::Install);
}

#[test]
fn default_retention_is_seven_days() {
    assert_eq!(DEFAULT_RETENTION_DAYS, 7);
}

#[test]
fn log_dir_is_under_data_dir() {
    assert_eq!(log_dir_path("/data"), "/data/logs");
}

#[test]
fn error_messages_name_the_failure() {
    assert_eq!(
        LogError::DirectoryCreation.message(),
        "Failed to create log directory"
    );
    assert_eq!(
        LogError::FileEnumeration.message(),
        "Failed to read log directory"
    );
    assert_eq!(
        LogError::DirectoryResolution.message(),
        "Failed to resolve data directory"
    );
    assert_eq!(LogError::PerFileIo.message(), "Failed to modify log file");
    assert_eq!(
        LogError::TimeComputation.message(),
        "Failed to get system time"
    );
}

#[test]
fn client_choice_covers_the_shared_timeouts() {
    assert_eq!(choose_client(15), ClientChoice::Shared);
    assert_eq!(choose_client(60), ClientChoice::SharedLong);
    assert_eq!(choose_client(20), ClientChoice::Fresh);
}

#[test]
fn proxy_needs_enabled_and_nonempty_url() {
    assert!(should_use_proxy(true, "http://proxy:8080"));
    assert!(!should_use_proxy(true, ""));
    assert!(!should_use_proxy(false, "http://proxy:8080"));
}
