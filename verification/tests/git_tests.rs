use wezterm_utils::cache::StatusCache;
use wezterm_utils::git::classify_status_bits;
use wezterm_utils::git::compute_git_info;
use wezterm_utils::git::upstream_ref_name;
use wezterm_utils::git::FileStatus;
use wezterm_utils::git::GitInfo;
use wezterm_utils::git::RawStatusEntry;
use wezterm_utils::git::STATUS_CONFLICTED;
use wezterm_utils::git::STATUS_INDEX_NEW;
use wezterm_utils::git::STATUS_WT_MODIFIED;
use wezterm_utils::git::STATUS_WT_NEW;
use wezterm_utils::repo::resolve_upstream;
use wezterm_utils::repo::GitError;
use wezterm_utils::repo::RefLookup;
use wezterm_utils::repo::GitMonitor;

fn snapshot(branch: &str) -> GitInfo {
    GitInfo {
        branch: branch.to_string(),
        ahead: 0,
        behind: 0,
        has_conflicts: false,
        file_statuses: Vec::new(),
    }
}

#[test]
fn test_file_status_display() {
    assert_eq!(FileStatus::Modified.to_short_str(), "M");
    assert_eq!(FileStatus::Added.to_short_str(), "A");
    assert_eq!(FileStatus::Deleted.to_short_str(), "D");
}

#[test]
fn test_classification_precedence() {
    assert_eq!(classify_status_bits(STATUS_CONFLICTED | STATUS_WT_NEW), FileStatus::Conflicted);
    assert_eq!(classify_status_bits(STATUS_INDEX_NEW | STATUS_WT_MODIFIED), FileStatus::Staged);
    assert_eq!(classify_status_bits(STATUS_WT_NEW), FileStatus::Untracked);
    assert_eq!(classify_status_bits(STATUS_WT_MODIFIED), FileStatus::Modified);
    assert_eq!(classify_status_bits(0x0200), FileStatus::Deleted);
    assert_eq!(classify_status_bits(0x0800), FileStatus::Renamed);
    assert_eq!(classify_status_bits(0), FileStatus::Unknown);
}

#[test]
fn test_compute_git_info_untracked_and_modified() {
    let entries = vec![
        RawStatusEntry { path: "a.txt".to_string(), bits: STATUS_WT_NEW },
        RawStatusEntry { path: "b.txt".to_string(), bits: STATUS_WT_MODIFIED },
    ];
    let info = compute_git_info(true, Some("main".to_string()), None, entries);
    assert_eq!(info.branch, "main");
    assert_eq!(info.ahead, 0);
    assert_eq!(info.behind, 0);
    assert!(!info.has_conflicts);
    assert_eq!(info.file_statuses.len(), 2);
    assert_eq!(info.file_statuses[0].0, "a.txt");
    assert_eq!(info.file_statuses[0].1, FileStatus::Untracked);
    assert_eq!(info.file_statuses[1].0, "b.txt");
    assert_eq!(info.file_statuses[1].1, FileStatus::Modified);
}

#[test]
fn test_compute_git_info_detached_and_conflicts() {
    let entries = vec![RawStatusEntry { path: "c.txt".to_string(), bits: STATUS_CONFLICTED }];
    let info = compute_git_info(false, Some("main".to_string()), Some((3, 1)), entries);
    assert_eq!(info.branch, "detached");
    assert_eq!(info.ahead, 3);
    assert_eq!(info.behind, 1);
    assert!(info.has_conflicts);
    assert_eq!(info.file_statuses[0].1, FileStatus::Conflicted);
}

#[test]
fn test_branch_fallback_name() {
    let info = compute_git_info(true, None, None, Vec::new());
    assert_eq!(info.branch, "unknown");
}

#[test]
fn test_upstream_ref_name() {
    let name = upstream_ref_name("main");
    assert_eq!(name, "refs/remotes/origin/main");
}

#[test]
fn test_file_status_same_for_absolute_and_relative() {
    let mut info = snapshot("main");
    info.file_statuses.push(("src/a.rs".to_string(), FileStatus::Modified));
    let root = "/repo".to_string();
    let by_abs = info.file_status_of(Some(&root), "/repo/src/a.rs");
    let by_rel = info.file_status_of(Some(&root), "src/a.rs");
    assert_eq!(by_abs, Some(FileStatus::Modified));
    assert_eq!(by_abs, by_rel);
}

#[test]
fn test_file_status_missing_path() {
    let info = snapshot("main");
    let root = "/repo".to_string();
    assert_eq!(info.file_status_of(Some(&root), "/repo/a.rs"), None);
    assert_eq!(info.file_status_of(None, "a.rs"), None);
}

#[test]
fn test_cache_miss_hit_expiry() {
    let mut cache = StatusCache::new(500);
    assert!(cache.lookup(0).is_none());
    cache.store(0, snapshot("main"));
    assert_eq!(cache.recomputations, 1);
    let hit = cache.lookup(100).unwrap();
    assert_eq!(hit.branch, "main");
    assert!(cache.lookup(600).is_none());
    let refreshed = cache.get_or_store(600, snapshot("work"));
    assert_eq!(refreshed.branch, "work");
    assert_eq!(cache.recomputations, 2);
}

#[test]
fn test_cache_two_reads_within_ttl_recompute_once() {
    let mut cache = StatusCache::new(500);
    let first = cache.get_or_store(0, snapshot("main"));
    let second = cache.get_or_store(100, snapshot("other"));
    assert_eq!(first.branch, "main");
    assert_eq!(second.branch, "main");
    assert_eq!(cache.recomputations, 1);
}

#[test]
fn test_cache_invalidate_forces_recompute() {
    let mut cache = StatusCache::new(500);
    let _ = cache.get_or_store(0, snapshot("main"));
    cache.invalidate();
    let after = cache.get_or_store(1, snapshot("fresh"));
    assert_eq!(after.branch, "fresh");
    assert_eq!(cache.recomputations, 2);
}

#[test]
fn test_monitor_without_repository() {
    let mut monitor = GitMonitor::new("/");
    assert!(!monitor.is_git_repo());
    assert!(monitor.repo_root().is_none());
    match monitor.get_status(0) {
        Err(e) => assert!(matches!(e, GitError::NoRepository)),
        Ok(_) => panic!("a repository above the filesystem root"),
    }
    assert_eq!(monitor.cache().recomputations, 0);
}

#[test]
fn test_resolve_upstream_defaults() {
    match resolve_upstream(RefLookup::NotFound) {
        Ok(None) => {},
        _ => panic!("a missing upstream reference must mean no upstream"),
    }
    match resolve_upstream(RefLookup::NoTarget) {
        Err(e) => assert!(matches!(e, GitError::NoUpstreamTarget)),
        Ok(_) => panic!("a reference without a target must degrade"),
    }
}
