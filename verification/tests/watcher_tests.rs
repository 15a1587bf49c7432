use wezterm_utils::debounce::Debouncer;
use wezterm_utils::events::PathInfo;
use wezterm_utils::events::RawEvent;
use wezterm_utils::events::RawKind;
use wezterm_utils::events::WatchEvent;
use wezterm_utils::ignore_rules::build_watch_matcher;
use wezterm_utils::ignore_rules::IgnoreMatcher;
use wezterm_utils::translate::translate_event;

#[test]
fn test_watch_event_type() {
    let event = WatchEvent::Created("test.txt".to_string());
    assert_eq!(event.event_type(), "created");

    let event = WatchEvent::Modified("test.txt".to_string());
    assert_eq!(event.event_type(), "modified");
}

#[test]
fn test_watch_event_path() {
    let event = WatchEvent::Created("a.txt".to_string());
    assert_eq!(event.path(), Some("a.txt"));
    let event = WatchEvent::Renamed { from: "a".to_string(), to: "b".to_string() };
    assert_eq!(event.path(), Some("b"));
    let event = WatchEvent::Error("boom".to_string());
    assert_eq!(event.path(), None);
    assert_eq!(event.event_type(), "error");
}

#[test]
fn test_burst_coalesces_to_last_kind() {
    let mut d = Debouncer::new(100);
    d.record("a.txt", RawKind::Create);
    d.record("a.txt", RawKind::Modify);
    d.record("a.txt", RawKind::Modify);
    let out = d.flush();
    assert_eq!(out.len(), 1);
    assert_eq!(out[0].0, "a.txt");
    assert!(matches!(out[0].1, RawKind::Modify));
}

#[test]
fn test_create_then_delete_cancels() {
    let mut d = Debouncer::new(100);
    d.record("a.txt", RawKind::Create);
    d.record("a.txt", RawKind::Remove);
    let out = d.flush();
    assert_eq!(out.len(), 0);
}

#[test]
fn test_modify_then_delete_is_delete() {
    let mut d = Debouncer::new(100);
    d.record("a.txt", RawKind::Modify);
    d.record("a.txt", RawKind::Remove);
    let out = d.flush();
    assert_eq!(out.len(), 1);
    assert!(matches!(out[0].1, RawKind::Remove));
}

#[test]
fn test_two_paths_keep_order() {
    let mut d = Debouncer::new(100);
    d.record("a.txt", RawKind::Create);
    d.record("b.txt", RawKind::Create);
    d.record("a.txt", RawKind::Modify);
    let out = d.flush();
    assert_eq!(out.len(), 2);
    assert_eq!(out[0].0, "a.txt");
    assert!(matches!(out[0].1, RawKind::Modify));
    assert_eq!(out[1].0, "b.txt");
    assert!(matches!(out[1].1, RawKind::Create));
}

#[test]
fn test_flush_empties_the_window() {
    let mut d = Debouncer::new(100);
    d.record("a.txt", RawKind::Create);
    let _ = d.flush();
    let out = d.flush();
    assert_eq!(out.len(), 0);
}

#[test]
fn test_matcher_matches_pattern() {
    let patterns = vec!["*.tmp".to_string()];
    let m = IgnoreMatcher::from_patterns("/w", &patterns).unwrap();
    assert!(m.matches("x.tmp", false));
    assert!(!m.matches("x.txt", false));
}

#[test]
fn test_matcher_rejects_malformed_pattern() {
    let patterns = vec!["a{b".to_string()];
    assert!(IgnoreMatcher::from_patterns("/w", &patterns).is_err());
}

#[test]
fn test_build_watch_matcher_none_without_rules() {
    let none: Vec<String> = Vec::new();
    let m = build_watch_matcher("/w", false, &none).unwrap();
    assert!(m.is_none());
    let some = build_watch_matcher("/w", false, &vec!["*.log".to_string()]).unwrap();
    assert!(some.is_some());
}

#[test]
fn test_ignored_path_is_dropped() {
    let patterns = vec!["*.tmp".to_string()];
    let m = IgnoreMatcher::from_patterns("/w", &patterns).unwrap();
    let ev = RawEvent {
        paths: vec![PathInfo { path: "/w/x.tmp".to_string(), is_dir: false }],
        kind: RawKind::Create,
    };
    assert!(translate_event(&ev, Some(&m), "/w").is_none());
}

#[test]
fn test_ignored_window_delivers_only_the_kept_path() {
    let patterns = vec!["*.tmp".to_string()];
    let m = IgnoreMatcher::from_patterns("/w", &patterns).unwrap();
    let mut d = Debouncer::new(100);
    d.record("/w/x.tmp", RawKind::Create);
    d.record("/w/x.txt", RawKind::Create);
    let coalesced = d.flush();
    let mut delivered: Vec<WatchEvent> = Vec::new();
    for (path, kind) in coalesced {
        let ev = RawEvent { paths: vec![PathInfo { path, is_dir: false }], kind };
        if let Some(out) = translate_event(&ev, Some(&m), "/w") {
            delivered.push(out);
        }
    }
    assert_eq!(delivered.len(), 1);
    assert_eq!(delivered[0].event_type(), "created");
    assert_eq!(delivered[0].path(), Some("/w/x.txt"));
}

#[test]
fn test_any_kind_maps_to_modified() {
    let ev = RawEvent {
        paths: vec![PathInfo { path: "a".to_string(), is_dir: false }],
        kind: RawKind::Any,
    };
    let out = translate_event(&ev, None, "/w").unwrap();
    assert_eq!(out.event_type(), "modified");
}

#[test]
fn test_unknown_kind_is_dropped() {
    let ev = RawEvent {
        paths: vec![PathInfo { path: "a".to_string(), is_dir: false }],
        kind: RawKind::Other,
    };
    assert!(translate_event(&ev, None, "/w").is_none());
}

#[test]
fn test_event_without_paths_is_dropped() {
    let ev = RawEvent { paths: Vec::new(), kind: RawKind::Create };
    assert!(translate_event(&ev, None, "/w").is_none());
}

#[test]
fn test_layered_matcher_rejects_malformed_pattern() {
    let bad = vec!["a{b".to_string()];
    assert!(IgnoreMatcher::with_ignore_file("/w", &bad).is_err());
    assert!(build_watch_matcher("/w", true, &bad).is_err());
    assert!(build_watch_matcher("/w", false, &bad).is_err());
}

#[test]
fn test_layered_matcher_includes_builtins() {
    let patterns = vec!["*.log".to_string()];
    let m = IgnoreMatcher::with_ignore_file("/w", &patterns).unwrap();
    assert!(m.matches("x.swp", false));
    assert!(m.matches("x.log", false));
    assert!(!m.matches("x.txt", false));
}
