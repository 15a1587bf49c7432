use wezterm_utils::events::WatchEvent;
use wezterm_utils::git::FileStatus;
use wezterm_utils::git::GitInfo;
use wezterm_utils::output::JsonOutput;
use wezterm_utils::output::JsonSummary;
use wezterm_utils::output::OutputFormat;
use wezterm_utils::output::OutputFormatter;

fn info_with(statuses: Vec<(&str, FileStatus)>) -> GitInfo {
    GitInfo {
        branch: "main".to_string(),
        ahead: 1,
        behind: 2,
        has_conflicts: true,
        file_statuses: statuses.into_iter().map(|(p, s)| (p.to_string(), s)).collect(),
    }
}

#[test]
fn test_output_format_from_str() {
    assert_eq!(OutputFormat::from_str("json"), Some(OutputFormat::Json));
    assert_eq!(OutputFormat::from_str("pretty"), Some(OutputFormat::Pretty));
    assert_eq!(OutputFormat::from_str("events"), Some(OutputFormat::Events));
    assert_eq!(OutputFormat::from_str("invalid"), None);
}

#[test]
fn test_output_format_is_case_insensitive() {
    assert_eq!(OutputFormat::from_str("JSON"), Some(OutputFormat::Json));
    assert_eq!(OutputFormat::from_str("Summary"), Some(OutputFormat::Summary));
}

#[test]
fn test_json_output_render() {
    let line = JsonOutput {
        event_type: "created".to_string(),
        path: Some("a/b.txt".to_string()),
        from_path: None,
        to_path: None,
        git_status: Some("M".to_string()),
        timestamp: 42,
    }
        .render();
    assert_eq!(
        line,
        "{\"event_type\":\"created\",\"path\":\"a/b.txt\",\"from_path\":null,\"to_path\":null,\"git_status\":\"M\",\"timestamp\":42}",
    );
}

#[test]
fn test_json_output_escapes_strings() {
    let line = JsonOutput {
        event_type: "deleted".to_string(),
        path: Some("a\"b\\c\nd\u{1}".to_string()),
        from_path: None,
        to_path: None,
        git_status: None,
        timestamp: 7,
    }
        .render();
    assert_eq!(
        line,
        "{\"event_type\":\"deleted\",\"path\":\"a\\\"b\\\\c\\nd\\u0001\",\"from_path\":null,\"to_path\":null,\"git_status\":null,\"timestamp\":7}",
    );
}

#[test]
fn test_json_summary_render() {
    let line = JsonSummary {
        git_branch: Some("main".to_string()),
        git_ahead: Some(0),
        git_behind: Some(0),
        has_conflicts: false,
        modified_files: 1,
        untracked_files: 1,
        staged_files: 0,
        total_files: 2,
    }
        .render();
    assert_eq!(
        line,
        "{\"git_branch\":\"main\",\"git_ahead\":0,\"git_behind\":0,\"has_conflicts\":false,\"modified_files\":1,\"untracked_files\":1,\"staged_files\":0,\"total_files\":2}",
    );
}

#[test]
fn test_format_events_lines() {
    let f = OutputFormatter::new(OutputFormat::Events);
    let created = WatchEvent::Created("a.txt".to_string());
    assert_eq!(f.format_event(&created, Some(&FileStatus::Untracked)), "? + a.txt");
    let modified = WatchEvent::Modified("b.txt".to_string());
    assert_eq!(f.format_event(&modified, None), "  ~ b.txt");
    let deleted = WatchEvent::Deleted("c.txt".to_string());
    assert_eq!(f.format_event(&deleted, Some(&FileStatus::Modified)), "M - c.txt");
    let renamed = WatchEvent::Renamed { from: "a".to_string(), to: "b".to_string() };
    assert_eq!(f.format_event(&renamed, None), "  R a -> b");
    let error = WatchEvent::Error("boom".to_string());
    assert_eq!(f.format_event(&error, None), "! boom");
}

#[test]
fn test_summary_mode_has_no_event_lines() {
    let f = OutputFormatter::new(OutputFormat::Summary);
    let created = WatchEvent::Created("a.txt".to_string());
    assert_eq!(f.format_event(&created, None), "");
}

#[test]
fn test_events_mode_has_no_git_lines() {
    let f = OutputFormatter::new(OutputFormat::Events);
    assert_eq!(f.format_git_info(&info_with(Vec::new())), "");
}

#[test]
fn test_format_git_summary_line() {
    let f = OutputFormatter::new(OutputFormat::Summary);
    let info = info_with(vec![
        ("a.rs", FileStatus::Modified),
        ("b.rs", FileStatus::Staged),
        ("c.rs", FileStatus::Untracked),
        ("d.rs", FileStatus::Modified),
    ]);
    assert_eq!(f.format_git_info(&info), "[main] \u{2191}1 \u{2193}2 | M:2 S:1 U:1 [CONFLICT]");
}

#[test]
fn test_format_git_json_counts() {
    let f = OutputFormatter::new(OutputFormat::Json);
    let mut info = info_with(vec![
        ("a.rs", FileStatus::Modified),
        ("c.rs", FileStatus::Untracked),
    ]);
    info.ahead = 0;
    info.behind = 0;
    info.has_conflicts = false;
    assert_eq!(
        f.format_git_info(&info),
        "{\"git_branch\":\"main\",\"git_ahead\":0,\"git_behind\":0,\"has_conflicts\":false,\"modified_files\":1,\"untracked_files\":1,\"staged_files\":0,\"total_files\":2}",
    );
}

#[test]
fn test_json_event_line_matches_render() {
    let f = OutputFormatter::new(OutputFormat::Json);
    let created = WatchEvent::Created("a/b.txt".to_string());
    let line = f.format_event(&created, Some(&FileStatus::Modified));
    assert!(line.starts_with("{\"event_type\":\"created\",\"path\":\"a/b.txt\",\"from_path\":null,\"to_path\":null,\"git_status\":\"M\",\"timestamp\":"));
    assert!(line.ends_with("}"));
}

#[test]
fn test_json_error_event_carries_no_status() {
    let f = OutputFormatter::new(OutputFormat::Json);
    let error = WatchEvent::Error("boom".to_string());
    let line = f.format_event(&error, Some(&FileStatus::Modified));
    assert!(line.starts_with(
        "{\"event_type\":\"error\",\"path\":null,\"from_path\":null,\"to_path\":null,\"git_status\":null,\"timestamp\":"
    ));
}
