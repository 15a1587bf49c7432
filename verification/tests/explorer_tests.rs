use wezterm_utils::app::App;
use wezterm_utils::app::AppMode;
use wezterm_utils::app::ConfirmationMode;
use wezterm_utils::app::FileOp;
use wezterm_utils::app::InputMode;
use wezterm_utils::correlate::delivered;
use wezterm_utils::correlate::tick;
use wezterm_utils::correlate::LoopState;
use wezterm_utils::correlate::RecvOutcome;
use wezterm_utils::correlate::TickAction;
use wezterm_utils::events::WatchEvent;
use wezterm_utils::file_entry::format_permissions;
use wezterm_utils::file_entry::triplet;
use wezterm_utils::file_entry::FileEntry;
use wezterm_utils::file_entry::FileType;
use wezterm_utils::git_status::parse_status;
use wezterm_utils::git_status::GitFileStatus;
use wezterm_utils::git_status::GitStatus;
use wezterm_utils::ipc::handle_ipc_message;
use wezterm_utils::ipc::run_json_mode;
use wezterm_utils::ipc::IpcDirective;
use wezterm_utils::ipc::IpcMessage;
use wezterm_utils::icons::color_name_for;
use wezterm_utils::icons::ColorName;
use wezterm_utils::icons::Icons;
use wezterm_utils::keybindings::KeyBindings;
use wezterm_utils::listing::sort_entries;
use wezterm_utils::strutil::parent_path;

fn entry(path: &str, name: &str, file_type: FileType) -> FileEntry {
    FileEntry {
        path: path.to_string(),
        name: name.to_string(),
        file_type,
        size: 0,
        modified: 0,
        permissions: "rw-rw-r--".to_string(),
        is_hidden: name.starts_with('.'),
    }
}

fn browser() -> App {
    App::new(
        "/d".to_string(),
        vec![
            entry("/d/docs", "docs", FileType::Directory),
            entry("/d/README.md", "README.md", FileType::File),
            entry("/d/main.rs", "main.rs", FileType::File),
        ],
        None,
    )
}

#[test]
fn test_cursor_movement_stays_in_bounds() {
    let mut app = browser();
    app.move_up();
    assert_eq!(app.selected_index, 0);
    app.move_down();
    assert_eq!(app.selected_index, 1);
    app.move_down();
    app.move_down();
    assert_eq!(app.selected_index, 2);
    app.go_top();
    assert_eq!(app.selected_index, 0);
    app.go_bottom();
    assert_eq!(app.selected_index, 2);
}

#[test]
fn test_toggle_selection_adds_and_removes() {
    let mut app = browser();
    app.toggle_selection();
    assert_eq!(app.selected_entries, vec![0]);
    app.move_down();
    app.toggle_selection();
    assert_eq!(app.selected_entries, vec![0, 1]);
    app.move_up();
    app.toggle_selection();
    assert_eq!(app.selected_entries, vec![1]);
}

#[test]
fn test_enter_directory_and_parent() {
    let mut app = browser();
    assert!(app.enter_directory());
    assert_eq!(app.current_dir, "/d/docs");
    assert!(app.go_parent());
    assert_eq!(app.current_dir, "/d");
    app.load_directory(vec![entry("/d/main.rs", "main.rs", FileType::File)], None);
    assert!(!app.enter_directory());
    assert_eq!(app.current_dir, "/d");
}

#[test]
fn test_parent_path_shapes() {
    assert_eq!(parent_path("/a/b").as_deref(), Some("/a"));
    assert_eq!(parent_path("/a").as_deref(), Some("/"));
    assert_eq!(parent_path("a"), None);
}

#[test]
fn test_search_filters_case_insensitively() {
    let mut app = browser();
    app.start_search();
    app.handle_input('r');
    app.handle_input('e');
    app.handle_input('a');
    app.handle_input('d');
    assert_eq!(app.search_query, "read");
    let visible = app.visible_entries();
    assert_eq!(visible.len(), 1);
    assert_eq!(visible[0].name, "README.md");
    app.backspace_input();
    assert_eq!(app.search_query, "rea");
}

#[test]
fn test_refresh_restores_selection_by_path() {
    let mut app = browser();
    app.move_down();
    app.move_down();
    app.refresh_entries(
        vec![
            entry("/d/main.rs", "main.rs", FileType::File),
            entry("/d/README.md", "README.md", FileType::File),
        ],
        None,
    );
    assert_eq!(app.selected_index, 0);
    assert_eq!(app.entries[app.selected_index].path, "/d/main.rs");
}

#[test]
fn test_confirm_rename_plans_the_operation() {
    let mut app = browser();
    app.move_down();
    app.start_rename_mode();
    assert_eq!(app.mode, AppMode::Input(InputMode::Rename));
    assert_eq!(app.input_buffer, "README.md");
    app.input_buffer = "INTRO.md".to_string();
    match app.confirm_action() {
        Some(FileOp::Rename { from, to }) => {
            assert_eq!(from, "/d/README.md");
            assert_eq!(to, "/d/INTRO.md");
        },
        _ => panic!("expected a rename plan"),
    }
    assert_eq!(app.mode, AppMode::Normal);
    assert_eq!(app.input_buffer, "");
}

#[test]
fn test_confirm_delete_plans_selected_paths() {
    let mut app = browser();
    app.toggle_selection();
    app.move_down();
    app.toggle_selection();
    app.start_delete_mode();
    assert_eq!(app.mode, AppMode::Confirmation(ConfirmationMode::Delete));
    assert!(app.is_confirmation_mode());
    match app.confirm_action() {
        Some(FileOp::Delete(paths)) => {
            assert_eq!(paths, vec!["/d/README.md".to_string(), "/d/docs".to_string()]);
        },
        _ => panic!("expected a delete plan"),
    }
}

#[test]
fn test_confirm_new_distinguishes_directories() {
    let mut app = browser();
    app.start_new_mode();
    assert!(app.is_input_mode());
    app.input_buffer = "notes/".to_string();
    match app.confirm_action() {
        Some(FileOp::CreateDirectory(p)) => assert_eq!(p, "/d/notes/"),
        _ => panic!("expected a directory plan"),
    }
    app.start_new_mode();
    app.input_buffer = "notes.txt".to_string();
    match app.confirm_action() {
        Some(FileOp::CreateFile(p)) => assert_eq!(p, "/d/notes.txt"),
        _ => panic!("expected a file plan"),
    }
}

#[test]
fn test_confirm_copy_and_move_plans() {
    let mut app = browser();
    app.move_down();
    app.start_copy_mode();
    app.input_buffer = "README.bak".to_string();
    match app.confirm_action() {
        Some(FileOp::Copy { from, to }) => {
            assert_eq!(from, "/d/README.md");
            assert_eq!(to, "/d/README.bak");
        },
        _ => panic!("expected a copy plan"),
    }
    app.move_down();
    app.start_move_mode();
    app.input_buffer = "old/main.rs".to_string();
    match app.confirm_action() {
        Some(FileOp::Move { from, to }) => {
            assert_eq!(from, "/d/main.rs");
            assert_eq!(to, "/d/old/main.rs");
        },
        _ => panic!("expected a move plan"),
    }
}

#[test]
fn test_get_selected_paths() {
    let mut app = browser();
    let single = app.get_selected_paths().unwrap();
    assert_eq!(single, vec!["/d/docs".to_string()]);
    app.toggle_selection();
    app.move_down();
    app.toggle_selection();
    let many = app.get_selected_paths().unwrap();
    assert_eq!(many, vec!["/d/docs".to_string(), "/d/README.md".to_string()]);
    app.load_directory(Vec::new(), None);
    assert!(app.get_selected_paths().is_none());
}

#[test]
fn test_extension_is_lowercased() {
    let e = entry("/d/FILE.TXT", "FILE.TXT", FileType::File);
    assert_eq!(e.extension().as_deref(), Some("txt"));
    let none = entry("/d/.gitignore", ".gitignore", FileType::File);
    assert_eq!(none.extension(), None);
    let plain = entry("/d/Makefile", "Makefile", FileType::File);
    assert_eq!(plain.extension(), None);
}

#[test]
fn test_permission_triplets() {
    assert_eq!(triplet(0o7, 0o1, 0o2, 0o4), "rwx");
    assert_eq!(triplet(0o0, 0o1, 0o2, 0o4), "---");
    assert_eq!(format_permissions(0o777), "rwxrwxrwx");
}

#[test]
fn test_parse_status_for_browser() {
    assert_eq!(parse_status(0x0080), GitFileStatus::Added);
    assert_eq!(parse_status(0x0100), GitFileStatus::Modified);
    assert_eq!(parse_status(0x4000), GitFileStatus::Ignored);
    assert_eq!(parse_status(0), GitFileStatus::Untracked);
}

#[test]
fn test_browser_status_lookup_and_indicator() {
    let st = GitStatus {
        statuses: vec![("/w/a.rs".to_string(), GitFileStatus::Modified)],
    };
    assert_eq!(st.get_status("/w/a.rs"), Some(GitFileStatus::Modified));
    assert_eq!(st.get_status("/w/b.rs"), None);
    assert_eq!(st.get_indicator("/w/a.rs"), Some("M"));
    assert_eq!(st.get_indicator("/w/b.rs"), None);
}

#[test]
fn test_help_text_and_key_binding_format() {
    let help = KeyBindings::get_help_text();
    assert_eq!(help.len(), 18);
    assert_eq!(help[0].1, "Move down");
    assert_eq!(KeyBindings::format_key_binding("g", "Go to top"), "g            Go to top");
    assert_eq!(
        KeyBindings::format_key_binding("Space", "Select/multi-select"),
        "Space        Select/multi-select",
    );
}

#[test]
fn test_ipc_navigate_and_open() {
    let mut app = browser();
    let d = handle_ipc_message(&mut app, IpcMessage::Navigate { directory: "/e".to_string() });
    assert!(matches!(d, IpcDirective::Refresh));
    assert_eq!(app.current_dir, "/e");
    let d = handle_ipc_message(
        &mut app,
        IpcMessage::OpenFile { path: "/e/a.rs".to_string(), line: Some(3), column: None },
    );
    match d {
        IpcDirective::Open { path, line, column } => {
            assert_eq!(path, "/e/a.rs");
            assert_eq!(line, Some(3));
            assert_eq!(column, None);
        },
        _ => panic!("expected an open directive"),
    }
    let d = handle_ipc_message(
        &mut app,
        IpcMessage::WatchDirectory { path: "/e".to_string() },
    );
    assert!(matches!(d, IpcDirective::Ignore));
}

#[test]
fn test_run_json_mode_reports_start_dir() {
    assert_eq!(run_json_mode("/d"), vec!["/d".to_string()]);
}

#[test]
fn test_loop_shutdown_is_terminal() {
    let (state, action) = tick(
        LoopState::Shutdown,
        false,
        RecvOutcome::Received(WatchEvent::Created("a".to_string())),
        true,
        false,
    );
    assert_eq!(state, LoopState::Shutdown);
    assert!(matches!(action, TickAction::Halt));
    let (state, action) = tick(LoopState::Idle, true, RecvOutcome::TimedOut, true, false);
    assert_eq!(state, LoopState::Shutdown);
    assert!(matches!(action, TickAction::Halt));
    let (state, action) = tick(LoopState::Idle, false, RecvOutcome::Disconnected, true, false);
    assert_eq!(state, LoopState::Shutdown);
    assert!(matches!(action, TickAction::Halt));
}

#[test]
fn test_loop_delivers_events_and_heartbeats() {
    let ev = WatchEvent::Modified("a.txt".to_string());
    let (state, action) = tick(LoopState::Idle, false, RecvOutcome::Received(ev), true, false);
    assert_eq!(state, LoopState::Draining);
    match action {
        TickAction::Deliver { event, invalidate } => {
            assert!(invalidate);
            assert_eq!(event.path(), Some("a.txt"));
        },
        _ => panic!("expected a delivery"),
    }
    assert_eq!(delivered(state), LoopState::Idle);

    let err = WatchEvent::Error("boom".to_string());
    let (_, action) = tick(LoopState::Idle, false, RecvOutcome::Received(err), true, false);
    match action {
        TickAction::Deliver { invalidate, .. } => assert!(!invalidate),
        _ => panic!("expected a delivery"),
    }

    let (state, action) = tick(LoopState::Idle, false, RecvOutcome::TimedOut, true, true);
    assert_eq!(state, LoopState::Idle);
    assert!(matches!(action, TickAction::Heartbeat));
    let (_, action) = tick(LoopState::Idle, false, RecvOutcome::TimedOut, true, false);
    assert!(matches!(action, TickAction::Sleep));
}

#[test]
fn test_sort_entries_directories_first_then_names() {
    let sorted = sort_entries(vec![
        entry("/d/z.txt", "z.txt", FileType::File),
        entry("/d/src", "src", FileType::Directory),
        entry("/d/a.txt", "a.txt", FileType::File),
        entry("/d/bin", "bin", FileType::Directory),
    ]);
    let names: Vec<&str> = sorted.iter().map(|e| e.name.as_str()).collect();
    assert_eq!(names, vec!["bin", "src", "a.txt", "z.txt"]);
}

#[test]
fn test_sort_entries_keeps_everything() {
    let sorted = sort_entries(vec![
        entry("/d/b", "b", FileType::File),
        entry("/d/a", "a", FileType::File),
        entry("/d/a2", "a", FileType::File),
    ]);
    assert_eq!(sorted.len(), 3);
    assert_eq!(sorted[0].name, "a");
    assert_eq!(sorted[1].name, "a");
    assert_eq!(sorted[2].name, "b");
}

#[test]
fn test_entry_colors_by_kind_and_extension() {
    assert_eq!(color_name_for(FileType::Directory, None), ColorName::Blue);
    assert_eq!(color_name_for(FileType::Symlink, None), ColorName::Cyan);
    assert_eq!(color_name_for(FileType::File, Some(&"rs".to_string())), ColorName::Yellow);
    assert_eq!(color_name_for(FileType::File, Some(&"sh".to_string())), ColorName::Green);
    assert_eq!(color_name_for(FileType::File, Some(&"png".to_string())), ColorName::Magenta);
    assert_eq!(color_name_for(FileType::File, Some(&"zip".to_string())), ColorName::Red);
    assert_eq!(color_name_for(FileType::File, Some(&"odd".to_string())), ColorName::White);
    assert_eq!(color_name_for(FileType::File, None), ColorName::White);
}

#[test]
fn test_icons_are_empty_glyphs() {
    let dir = entry("/d/docs", "docs", FileType::Directory);
    let file = entry("/d/a.rs", "a.rs", FileType::File);
    assert_eq!(Icons::get_icon(&dir), "");
    assert_eq!(Icons::get_icon(&file), "");
    assert_eq!(Icons::get_file_icon(&file), "");
}
