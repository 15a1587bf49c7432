use wezterm_utils::app::App;
use wezterm_utils::app::AppMode;
use wezterm_utils::app::FileOp;
use wezterm_utils::file_entry::FileEntry;
use wezterm_utils::file_entry::FileType;
use wezterm_utils::keymap::dispatch_key;
use wezterm_utils::keymap::KeyInput;
use wezterm_utils::keymap::KeyPress;

fn entry(path: &str, name: &str, file_type: FileType) -> FileEntry {
    FileEntry {
        path: path.to_string(),
        name: name.to_string(),
        file_type,
        size: 0,
        modified: 0,
        permissions: "rw-rw-r--".to_string(),
        is_hidden: false,
    }
}

fn browser() -> App {
    App::new(
        "/d".to_string(),
        vec![
            entry("/d/docs", "docs", FileType::Directory),
            entry("/d/a.txt", "a.txt", FileType::File),
        ],
        None,
    )
}

fn plain(code: KeyPress) -> KeyInput {
    KeyInput { code, ctrl: false, shift: false }
}

#[test]
fn test_quit_keys_quit_in_any_mode() {
    let mut app = browser();
    app.start_search();
    assert!(dispatch_key(&mut app, KeyInput { code: KeyPress::Char('c'), ctrl: true, shift: false }).quit);
    assert!(dispatch_key(&mut app, plain(KeyPress::Char('q'))).quit);
    assert!(dispatch_key(&mut app, plain(KeyPress::Escape)).quit);
    assert!(!dispatch_key(&mut app, plain(KeyPress::Char('x'))).quit);
}

#[test]
fn test_movement_keys_drive_the_cursor() {
    let mut app = browser();
    let out = dispatch_key(&mut app, plain(KeyPress::Down));
    assert_eq!(app.selected_index, 1);
    assert!(!out.quit && !out.accept && !out.reload && !out.notify && out.op.is_none());
    dispatch_key(&mut app, plain(KeyPress::Char('k')));
    assert_eq!(app.selected_index, 0);
    dispatch_key(&mut app, KeyInput { code: KeyPress::Char('G'), ctrl: false, shift: true });
    assert_eq!(app.selected_index, 1);
    dispatch_key(&mut app, plain(KeyPress::Char('g')));
    assert_eq!(app.selected_index, 0);
}

#[test]
fn test_directory_keys_ask_for_reload_and_notify() {
    let mut app = browser();
    let out = dispatch_key(&mut app, plain(KeyPress::Right));
    assert_eq!(app.current_dir, "/d/docs");
    assert!(out.reload && out.notify);
    let out = dispatch_key(&mut app, plain(KeyPress::Char('h')));
    assert_eq!(app.current_dir, "/d");
    assert!(out.reload && out.notify);
}

#[test]
fn test_typing_reaches_only_input_modes() {
    let mut app = browser();
    dispatch_key(&mut app, plain(KeyPress::Char('x')));
    assert_eq!(app.input_buffer, "");
    dispatch_key(&mut app, plain(KeyPress::Char('n')));
    assert_eq!(app.mode, AppMode::Input(wezterm_utils::app::InputMode::New));
    dispatch_key(&mut app, plain(KeyPress::Char('x')));
    dispatch_key(&mut app, plain(KeyPress::Char('t')));
    assert_eq!(app.input_buffer, "xt");
    dispatch_key(&mut app, plain(KeyPress::Backspace));
    assert_eq!(app.input_buffer, "x");
}

#[test]
fn test_confirmed_delete_plans_and_reloads() {
    let mut app = browser();
    dispatch_key(&mut app, plain(KeyPress::Char('d')));
    assert!(app.is_confirmation_mode());
    let out = dispatch_key(&mut app, plain(KeyPress::Char('y')));
    assert!(out.reload);
    match out.op {
        Some(FileOp::Delete(paths)) => assert_eq!(paths, vec!["/d/docs".to_string()]),
        _ => panic!("expected a delete plan"),
    }
    assert_eq!(app.mode, AppMode::Normal);
}

#[test]
fn test_toggle_hidden_asks_for_reload() {
    let mut app = browser();
    let out = dispatch_key(&mut app, plain(KeyPress::Char('.')));
    assert!(app.show_hidden);
    assert!(out.reload && !out.notify);
}
