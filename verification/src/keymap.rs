//! The browser's key dispatch: what one key press does to the state
//! machine, and what the surrounding loop must do afterwards.
//!
//! The arms are tried in a fixed order, so a quit key quits even while
//! typing, and the movement letters move the cursor rather than insert
//! themselves; only characters that reach the fall-through arm are
//! typed into the active input.

use vstd::prelude::*;
use crate::app::App;
use crate::app::AppMode;
use crate::app::FileOp;
use crate::strutil::spec_parent;

verus! {

/// One decoded key press.
#[derive(Clone, Copy, Debug, PartialEq, Eq, Structural)]
pub enum KeyPress {
    Char(char),
    Up,
    Down,
    Left,
    Right,
    Enter,
    Escape,
    Tab,
    Backspace,
    Other,
}

/// A key press with its modifiers.
#[derive(Clone, Copy, Debug, PartialEq, Eq, Structural)]
pub struct KeyInput {
    pub code: KeyPress,
    pub ctrl: bool,
    pub shift: bool,
}

/// What the loop around the browser must do after a key is applied.
pub struct KeyOutcome {
    /// Leave the browser, returning no selection.
    pub quit: bool,
    /// Leave the browser, returning the current selection.
    pub accept: bool,
    /// Re-read the browsed directory into a fresh listing.
    pub reload: bool,
    /// Tell the companion daemon which directory is browsed now.
    pub notify: bool,
    /// Perform this file operation, then re-read the listing.
    pub op: Option<FileOp>,
}

impl KeyOutcome {
    /// Nothing left for the loop to do.
    pub open spec fn is_plain(self) -> bool {
        !self.quit && !self.accept && !self.reload && !self.notify && self.op is None
    }

    fn plain() -> (r: KeyOutcome)
        ensures
            r.is_plain(),
    {
        KeyOutcome { quit: false, accept: false, reload: false, notify: false, op: None }
    }
}

/// Which keys quit outright, in every mode.
pub open spec fn spec_is_quit_key(key: KeyInput) -> bool {
    ||| (key.ctrl && key.code == KeyPress::Char('c'))
    ||| key.code == KeyPress::Char('q')
    ||| key.code == KeyPress::Escape
}

/// Which keys the dispatch claims before the typing fall-through.
pub open spec fn spec_is_claimed_char(c: char) -> bool {
    c == 'q' || c == 'j' || c == 'k' || c == 'h' || c == 'l' || c == 'g' || c == '/' || c == ' '
        || c == '.' || c == 'd' || c == 'r' || c == 'c' || c == 'm' || c == 'n' || c == 'y'
}

/// Applies one key press to the browser.  Movement, mode and selection
/// keys drive the state machine directly; the returned outcome tells
/// the loop what input or output work is left.  Arms are tried in
/// order, so the claimed letters never reach the typing fall-through.
pub fn dispatch_key(app: &mut App, key: KeyInput) -> (r: KeyOutcome)
    requires
        old(app).inv(),
    ensures
        spec_is_quit_key(key) ==> r.quit && *final(app) == *old(app),
        !spec_is_quit_key(key) ==> !r.quit,
        key.code == KeyPress::Enter ==> r.accept && *final(app) == *old(app),
        ({
            let moved = key == (KeyInput { code: KeyPress::Char('h'), ctrl: false, shift: false })
                || key.code == KeyPress::Left;
            moved && !spec_is_quit_key(key) ==> r.notify && (r.reload <==> spec_parent(
                old(app).current_dir@,
            ) is Some)
        }),
        key == (KeyInput { code: KeyPress::Char('y'), ctrl: false, shift: false }) ==> (if old(
            app,
        ).mode matches AppMode::Confirmation(_) {
            final(app).mode == AppMode::Normal && (r.reload <==> r.op is Some)
        } else {
            *final(app) == *old(app) && r.is_plain()
        }),
        key.code matches KeyPress::Char(c) ==> ((!key.ctrl && !spec_is_claimed_char(c) && !(c
            == 'G' && key.shift)) ==> (r.is_plain() && (if old(app).mode matches AppMode::Input(
            _,
        ) {
            final(app).input_buffer@ == old(app).input_buffer@.push(c)
        } else {
            *final(app) == *old(app)
        }))),
        final(app).inv(),
{
    if key.ctrl && matches!(key.code, KeyPress::Char('c')) {
        return KeyOutcome { quit: true, accept: false, reload: false, notify: false, op: None };
    }
    match key.code {
        KeyPress::Char('q') => {
            return KeyOutcome {
                quit: true,
                accept: false,
                reload: false,
                notify: false,
                op: None,
            };
        },
        KeyPress::Escape => {
            return KeyOutcome {
                quit: true,
                accept: false,
                reload: false,
                notify: false,
                op: None,
            };
        },
        KeyPress::Enter => {
            return KeyOutcome {
                quit: false,
                accept: true,
                reload: false,
                notify: false,
                op: None,
            };
        },
        _ => {},
    }
    if matches!(key.code, KeyPress::Char('j')) || matches!(key.code, KeyPress::Down) {
        app.move_down();
        return KeyOutcome::plain();
    }
    if matches!(key.code, KeyPress::Char('k')) || matches!(key.code, KeyPress::Up) {
        app.move_up();
        return KeyOutcome::plain();
    }
    if matches!(key.code, KeyPress::Char('h')) || matches!(key.code, KeyPress::Left) {
        let changed = app.go_parent();
        return KeyOutcome { quit: false, accept: false, reload: changed, notify: true, op: None };
    }
    if matches!(key.code, KeyPress::Char('l')) || matches!(key.code, KeyPress::Right) {
        let changed = app.enter_directory();
        return KeyOutcome { quit: false, accept: false, reload: changed, notify: true, op: None };
    }
    if matches!(key.code, KeyPress::Char('g')) {
        app.go_top();
        return KeyOutcome::plain();
    }
    if matches!(key.code, KeyPress::Char('G')) && key.shift {
        app.go_bottom();
        return KeyOutcome::plain();
    }
    if matches!(key.code, KeyPress::Char('/')) {
        app.start_search();
        return KeyOutcome::plain();
    }
    if matches!(key.code, KeyPress::Char(' ')) {
        app.toggle_selection();
        return KeyOutcome::plain();
    }
    if matches!(key.code, KeyPress::Char('.')) {
        app.toggle_hidden_files();
        return KeyOutcome { quit: false, accept: false, reload: true, notify: false, op: None };
    }
    if matches!(key.code, KeyPress::Tab) {
        app.toggle_preview_pane();
        return KeyOutcome::plain();
    }
    if matches!(key.code, KeyPress::Char('d')) {
        app.start_delete_mode();
        return KeyOutcome::plain();
    }
    if matches!(key.code, KeyPress::Char('r')) {
        app.start_rename_mode();
        return KeyOutcome::plain();
    }
    if matches!(key.code, KeyPress::Char('c')) {
        app.start_copy_mode();
        return KeyOutcome::plain();
    }
    if matches!(key.code, KeyPress::Char('m')) {
        app.start_move_mode();
        return KeyOutcome::plain();
    }
    if matches!(key.code, KeyPress::Char('n')) {
        app.start_new_mode();
        return KeyOutcome::plain();
    }
    if matches!(key.code, KeyPress::Char('y')) {
        if app.is_confirmation_mode() {
            let op = app.confirm_action();
            let reload = op.is_some();
            return KeyOutcome { quit: false, accept: false, reload, notify: false, op };
        }
        return KeyOutcome::plain();
    }
    match key.code {
        KeyPress::Char(c) => {
            if app.is_input_mode() {
                app.handle_input(c);
            }
            KeyOutcome::plain()
        },
        KeyPress::Backspace => {
            if app.is_input_mode() {
                app.backspace_input();
            }
            KeyOutcome::plain()
        },
        _ => KeyOutcome::plain(),
    }
}

} // verus!
