//! Messages exchanged with the companion daemon, and what the browser
//! decides when one arrives.  The transport (socket connection, JSON
//! framing) lives outside; here a received message is turned into a
//! state change plus a directive the surroundings carry out.

use vstd::prelude::*;
use crate::app::App;
use crate::app::AppMode;

verus! {

/// One message of the daemon protocol.
#[derive(Debug)]
pub enum IpcMessage {
    OpenFile { path: String, line: Option<usize>, column: Option<usize> },
    WatchDirectory { path: String },
    RefreshFile { path: String, change_type: String },
    Navigate { directory: String },
    SelectionUpdate { files: Vec<String> },
}

/// A protocol-level error reported by the daemon.
#[derive(Debug)]
pub struct JsonRpcError {
    pub code: i32,
    pub message: String,
}

/// What the surroundings must do after a message is applied.
pub enum IpcDirective {
    /// Re-read the browsed directory and refresh the listing.
    Refresh,
    /// Open the file in the editor, at the given position.
    Open { path: String, line: Option<usize>, column: Option<usize> },
    /// Nothing.
    Ignore,
}

/// Applies one received message to the browser state: a refresh request
/// asks for a re-read, a navigation moves the browsed directory and asks
/// for a re-read, an open-file request is passed through, and anything
/// else is ignored.
pub fn handle_ipc_message(app: &mut App, msg: IpcMessage) -> (r: IpcDirective)
    ensures
        msg matches IpcMessage::RefreshFile { path, change_type } ==> r is Refresh && *final(app)
            == *old(app),
        msg matches IpcMessage::Navigate { directory } ==> (r is Refresh && *final(app) == (App {
            current_dir: directory,
            ..*old(app)
        })),
        msg matches IpcMessage::OpenFile { path, line, column } ==> (*final(app) == *old(app) && (
        r matches IpcDirective::Open { path: p, line: l, column: c } && p == path && l == line && c
            == column)),
        msg matches IpcMessage::WatchDirectory { path } ==> r is Ignore && *final(app) == *old(app),
        msg matches IpcMessage::SelectionUpdate { files } ==> r is Ignore && *final(app) == *old(
            app,
        ),
{
    match msg {
        IpcMessage::RefreshFile { path, change_type } => IpcDirective::Refresh,
        IpcMessage::Navigate { directory } => {
            app.current_dir = directory;
            IpcDirective::Refresh
        },
        IpcMessage::OpenFile { path, line, column } => IpcDirective::Open { path, line, column },
        IpcMessage::WatchDirectory { path } => IpcDirective::Ignore,
        IpcMessage::SelectionUpdate { files } => IpcDirective::Ignore,
    }
}

/// The non-interactive listing mode: reports the starting directory as
/// the one selected path.
pub fn run_json_mode(start_dir: &str) -> (r: Vec<String>)
    ensures
        r@.map_values(|p: String| p@) == seq![start_dir@],
{
    let mut v: Vec<String> = Vec::new();
    v.push(String::from_str(start_dir));
    proof {
        assert(v@.map_values(|p: String| p@) =~= seq![start_dir@]);
    }
    v
}

} // verus!
