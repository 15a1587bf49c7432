//! The directory browser's state machine, over plain directory data.
//!
//! The surrounding process reads directories and performs file
//! operations; this state machine decides everything else: the cursor,
//! multi-selection, the modes (search, input, confirmation), and which
//! file operation a confirmation asks for.

use vstd::prelude::*;
use crate::file_entry::FileEntry;
use crate::file_entry::FileEntryV;
use crate::file_entry::FileType;
use crate::git_status::GitStatus;
use crate::strutil::contains_sub;
use crate::strutil::join_path;
use crate::strutil::lower_of;
use crate::strutil::lowercase;
use crate::strutil::parent_path;
use crate::strutil::pop_char;
use crate::strutil::push_char;
use crate::strutil::spec_contains;
use crate::strutil::spec_join;
use crate::strutil::spec_parent;
use crate::strutil::str_eq;

verus! {

#[derive(Debug, Clone, Copy, PartialEq, Eq, Structural)]
pub enum AppMode {
    Normal,
    Search,
    Input(InputMode),
    Confirmation(ConfirmationMode),
}

#[derive(Debug, Clone, Copy, PartialEq, Eq, Structural)]
pub enum InputMode {
    Rename,
    New,
    Copy,
    Move,
}

#[derive(Debug, Clone, Copy, PartialEq, Eq, Structural)]
pub enum ConfirmationMode {
    Delete,
}

/// A file operation the browser asks its surroundings to perform after
/// a confirmed action: the state machine only plans it.
pub enum FileOp {
    Delete(Vec<String>),
    Rename { from: String, to: String },
    CreateFile(String),
    CreateDirectory(String),
    Copy { from: String, to: String },
    Move { from: String, to: String },
}

pub struct App {
    pub current_dir: String,
    pub entries: Vec<FileEntry>,
    pub selected_index: usize,
    pub selected_entries: Vec<usize>,
    pub mode: AppMode,
    pub search_query: String,
    pub input_buffer: String,
    pub show_hidden: bool,
    pub show_preview: bool,
    pub git_status: Option<GitStatus>,
    pub scroll_offset: usize,
    pub error_message: Option<String>,
}

/// The views of the listed entries.
pub open spec fn entries_view(entries: Seq<FileEntry>) -> Seq<FileEntryV> {
    entries.map_values(|e: FileEntry| e@)
}

/// The entries shown under a filter: all of them for an empty query,
/// otherwise those whose lowercased name contains the lowercased query.
pub open spec fn spec_visible(entries: Seq<FileEntryV>, query: Seq<char>) -> Seq<FileEntryV>
    decreases entries.len(),
{
    if query.len() == 0 {
        entries
    } else if entries.len() == 0 {
        Seq::empty()
    } else {
        spec_visible(entries.drop_last(), query) + (if spec_contains(
            lower_of(entries.last().name),
            lower_of(query),
        ) {
            seq![entries.last()]
        } else {
            Seq::empty()
        })
    }
}

/// The paths a confirmed delete removes: the entries at the recorded
/// indices, visited newest selection first, out-of-range indices
/// skipped.
pub open spec fn spec_paths_at(entries: Seq<FileEntryV>, idxs: Seq<usize>) -> Seq<Seq<char>>
    decreases idxs.len(),
{
    if idxs.len() == 0 {
        Seq::empty()
    } else {
        (if idxs.last() < entries.len() {
            seq![entries[idxs.last() as int].path]
        } else {
            Seq::empty()
        }) + spec_paths_at(entries, idxs.drop_last())
    }
}

/// The paths a multi-selection names, in selection order, out-of-range
/// indices skipped.
pub open spec fn spec_paths_in_order(entries: Seq<FileEntryV>, idxs: Seq<usize>) -> Seq<Seq<char>>
    decreases idxs.len(),
{
    if idxs.len() == 0 {
        Seq::empty()
    } else {
        spec_paths_in_order(entries, idxs.drop_last()) + (if idxs.last() < entries.len() {
            seq![entries[idxs.last() as int].path]
        } else {
            Seq::empty()
        })
    }
}

impl App {
    /// The cursor names a listed entry whenever any entry is listed.
    pub open spec fn inv(self) -> bool {
        self.entries@.len() == 0 || self.selected_index < self.entries@.len()
    }

    /// A fresh browser over an already-read listing, with the cursor on
    /// the first entry.
    pub fn new(start_dir: String, entries: Vec<FileEntry>, git_status: Option<GitStatus>) -> (r:
        App)
        ensures
            r.current_dir == start_dir,
            r.entries == entries,
            r.selected_index == 0,
            r.selected_entries@ == Seq::<usize>::empty(),
            r.mode == AppMode::Normal,
            r.search_query@ == Seq::<char>::empty(),
            r.input_buffer@ == Seq::<char>::empty(),
            !r.show_hidden,
            !r.show_preview,
            r.scroll_offset == 0,
            r.error_message is None,
            r.inv(),
    {
        let r = App {
            current_dir: start_dir,
            entries,
            selected_index: 0,
            selected_entries: Vec::new(),
            mode: AppMode::Normal,
            search_query: String::new(),
            input_buffer: String::new(),
            show_hidden: false,
            show_preview: false,
            git_status,
            scroll_offset: 0,
            error_message: None,
        };
        proof {
            assert(r.selected_entries@ =~= Seq::<usize>::empty());
        }
        r
    }

    /// Installs a freshly read listing and status, resetting the cursor
    /// and scroll to the top.
    pub fn load_directory(&mut self, entries: Vec<FileEntry>, git_status: Option<GitStatus>)
        ensures
            final(self).entries == entries,
            final(self).git_status == git_status,
            final(self).selected_index == 0,
            final(self).scroll_offset == 0,
            *final(self) == (App {
                entries: entries,
                selected_index: 0,
                scroll_offset: 0,
                git_status: git_status,
                ..*old(self)
            }),
            final(self).inv(),
    {
        self.entries = entries;
        self.selected_index = 0;
        self.scroll_offset = 0;
        self.git_status = git_status;
    }

    /// Installs a freshly read listing, keeping the cursor on the entry
    /// it was on when that entry is still listed, and leaving it alone
    /// otherwise.
    pub fn refresh_entries(&mut self, entries: Vec<FileEntry>, git_status: Option<GitStatus>)
        ensures
            final(self).entries == entries,
            final(self).git_status == git_status,
            *final(self) == (App {
                entries: entries,
                selected_index: final(self).selected_index,
                git_status: git_status,
                ..*old(self)
            }),
            old(self).inv() && old(self).entries@.len() > 0 ==> {
                let previous = old(self).entries@[old(self).selected_index as int]@.path;
                if exists|i: int|
                    0 <= i < entries@.len() && entries_view(entries@)[i].path == previous {
                    final(self).selected_index < entries@.len()
                        && entries_view(entries@)[final(self).selected_index as int].path
                        == previous && forall|j: int|
                        0 <= j < final(self).selected_index ==> entries_view(entries@)[j].path
                            != previous
                } else {
                    final(self).selected_index == old(self).selected_index
                }
            },
            (old(self).entries@.len() == 0 || !old(self).inv()) ==> final(self).selected_index
                == old(self).selected_index,
    {
        let previous: Option<String> = if self.entries.len() > 0 && self.selected_index
            < self.entries.len() {
            Some(self.entries[self.selected_index].path.clone())
        } else {
            None
        };
        let mut found: Option<usize> = None;
        match &previous {
            Some(prev) => {
                let mut i: usize = 0;
                while i < entries.len()
                    invariant
                        i <= entries@.len(),
                        match found {
                            Some(f) => f < entries@.len() && entries_view(entries@)[f as int].path
                                == prev@ && forall|j: int|
                                0 <= j < f ==> entries_view(entries@)[j].path != prev@,
                            None => forall|j: int|
                                0 <= j < i ==> entries_view(entries@)[j].path != prev@,
                        },
                    decreases entries@.len() - i,
                {
                    if found.is_none() && str_eq(entries[i].path.as_str(), prev.as_str()) {
                        found = Some(i);
                    }
                    i += 1;
                }
            },
            None => {},
        }
        self.entries = entries;
        self.git_status = git_status;
        match found {
            Some(i) => {
                self.selected_index = i;
            },
            None => {},
        }
    }

    /// Moves the cursor one entry down, stopping at the last entry.
    pub fn move_down(&mut self)
        requires
            old(self).inv(),
        ensures
            old(self).entries@.len() == 0 ==> *final(self) == *old(self),
            old(self).entries@.len() > 0 ==> *final(self) == (App {
                selected_index: (if old(self).selected_index + 1 < old(self).entries@.len() {
                    (old(self).selected_index + 1) as usize
                } else {
                    (old(self).entries@.len() - 1) as usize
                }),
                ..*old(self)
            }),
            old(self).inv() ==> final(self).inv(),
    {
        if self.entries.len() == 0 {
            return ;
        }
        let next = self.selected_index + 1;
        let last = self.entries.len() - 1;
        self.selected_index = if next < last {
            next
        } else {
            last
        };
    }

    /// Moves the cursor one entry up, stopping at the first entry.
    pub fn move_up(&mut self)
        ensures
            old(self).selected_index == 0 ==> *final(self) == *old(self),
            old(self).selected_index > 0 ==> *final(self) == (App {
                selected_index: (old(self).selected_index - 1) as usize,
                ..*old(self)
            }),
            old(self).inv() ==> final(self).inv(),
    {
        if self.selected_index > 0 {
            self.selected_index = self.selected_index - 1;
        }
    }

    /// Moves the cursor and scroll to the top.
    pub fn go_top(&mut self)
        ensures
            *final(self) == (App { selected_index: 0, scroll_offset: 0, ..*old(self) }),
            final(self).inv(),
    {
        self.selected_index = 0;
        self.scroll_offset = 0;
    }

    /// Moves the cursor to the last entry, if any is listed.
    pub fn go_bottom(&mut self)
        ensures
            old(self).entries@.len() == 0 ==> *final(self) == *old(self),
            old(self).entries@.len() > 0 ==> *final(self) == (App {
                selected_index: (old(self).entries@.len() - 1) as usize,
                ..*old(self)
            }),
            final(self).inv(),
    {
        if self.entries.len() > 0 {
            self.selected_index = self.entries.len() - 1;
        }
    }

    /// Steps the browsed directory to its parent, when it has one; the
    /// surroundings then read the new listing.  Reports whether the
    /// directory changed.
    pub fn go_parent(&mut self) -> (r: bool)
        ensures
            spec_parent(old(self).current_dir@) matches Some(p) ==> r && *final(self) == (App {
                current_dir: final(self).current_dir,
                ..*old(self)
            }) && final(self).current_dir@ == p,
            spec_parent(old(self).current_dir@) is None ==> !r && *final(self) == *old(self),
    {
        match parent_path(self.current_dir.as_str()) {
            Some(parent) => {
                self.current_dir = parent;
                true
            },
            None => false,
        }
    }

    /// Steps into the entry under the cursor when it is a directory;
    /// the surroundings then read the new listing.  Reports whether the
    /// directory changed.
    pub fn enter_directory(&mut self) -> (r: bool)
        requires
            old(self).inv(),
        ensures
            old(self).entries@.len() == 0 ==> !r && *final(self) == *old(self),
            old(self).entries@.len() > 0 ==> {
                let entry = old(self).entries@[old(self).selected_index as int]@;
                if entry.file_type == FileType::Directory {
                    r && *final(self) == (App {
                        current_dir: final(self).current_dir,
                        ..*old(self)
                    }) && final(self).current_dir@ == entry.path
                } else {
                    !r && *final(self) == *old(self)
                }
            },
    {
        if self.entries.len() == 0 {
            return false;
        }
        if matches!(self.entries[self.selected_index].file_type, FileType::Directory) {
            self.current_dir = self.entries[self.selected_index].path.clone();
            proof {
                assert(self.current_dir@ == old(self).entries@[old(self).selected_index as int]@.path);
            }
            true
        } else {
            false
        }
    }

    /// Toggles the cursor's entry in the multi-selection: removes the
    /// cursor index when it is recorded, records it otherwise.
    pub fn toggle_selection(&mut self)
        ensures
            *final(self) == (App { selected_entries: final(self).selected_entries, ..*old(self) }),
            (exists|i: int|
                0 <= i < old(self).selected_entries@.len() && old(self).selected_entries@[i]
                    == old(self).selected_index) ==> {
                let at = first_index_of(old(self).selected_entries@, old(self).selected_index);
                final(self).selected_entries@ == old(self).selected_entries@.remove(at)
            },
            (forall|i: int|
                0 <= i < old(self).selected_entries@.len() ==> old(self).selected_entries@[i]
                    != old(self).selected_index) ==> final(self).selected_entries@ == old(self).selected_entries@.push(old(self).selected_index),
    {
        let n = self.selected_entries.len();
        let mut i: usize = 0;
        while i < n
            invariant
                *self == *old(self),
                n == self.selected_entries@.len(),
                i <= n,
                forall|j: int| 0 <= j < i ==> self.selected_entries@[j] != self.selected_index,
            decreases n - i,
        {
            if self.selected_entries[i] == self.selected_index {
                proof {
                    lemma_first_index(self.selected_entries@, self.selected_index, i as int);
                }
                self.selected_entries.remove(i);
                return ;
            }
            i += 1;
        }
        let idx = self.selected_index;
        self.selected_entries.push(idx);
    }

    /// Flips whether hidden entries are listed; the surroundings then
    /// read the listing again.
    pub fn toggle_hidden_files(&mut self)
        ensures
            *final(self) == (App { show_hidden: !old(self).show_hidden, ..*old(self) }),
    {
        self.show_hidden = !self.show_hidden;
    }

    pub fn toggle_preview_pane(&mut self)
        ensures
            *final(self) == (App { show_preview: !old(self).show_preview, ..*old(self) }),
    {
        self.show_preview = !self.show_preview;
    }

    /// Enters search mode with an empty query.
    pub fn start_search(&mut self)
        ensures
            *final(self) == (App {
                mode: AppMode::Search,
                search_query: final(self).search_query,
                ..*old(self)
            }),
            final(self).search_query@ == Seq::<char>::empty(),
    {
        self.mode = AppMode::Search;
        self.search_query = String::new();
    }

    /// Asks to confirm a delete, when anything is listed to delete.
    pub fn start_delete_mode(&mut self)
        ensures
            old(self).entries@.len() == 0 ==> *final(self) == *old(self),
            old(self).entries@.len() > 0 ==> *final(self) == (App {
                mode: AppMode::Confirmation(ConfirmationMode::Delete),
                ..*old(self)
            }),
    {
        if self.entries.len() > 0 {
            self.mode = AppMode::Confirmation(ConfirmationMode::Delete);
        }
    }

    /// Enters rename input, seeded with the cursor entry's name.
    pub fn start_rename_mode(&mut self)
        requires
            old(self).inv(),
        ensures
            old(self).entries@.len() == 0 ==> *final(self) == *old(self),
            old(self).entries@.len() > 0 ==> *final(self) == (App {
                mode: AppMode::Input(InputMode::Rename),
                input_buffer: final(self).input_buffer,
                ..*old(self)
            }) && final(self).input_buffer@ == old(self).entries@[old(self).selected_index as int]@.name,
    {
        if self.entries.len() > 0 {
            self.mode = AppMode::Input(InputMode::Rename);
            self.input_buffer = self.entries[self.selected_index].name.clone();
        }
    }

    /// Enters copy input with an empty destination.
    pub fn start_copy_mode(&mut self)
        ensures
            old(self).entries@.len() == 0 ==> *final(self) == *old(self),
            old(self).entries@.len() > 0 ==> *final(self) == (App {
                mode: AppMode::Input(InputMode::Copy),
                input_buffer: final(self).input_buffer,
                ..*old(self)
            }) && final(self).input_buffer@ == Seq::<char>::empty(),
    {
        if self.entries.len() > 0 {
            self.mode = AppMode::Input(InputMode::Copy);
            self.input_buffer = String::new();
        }
    }

    /// Enters move input with an empty destination.
    pub fn start_move_mode(&mut self)
        ensures
            old(self).entries@.len() == 0 ==> *final(self) == *old(self),
            old(self).entries@.len() > 0 ==> *final(self) == (App {
                mode: AppMode::Input(InputMode::Move),
                input_buffer: final(self).input_buffer,
                ..*old(self)
            }) && final(self).input_buffer@ == Seq::<char>::empty(),
    {
        if self.entries.len() > 0 {
            self.mode = AppMode::Input(InputMode::Move);
            self.input_buffer = String::new();
        }
    }

    /// Enters new-entry input with an empty name.
    pub fn start_new_mode(&mut self)
        ensures
            *final(self) == (App {
                mode: AppMode::Input(InputMode::New),
                input_buffer: final(self).input_buffer,
                ..*old(self)
            }),
            final(self).input_buffer@ == Seq::<char>::empty(),
    {
        self.mode = AppMode::Input(InputMode::New);
        self.input_buffer = String::new();
    }

    pub fn is_confirmation_mode(&self) -> (r: bool)
        ensures
            r == (self.mode matches AppMode::Confirmation(_)),
    {
        matches!(self.mode, AppMode::Confirmation(_))
    }

    pub fn is_input_mode(&self) -> (r: bool)
        ensures
            r == (self.mode matches AppMode::Input(_)),
    {
        matches!(self.mode, AppMode::Input(_))
    }

    /// Appends one typed character to the query in search mode, or to
    /// the input buffer in an input mode; anything else ignores it.
    pub fn handle_input(&mut self, c: char)
        ensures
            old(self).mode is Search ==> *final(self) == (App {
                search_query: final(self).search_query,
                ..*old(self)
            }) && final(self).search_query@ == old(self).search_query@.push(c),
            (old(self).mode matches AppMode::Input(_)) ==> *final(self) == (App {
                input_buffer: final(self).input_buffer,
                ..*old(self)
            }) && final(self).input_buffer@ == old(self).input_buffer@.push(c),
            !(old(self).mode is Search) && !(old(self).mode matches AppMode::Input(_)) ==> *final(self) == *old(self),
    {
        if matches!(self.mode, AppMode::Search) {
            push_char(&mut self.search_query, c);
        } else if matches!(self.mode, AppMode::Input(_)) {
            push_char(&mut self.input_buffer, c);
        }
    }

    /// Removes the last typed character, as `handle_input` added it.
    pub fn backspace_input(&mut self)
        ensures
            old(self).mode is Search ==> *final(self) == (App {
                search_query: final(self).search_query,
                ..*old(self)
            }) && final(self).search_query@ == (if old(self).search_query@.len() > 0 {
                old(self).search_query@.drop_last()
            } else {
                old(self).search_query@
            }),
            (old(self).mode matches AppMode::Input(_)) ==> *final(self) == (App {
                input_buffer: final(self).input_buffer,
                ..*old(self)
            }) && final(self).input_buffer@ == (if old(self).input_buffer@.len() > 0 {
                old(self).input_buffer@.drop_last()
            } else {
                old(self).input_buffer@
            }),
            !(old(self).mode is Search) && !(old(self).mode matches AppMode::Input(_)) ==> *final(self) == *old(self),
    {
        if matches!(self.mode, AppMode::Search) {
            let _ = pop_char(&mut self.search_query);
        } else if matches!(self.mode, AppMode::Input(_)) {
            let _ = pop_char(&mut self.input_buffer);
        }
    }

    /// Confirms the pending action: plans the file operation the
    /// current mode asks for (nothing in the other modes), then returns
    /// to the normal mode with a cleared input buffer.  The
    /// surroundings perform the operation and re-read the listing.
    pub fn confirm_action(&mut self) -> (r: Option<FileOp>)
        requires
            old(self).inv(),
            old(self).mode == AppMode::Input(InputMode::Rename) && old(self).entries@.len() > 0
                && old(self).input_buffer@.len() > 0 ==> spec_parent(
                old(self).entries@[old(self).selected_index as int]@.path,
            ) is Some,
        ensures
            *final(self) == (App {
                mode: AppMode::Normal,
                input_buffer: final(self).input_buffer,
                ..*old(self)
            }),
            final(self).input_buffer@ == Seq::<char>::empty(),
            ({
                let entries = entries_view(old(self).entries@);
                let sel = old(self).selected_index as int;
                let buf = old(self).input_buffer@;
                match old(self).mode {
                    AppMode::Confirmation(ConfirmationMode::Delete) => r matches Some(op) && (
                    op matches FileOp::Delete(paths) && paths@.map_values(|p: String| p@)
                        == spec_paths_at(
                        entries,
                        if old(self).selected_entries@.len() == 0 {
                            seq![old(self).selected_index]
                        } else {
                            old(self).selected_entries@
                        },
                    )),
                    AppMode::Input(InputMode::Rename) => {
                        if entries.len() > 0 && buf.len() > 0 {
                            r matches Some(op) && (op matches FileOp::Rename { from, to } && from@
                                == entries[sel].path && to@ == spec_join(
                                spec_parent(entries[sel].path).unwrap(),
                                buf,
                            ))
                        } else {
                            r is None
                        }
                    },
                    AppMode::Input(InputMode::New) => {
                        if buf.len() > 0 {
                            r matches Some(op) && (if buf.last() == '/' {
                                op matches FileOp::CreateDirectory(p) && p@ == spec_join(
                                    old(self).current_dir@,
                                    buf,
                                )
                            } else {
                                op matches FileOp::CreateFile(p) && p@ == spec_join(
                                    old(self).current_dir@,
                                    buf,
                                )
                            })
                        } else {
                            r is None
                        }
                    },
                    AppMode::Input(InputMode::Copy) => {
                        if entries.len() > 0 && buf.len() > 0 {
                            r matches Some(op) && (op matches FileOp::Copy { from, to } && from@
                                == entries[sel].path && to@ == spec_join(
                                old(self).current_dir@,
                                buf,
                            ))
                        } else {
                            r is None
                        }
                    },
                    AppMode::Input(InputMode::Move) => {
                        if entries.len() > 0 && buf.len() > 0 {
                            r matches Some(op) && (op matches FileOp::Move { from, to } && from@
                                == entries[sel].path && to@ == spec_join(
                                old(self).current_dir@,
                                buf,
                            ))
                        } else {
                            r is None
                        }
                    },
                    _ => r is None,
                }
            }),
    {
        let op: Option<FileOp> = match self.mode {
            AppMode::Confirmation(ConfirmationMode::Delete) => Some(
                FileOp::Delete(self.delete_paths()),
            ),
            AppMode::Input(InputMode::Rename) => {
                if self.entries.len() > 0 && self.input_buffer.as_str().unicode_len() > 0 {
                    let from = self.entries[self.selected_index].path.clone();
                    let parent = parent_path(from.as_str());
                    match parent {
                        Some(parent) => {
                            let to = join_path(parent.as_str(), self.input_buffer.as_str());
                            Some(FileOp::Rename { from, to })
                        },
                        None => {
                            proof {
                                assert(false);
                            }
                            None
                        },
                    }
                } else {
                    None
                }
            },
            AppMode::Input(InputMode::New) => {
                if self.input_buffer.as_str().unicode_len() > 0 {
                    let path = join_path(self.current_dir.as_str(), self.input_buffer.as_str());
                    let len = self.input_buffer.as_str().unicode_len();
                    if self.input_buffer.as_str().get_char(len - 1) == '/' {
                        Some(FileOp::CreateDirectory(path))
                    } else {
                        Some(FileOp::CreateFile(path))
                    }
                } else {
                    None
                }
            },
            AppMode::Input(InputMode::Copy) => {
                if self.entries.len() > 0 && self.input_buffer.as_str().unicode_len() > 0 {
                    let from = self.entries[self.selected_index].path.clone();
                    let to = join_path(self.current_dir.as_str(), self.input_buffer.as_str());
                    Some(FileOp::Copy { from, to })
                } else {
                    None
                }
            },
            AppMode::Input(InputMode::Move) => {
                if self.entries.len() > 0 && self.input_buffer.as_str().unicode_len() > 0 {
                    let from = self.entries[self.selected_index].path.clone();
                    let to = join_path(self.current_dir.as_str(), self.input_buffer.as_str());
                    Some(FileOp::Move { from, to })
                } else {
                    None
                }
            },
            _ => None,
        };
        self.mode = AppMode::Normal;
        self.input_buffer = String::new();
        op
    }

    /// The paths a confirmed delete removes: the multi-selection when
    /// one exists, the cursor's entry otherwise, visited newest first.
    fn delete_paths(&self) -> (r: Vec<String>)
        requires
            self.inv(),
        ensures
            r@.map_values(|p: String| p@) == spec_paths_at(
                entries_view(self.entries@),
                if self.selected_entries@.len() == 0 {
                    seq![self.selected_index]
                } else {
                    self.selected_entries@
                },
            ),
    {
        let ghost idxs: Seq<usize> = if self.selected_entries@.len() == 0 {
            seq![self.selected_index]
        } else {
            self.selected_entries@
        };
        let mut out: Vec<String> = Vec::new();
        if self.selected_entries.len() == 0 {
            if self.entries.len() > 0 {
                out.push(self.entries[self.selected_index].path.clone());
            }
            proof {
                assert(idxs.drop_last() =~= Seq::<usize>::empty());
                assert(spec_paths_at(entries_view(self.entries@), Seq::<usize>::empty()) =~= Seq::<
                    Seq<char>,
                >::empty());
                assert(out@.map_values(|p: String| p@) =~= spec_paths_at(
                    entries_view(self.entries@),
                    idxs,
                ));
            }
            return out;
        }
        let mut k: usize = self.selected_entries.len();
        while k > 0
            invariant
                idxs == self.selected_entries@,
                k <= idxs.len(),
                out@.map_values(|p: String| p@) == spec_suffix_paths(
                    entries_view(self.entries@),
                    idxs,
                    k as int,
                ),
            decreases k,
        {
            k -= 1;
            let idx = self.selected_entries[k];
            if idx < self.entries.len() {
                out.push(self.entries[idx].path.clone());
            }
            proof {
                assert(out@.map_values(|p: String| p@) =~= spec_suffix_paths(
                    entries_view(self.entries@),
                    idxs,
                    k as int,
                ));
            }
        }
        proof {
            lemma_suffix_paths_full(entries_view(self.entries@), idxs);
        }
        out
    }

    /// The paths the current selection names: the cursor's entry when no
    /// multi-selection exists, otherwise the recorded entries in
    /// selection order; nothing when the listing is empty.
    pub fn get_selected_paths(&self) -> (r: Option<Vec<String>>)
        requires
            self.inv(),
        ensures
            self.entries@.len() == 0 ==> r is None,
            self.entries@.len() > 0 && self.selected_entries@.len() == 0 ==> (r matches Some(v)
                && v@.map_values(|p: String| p@) == seq![
                    entries_view(self.entries@)[self.selected_index as int].path,
                ]),
            self.entries@.len() > 0 && self.selected_entries@.len() > 0 ==> (r matches Some(v)
                && v@.map_values(|p: String| p@) == spec_paths_in_order(
                entries_view(self.entries@),
                self.selected_entries@,
            )),
    {
        if self.entries.len() == 0 {
            return None;
        }
        if self.selected_entries.len() == 0 {
            let mut v: Vec<String> = Vec::new();
            v.push(self.entries[self.selected_index].path.clone());
            proof {
                assert(v@.map_values(|p: String| p@) =~= seq![
                    entries_view(self.entries@)[self.selected_index as int].path,
                ]);
            }
            return Some(v);
        }
        let mut v: Vec<String> = Vec::new();
        let mut i: usize = 0;
        while i < self.selected_entries.len()
            invariant
                i <= self.selected_entries@.len(),
                v@.map_values(|p: String| p@) =~= spec_paths_in_order(
                    entries_view(self.entries@),
                    self.selected_entries@.subrange(0, i as int),
                ),
            decreases self.selected_entries@.len() - i,
        {
            let idx = self.selected_entries[i];
            if idx < self.entries.len() {
                v.push(self.entries[idx].path.clone());
            }
            i += 1;
            proof {
                let pre = self.selected_entries@.subrange(0, i as int - 1);
                assert(self.selected_entries@.subrange(0, i as int) =~= pre.push(
                    self.selected_entries@[i - 1],
                ));
                lemma_paths_in_order_push(
                    entries_view(self.entries@),
                    pre,
                    self.selected_entries@[i - 1],
                );
                assert(v@.map_values(|p: String| p@) =~= spec_paths_in_order(
                    entries_view(self.entries@),
                    self.selected_entries@.subrange(0, i as int),
                ));
            }
        }
        proof {
            assert(self.selected_entries@.subrange(0, self.selected_entries@.len() as int)
                =~= self.selected_entries@);
        }
        Some(v)
    }

    /// Nothing to do between ticks; the listing is re-read only on
    /// demand.
    pub fn update(&mut self)
        ensures
            *final(self) == *old(self),
    {
    }

    /// The entries the current search shows: all of them for an empty
    /// query, otherwise those whose lowercased name contains the
    /// lowercased query.
    pub fn visible_entries(&self) -> (r: Vec<&FileEntry>)
        ensures
            r@.map_values(|e: &FileEntry| e@) == spec_visible(
                entries_view(self.entries@),
                self.search_query@,
            ),
    {
        let mut r: Vec<&FileEntry> = Vec::new();
        if self.search_query.as_str().unicode_len() == 0 {
            let mut i: usize = 0;
            while i < self.entries.len()
                invariant
                    self.search_query@.len() == 0,
                    i <= self.entries@.len(),
                    r@.len() == i,
                    forall|j: int| 0 <= j < i ==> (#[trigger] r@[j])@ == self.entries@[j]@,
                decreases self.entries@.len() - i,
            {
                r.push(&self.entries[i]);
                i += 1;
            }
            proof {
                assert(r@.map_values(|e: &FileEntry| e@) =~= spec_visible(
                    entries_view(self.entries@),
                    self.search_query@,
                ));
            }
            return r;
        }
        let needle = lowercase(self.search_query.as_str());
        let mut i: usize = 0;
        while i < self.entries.len()
            invariant
                self.search_query@.len() > 0,
                needle@ == lower_of(self.search_query@),
                i <= self.entries@.len(),
                r@.map_values(|e: &FileEntry| e@) =~= spec_visible(
                    entries_view(self.entries@).subrange(0, i as int),
                    self.search_query@,
                ),
            decreases self.entries@.len() - i,
        {
            let ghost pre = entries_view(self.entries@).subrange(0, i as int);
            let name_low = lowercase(self.entries[i].name.as_str());
            if contains_sub(name_low.as_str(), needle.as_str()) {
                r.push(&self.entries[i]);
            }
            i += 1;
            proof {
                assert(entries_view(self.entries@).subrange(0, i as int) =~= pre.push(
                    entries_view(self.entries@)[i - 1],
                ));
                lemma_visible_push(pre, entries_view(self.entries@)[i - 1], self.search_query@);
                assert(r@.map_values(|e: &FileEntry| e@) =~= spec_visible(
                    entries_view(self.entries@).subrange(0, i as int),
                    self.search_query@,
                ));
            }
        }
        proof {
            assert(entries_view(self.entries@).subrange(0, entries_view(self.entries@).len() as int)
                =~= entries_view(self.entries@));
        }
        r
    }

    /// The entry under the cursor, when the cursor is on one.
    pub fn current_entry(&self) -> (r: Option<&FileEntry>)
        ensures
            self.selected_index < self.entries@.len() ==> (r matches Some(e) && e@
                == self.entries@[self.selected_index as int]@),
            self.selected_index >= self.entries@.len() ==> r is None,
    {
        if self.selected_index < self.entries.len() {
            Some(&self.entries[self.selected_index])
        } else {
            None
        }
    }
}

/// The paths at the index suffix `idxs[from..]`, visited last first.
pub open spec fn spec_suffix_paths(entries: Seq<FileEntryV>, idxs: Seq<usize>, from: int) -> Seq<
    Seq<char>,
>
    decreases idxs.len() - from,
{
    if from < 0 || from >= idxs.len() {
        Seq::empty()
    } else {
        spec_suffix_paths(entries, idxs, from + 1) + (if idxs[from] < entries.len() {
            seq![entries[idxs[from] as int].path]
        } else {
            Seq::empty()
        })
    }
}

proof fn lemma_suffix_paths_full(entries: Seq<FileEntryV>, idxs: Seq<usize>)
    ensures
        spec_suffix_paths(entries, idxs, 0) == spec_paths_at(entries, idxs),
{
    lemma_suffix_paths_eq(entries, idxs, 0);
    assert(idxs.subrange(0, idxs.len() as int) =~= idxs);
}

proof fn lemma_suffix_paths_eq(entries: Seq<FileEntryV>, idxs: Seq<usize>, from: int)
    requires
        0 <= from <= idxs.len(),
    ensures
        spec_suffix_paths(entries, idxs, from) == spec_paths_at(
            entries,
            idxs.subrange(from, idxs.len() as int),
        ),
    decreases idxs.len() - from,
{
    let tail = idxs.subrange(from, idxs.len() as int);
    if from == idxs.len() {
        assert(tail =~= Seq::<usize>::empty());
    } else {
        lemma_suffix_paths_eq(entries, idxs, from + 1);
        assert(tail.drop_first() =~= idxs.subrange(from + 1, idxs.len() as int));
        lemma_paths_at_first(entries, tail);
    }
}

proof fn lemma_paths_at_first(entries: Seq<FileEntryV>, idxs: Seq<usize>)
    requires
        idxs.len() > 0,
    ensures
        spec_paths_at(entries, idxs) == spec_paths_at(entries, idxs.drop_first()) + (if idxs[0]
            < entries.len() {
            seq![entries[idxs[0] as int].path]
        } else {
            Seq::<Seq<char>>::empty()
        }),
    decreases idxs.len(),
{
    if idxs.len() == 1 {
        assert(idxs.drop_first() =~= Seq::<usize>::empty());
        assert(idxs.drop_last() =~= Seq::<usize>::empty());
        assert(spec_paths_at(entries, Seq::<usize>::empty()) =~= Seq::<Seq<char>>::empty());
        assert(spec_paths_at(entries, idxs) =~= spec_paths_at(entries, idxs.drop_first()) + (
        if idxs[0] < entries.len() {
            seq![entries[idxs[0] as int].path]
        } else {
            Seq::<Seq<char>>::empty()
        }));
    } else {
        lemma_paths_at_first(entries, idxs.drop_last());
        assert(idxs.drop_last().drop_first() =~= idxs.drop_first().drop_last());
        assert(idxs.drop_first().last() == idxs.last());
        assert(idxs.drop_last()[0] == idxs[0]);
        assert(spec_paths_at(entries, idxs) =~= spec_paths_at(entries, idxs.drop_first()) + (
        if idxs[0] < entries.len() {
            seq![entries[idxs[0] as int].path]
        } else {
            Seq::<Seq<char>>::empty()
        }));
    }
}

proof fn lemma_paths_in_order_push(entries: Seq<FileEntryV>, idxs: Seq<usize>, idx: usize)
    ensures
        spec_paths_in_order(entries, idxs.push(idx)) == spec_paths_in_order(entries, idxs) + (
        if idx < entries.len() {
            seq![entries[idx as int].path]
        } else {
            Seq::<Seq<char>>::empty()
        }),
{
    assert(idxs.push(idx).drop_last() =~= idxs);
    assert(idxs.push(idx).last() == idx);
}

proof fn lemma_visible_push(entries: Seq<FileEntryV>, e: FileEntryV, query: Seq<char>)
    requires
        query.len() > 0,
    ensures
        spec_visible(entries.push(e), query) == spec_visible(entries, query) + (if spec_contains(
            lower_of(e.name),
            lower_of(query),
        ) {
            seq![e]
        } else {
            Seq::<FileEntryV>::empty()
        }),
{
    assert(entries.push(e).drop_last() =~= entries);
    assert(entries.push(e).last() == e);
}

/// The first position of `x` in `s`, assuming one exists.
pub open spec fn first_index_of(s: Seq<usize>, x: usize) -> int {
    choose|i: int| 0 <= i < s.len() && s[i] == x && (forall|j: int| 0 <= j < i ==> s[j] != x)
}

proof fn lemma_first_index(s: Seq<usize>, x: usize, i: int)
    requires
        0 <= i < s.len(),
        s[i] == x,
        forall|j: int| 0 <= j < i ==> s[j] != x,
    ensures
        first_index_of(s, x) == i,
{
    assert(0 <= i < s.len() && s[i] == x && (forall|j: int| 0 <= j < i ==> s[j] != x));
    let w = first_index_of(s, x);
    if w < i {
        assert(s[w] != x);
    } else if w > i {
        assert(s[i] != x);
    }
}

} // verus!
