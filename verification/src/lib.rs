//! Filesystem change monitoring with version-control status correlation.
//!
//! The core coalesces bursts of raw filesystem notifications into logical
//! events under a debounce window, filters them through layered ignore
//! rules, and cross-references affected paths against a time-cached
//! snapshot of repository status.  A companion set of modules models the
//! interactive file browser's state machine over plain directory data.

pub mod strutil;
pub mod git;
pub mod cache;
pub mod events;
pub mod debounce;
pub mod ignore_rules;
pub mod translate;
pub mod repo;
pub mod correlate;
pub mod output;
pub mod git_status;
pub mod file_entry;
pub mod keybindings;
pub mod icons;
pub mod app;
pub mod ipc;
pub mod keymap;
pub mod listing;
