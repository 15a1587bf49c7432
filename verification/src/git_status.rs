//! The directory browser's view of repository status: one classification
//! per working-tree path, keyed by the path joined under the repository's
//! working directory.

use vstd::prelude::*;
use crate::git::STATUS_INDEX_DELETED;
use crate::git::STATUS_INDEX_MODIFIED;
use crate::git::STATUS_INDEX_NEW;
use crate::git::STATUS_INDEX_RENAMED;
use crate::git::STATUS_IGNORED;
use crate::git::STATUS_WT_DELETED;
use crate::git::STATUS_WT_MODIFIED;
use crate::git::STATUS_WT_NEW;
use crate::git::STATUS_WT_RENAMED;
use crate::git::RawStatusEntry;
use crate::repo::repo_discover;
use crate::repo::repo_status_entries;
use crate::repo::repo_workdir;
use crate::strutil::join_path;
use crate::strutil::spec_join;
use crate::strutil::str_eq;

verus! {

#[derive(Debug, Clone, Copy, PartialEq, Eq, Structural)]
pub enum GitFileStatus {
    Modified,
    Added,
    Deleted,
    Renamed,
    Untracked,
    Ignored,
}

/// The browser's classification of one raw status word: additions first,
/// whether staged or not, then modifications, deletions and renames,
/// then the ignored mark; anything else counts as untracked.
pub open spec fn spec_parse_status(bits: u32) -> GitFileStatus {
    if bits & STATUS_WT_NEW != 0 || bits & STATUS_INDEX_NEW != 0 {
        GitFileStatus::Added
    } else if bits & STATUS_WT_MODIFIED != 0 || bits & STATUS_INDEX_MODIFIED != 0 {
        GitFileStatus::Modified
    } else if bits & STATUS_WT_DELETED != 0 || bits & STATUS_INDEX_DELETED != 0 {
        GitFileStatus::Deleted
    } else if bits & STATUS_WT_RENAMED != 0 || bits & STATUS_INDEX_RENAMED != 0 {
        GitFileStatus::Renamed
    } else if bits & STATUS_IGNORED != 0 {
        GitFileStatus::Ignored
    } else {
        GitFileStatus::Untracked
    }
}

pub fn parse_status(bits: u32) -> (r: GitFileStatus)
    ensures
        r == spec_parse_status(bits),
{
    if bits & STATUS_WT_NEW != 0 || bits & STATUS_INDEX_NEW != 0 {
        GitFileStatus::Added
    } else if bits & STATUS_WT_MODIFIED != 0 || bits & STATUS_INDEX_MODIFIED != 0 {
        GitFileStatus::Modified
    } else if bits & STATUS_WT_DELETED != 0 || bits & STATUS_INDEX_DELETED != 0 {
        GitFileStatus::Deleted
    } else if bits & STATUS_WT_RENAMED != 0 || bits & STATUS_INDEX_RENAMED != 0 {
        GitFileStatus::Renamed
    } else if bits & STATUS_IGNORED != 0 {
        GitFileStatus::Ignored
    } else {
        GitFileStatus::Untracked
    }
}

/// Per-path classifications for the browser, keyed by full path.
pub struct GitStatus {
    pub statuses: Vec<(String, GitFileStatus)>,
}

/// The classified bindings a raw entry listing produces, each keyed by
/// the entry's path joined under the working directory.
pub open spec fn spec_status_bindings(workdir: Seq<char>, entries: Seq<RawStatusEntry>) -> Seq<
    (Seq<char>, GitFileStatus),
> {
    entries.map_values(
        |e: RawStatusEntry| (spec_join(workdir, e.path@), spec_parse_status(e.bits)),
    )
}

/// Classifies a raw entry listing for the browser.
pub fn status_bindings(workdir: &str, entries: Vec<RawStatusEntry>) -> (r: Vec<
    (String, GitFileStatus),
>)
    ensures
        r@.map_values(|p: (String, GitFileStatus)| (p.0@, p.1)) == spec_status_bindings(
            workdir@,
            entries@,
        ),
{
    let mut out: Vec<(String, GitFileStatus)> = Vec::new();
    let mut i: usize = 0;
    while i < entries.len()
        invariant
            i <= entries@.len(),
            out@.len() == i,
            forall|j: int|
                0 <= j < i ==> (#[trigger] out@[j]).0@ == spec_join(workdir@, entries@[j].path@)
                    && out@[j].1 == spec_parse_status(entries@[j].bits),
        decreases entries@.len() - i,
    {
        let full = join_path(workdir, entries[i].path.as_str());
        let status = parse_status(entries[i].bits);
        out.push((full, status));
        i += 1;
    }
    proof {
        assert(out@.map_values(|p: (String, GitFileStatus)| (p.0@, p.1)) =~= spec_status_bindings(
            workdir@,
            entries@,
        ));
    }
    out
}

/// The first binding for `path`, which is the only one: a fresh listing
/// binds each path once.
pub open spec fn spec_status_lookup(
    statuses: Seq<(Seq<char>, GitFileStatus)>,
    path: Seq<char>,
) -> Option<GitFileStatus>
    decreases statuses.len(),
{
    if statuses.len() == 0 {
        None
    } else if statuses[0].0 == path {
        Some(statuses[0].1)
    } else {
        spec_status_lookup(statuses.drop_first(), path)
    }
}

impl GitStatus {
    /// Reads and classifies the repository status above `path`: nothing
    /// when no repository is discoverable, when it has no readable
    /// working directory, or when the listing fails.  Untracked
    /// directories are expanded to their files.  What the listing holds
    /// depends on the repository's state on disk, but whatever came
    /// back, the recorded bindings are its classification under the
    /// working directory.
    pub fn from_repo(path: &str) -> (r: Option<GitStatus>)
        ensures
            r matches Some(st) ==> exists|workdir: Seq<char>, listing: Seq<RawStatusEntry>|
                st.statuses@.map_values(|p: (String, GitFileStatus)| (p.0@, p.1))
                    == #[trigger] spec_status_bindings(workdir, listing),
    {
        let repo = match repo_discover(path) {
            Some(r) => r,
            None => {
                return None;
            },
        };
        let workdir = match repo_workdir(&repo) {
            Some(w) => w,
            None => {
                return None;
            },
        };
        let entries = match repo_status_entries(&repo, true, true) {
            Ok(e) => e,
            Err(_) => {
                return None;
            },
        };
        let ghost wd = workdir@;
        let ghost listing = entries@;
        let statuses = status_bindings(workdir.as_str(), entries);
        proof {
            assert(statuses@.map_values(|p: (String, GitFileStatus)| (p.0@, p.1))
                == spec_status_bindings(wd, listing));
        }
        Some(GitStatus { statuses })
    }

    /// The classification recorded for `path`, if one is.
    pub fn get_status(&self, path: &str) -> (r: Option<GitFileStatus>)
        ensures
            r == spec_status_lookup(
                self.statuses@.map_values(|p: (String, GitFileStatus)| (p.0@, p.1)),
                path@,
            ),
    {
        let ghost model = self.statuses@.map_values(|p: (String, GitFileStatus)| (p.0@, p.1));
        proof {
            assert(model.subrange(0, model.len() as int) =~= model);
        }
        let mut i: usize = 0;
        while i < self.statuses.len()
            invariant
                model == self.statuses@.map_values(|p: (String, GitFileStatus)| (p.0@, p.1)),
                i <= self.statuses@.len(),
                spec_status_lookup(model, path@) == spec_status_lookup(
                    model.subrange(i as int, model.len() as int),
                    path@,
                ),
            decreases self.statuses@.len() - i,
        {
            if str_eq(self.statuses[i].0.as_str(), path) {
                proof {
                    assert(model.subrange(i as int, model.len() as int)[0] == model[i as int]);
                }
                return Some(self.statuses[i].1);
            }
            proof {
                assert(model.subrange(i as int, model.len() as int).drop_first() =~= model.subrange(
                    i as int + 1,
                    model.len() as int,
                ));
            }
            i += 1;
        }
        proof {
            assert(model.subrange(model.len() as int, model.len() as int) =~= Seq::<
                (Seq<char>, GitFileStatus),
            >::empty());
        }
        None
    }

    /// The one-character marker shown beside a path, when it has one.
    pub fn get_indicator(&self, path: &str) -> (r: Option<&'static str>)
        ensures
            match r {
                Some(s) => spec_status_lookup(
                    self.statuses@.map_values(|p: (String, GitFileStatus)| (p.0@, p.1)),
                    path@,
                ) matches Some(st) && s@ == spec_indicator(st),
                None => spec_status_lookup(
                    self.statuses@.map_values(|p: (String, GitFileStatus)| (p.0@, p.1)),
                    path@,
                ) is None,
            },
    {
        proof {
            reveal_strlit("M");
            reveal_strlit("A");
            reveal_strlit("D");
            reveal_strlit("R");
            reveal_strlit("?");
            reveal_strlit("!");
        }
        match self.get_status(path) {
            Some(status) => {
                let s = match status {
                    GitFileStatus::Modified => "M",
                    GitFileStatus::Added => "A",
                    GitFileStatus::Deleted => "D",
                    GitFileStatus::Renamed => "R",
                    GitFileStatus::Untracked => "?",
                    GitFileStatus::Ignored => "!",
                };
                proof {
                    assert(s@ =~= spec_indicator(status));
                }
                Some(s)
            },
            None => None,
        }
    }
}

/// The marker letter for each classification.
pub open spec fn spec_indicator(st: GitFileStatus) -> Seq<char> {
    match st {
        GitFileStatus::Modified => seq!['M'],
        GitFileStatus::Added => seq!['A'],
        GitFileStatus::Deleted => seq!['D'],
        GitFileStatus::Renamed => seq!['R'],
        GitFileStatus::Untracked => seq!['?'],
        GitFileStatus::Ignored => seq!['!'],
    }
}

} // verus!
