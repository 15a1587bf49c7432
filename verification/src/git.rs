//! Per-path repository status classification and the snapshot value the
//! watcher correlates events against.
//!
//! A snapshot is computed in one pass over the raw per-entry status bits
//! reported by the repository backend; each entry is classified by strict
//! precedence: conflicted, then staged, then untracked, then working-tree
//! modified, then working-tree deleted, then renamed.

use vstd::prelude::*;
use crate::strutil::spec_strip_prefix;
use crate::strutil::strip_prefix;
use crate::strutil::str_eq;

verus! {

// Raw per-entry status bits, as libgit2's `git_status_t` defines them.
pub const STATUS_INDEX_NEW: u32 = 0x0001;
pub const STATUS_INDEX_MODIFIED: u32 = 0x0002;
pub const STATUS_INDEX_DELETED: u32 = 0x0004;
pub const STATUS_INDEX_RENAMED: u32 = 0x0008;
pub const STATUS_WT_NEW: u32 = 0x0080;
pub const STATUS_WT_MODIFIED: u32 = 0x0100;
pub const STATUS_WT_DELETED: u32 = 0x0200;
pub const STATUS_WT_RENAMED: u32 = 0x0800;
pub const STATUS_IGNORED: u32 = 0x4000;
pub const STATUS_CONFLICTED: u32 = 0x8000;

#[derive(Clone, Copy, Debug, PartialEq, Eq, Structural)]
pub enum FileStatus {
    Modified,
    Added,
    Deleted,
    Renamed,
    Untracked,
    Conflicted,
    Staged,
    Unknown,
}

impl FileStatus {
    pub open spec fn spec_short_str(self) -> Seq<char> {
        match self {
            FileStatus::Modified => seq!['M'],
            FileStatus::Added => seq!['A'],
            FileStatus::Deleted => seq!['D'],
            FileStatus::Renamed => seq!['R'],
            FileStatus::Untracked => seq!['?'],
            FileStatus::Conflicted => seq!['U'],
            FileStatus::Staged => seq!['S'],
            FileStatus::Unknown => seq![' '],
        }
    }

    pub fn to_short_str(&self) -> (r: &str)
        ensures
            r@ == self.spec_short_str(),
    {
        proof {
            reveal_strlit("M");
            reveal_strlit("A");
            reveal_strlit("D");
            reveal_strlit("R");
            reveal_strlit("?");
            reveal_strlit("U");
            reveal_strlit("S");
            reveal_strlit(" ");
        }
        let r = match self {
            FileStatus::Modified => "M",
            FileStatus::Added => "A",
            FileStatus::Deleted => "D",
            FileStatus::Renamed => "R",
            FileStatus::Untracked => "?",
            FileStatus::Conflicted => "U",
            FileStatus::Staged => "S",
            FileStatus::Unknown => " ",
        };
        proof {
            assert(r@ =~= self.spec_short_str());
        }
        r
    }
}

/// Classification of one raw status word, by strict precedence.
pub open spec fn spec_classify(bits: u32) -> FileStatus {
    if bits & STATUS_CONFLICTED != 0 {
        FileStatus::Conflicted
    } else if bits & STATUS_INDEX_NEW != 0 || bits & STATUS_INDEX_MODIFIED != 0 || bits
        & STATUS_INDEX_DELETED != 0 {
        FileStatus::Staged
    } else if bits & STATUS_WT_NEW != 0 {
        FileStatus::Untracked
    } else if bits & STATUS_WT_MODIFIED != 0 {
        FileStatus::Modified
    } else if bits & STATUS_WT_DELETED != 0 {
        FileStatus::Deleted
    } else if bits & STATUS_WT_RENAMED != 0 || bits & STATUS_INDEX_RENAMED != 0 {
        FileStatus::Renamed
    } else {
        FileStatus::Unknown
    }
}

pub fn classify_status_bits(bits: u32) -> (r: FileStatus)
    ensures
        r == spec_classify(bits),
{
    if bits & STATUS_CONFLICTED != 0 {
        FileStatus::Conflicted
    } else if bits & STATUS_INDEX_NEW != 0 || bits & STATUS_INDEX_MODIFIED != 0 || bits
        & STATUS_INDEX_DELETED != 0 {
        FileStatus::Staged
    } else if bits & STATUS_WT_NEW != 0 {
        FileStatus::Untracked
    } else if bits & STATUS_WT_MODIFIED != 0 {
        FileStatus::Modified
    } else if bits & STATUS_WT_DELETED != 0 {
        FileStatus::Deleted
    } else if bits & STATUS_WT_RENAMED != 0 || bits & STATUS_INDEX_RENAMED != 0 {
        FileStatus::Renamed
    } else {
        FileStatus::Unknown
    }
}

/// One raw status entry: a repository-relative path and its status word.
pub struct RawStatusEntry {
    pub path: String,
    pub bits: u32,
}

/// A full repository status snapshot: branch name, distance to the
/// upstream branch, and the per-path classification.  Replaced wholesale
/// on recompute, never mutated in place.
pub struct GitInfo {
    pub branch: String,
    pub ahead: usize,
    pub behind: usize,
    pub has_conflicts: bool,
    pub file_statuses: Vec<(String, FileStatus)>,
}

/// The mathematical value of a snapshot.
pub struct GitInfoV {
    pub branch: Seq<char>,
    pub ahead: nat,
    pub behind: nat,
    pub has_conflicts: bool,
    pub file_statuses: Seq<(Seq<char>, FileStatus)>,
}

impl View for GitInfo {
    type V = GitInfoV;

    open spec fn view(&self) -> GitInfoV {
        GitInfoV {
            branch: self.branch@,
            ahead: self.ahead as nat,
            behind: self.behind as nat,
            has_conflicts: self.has_conflicts,
            file_statuses: self.file_statuses@.map_values(|p: (String, FileStatus)| (p.0@, p.1)),
        }
    }
}

impl Clone for GitInfo {
    fn clone(&self) -> (r: Self)
        ensures
            r@ == self@,
    {
        let mut statuses: Vec<(String, FileStatus)> = Vec::new();
        let mut i: usize = 0;
        while i < self.file_statuses.len()
            invariant
                i <= self.file_statuses.len(),
                statuses@.len() == i,
                forall|j: int|
                    0 <= j < i ==> #[trigger] statuses@[j].0@ == self.file_statuses@[j].0@
                        && statuses@[j].1 == self.file_statuses@[j].1,
            decreases self.file_statuses.len() - i,
        {
            let pair = (self.file_statuses[i].0.clone(), self.file_statuses[i].1);
            statuses.push(pair);
            i += 1;
        }
        let r = GitInfo {
            branch: self.branch.clone(),
            ahead: self.ahead,
            behind: self.behind,
            has_conflicts: self.has_conflicts,
            file_statuses: statuses,
        };
        proof {
            assert(r@.file_statuses =~= self@.file_statuses);
            assert(r@ =~= self@);
        }
        r
    }
}

/// The classification of every raw entry, in order.
pub open spec fn spec_classified(entries: Seq<(Seq<char>, u32)>) -> Seq<(Seq<char>, FileStatus)> {
    entries.map_values(|e: (Seq<char>, u32)| (e.0, spec_classify(e.1)))
}

/// Some raw entry carries the conflicted bit.
pub open spec fn spec_any_conflict(entries: Seq<(Seq<char>, u32)>) -> bool {
    exists|i: int| 0 <= i < entries.len() && entries[i].1 & STATUS_CONFLICTED != 0
}

pub open spec fn entries_view(entries: Seq<RawStatusEntry>) -> Seq<(Seq<char>, u32)> {
    entries.map_values(|e: RawStatusEntry| (e.path@, e.bits))
}

/// Every recorded key is repository-relative: none begins with a
/// separator.
pub open spec fn spec_relative_keys(statuses: Seq<(Seq<char>, FileStatus)>) -> bool {
    forall|i: int|
        0 <= i < statuses.len() ==> ((#[trigger] statuses[i]).0.len() > 0 ==> statuses[i].0[0]
            != '/')
}

/// Every raw entry path is repository-relative.
pub open spec fn spec_relative_paths(entries: Seq<RawStatusEntry>) -> bool {
    forall|i: int|
        0 <= i < entries.len() ==> ((#[trigger] entries[i]).path@.len() > 0 ==> entries[i].path@[0]
            != '/')
}

/// The snapshot's conflict flag agrees with its classification: it is
/// set exactly when some path is recorded as conflicted.
pub open spec fn spec_conflicts_consistent(g: GitInfoV) -> bool {
    g.has_conflicts <==> (exists|i: int|
        0 <= i < g.file_statuses.len() && (#[trigger] g.file_statuses[i]).1
            == FileStatus::Conflicted)
}

/// What holds of every snapshot this library computes: the keys are
/// repository-relative and the conflict flag matches the classification.
pub open spec fn spec_snapshot_wf(g: GitInfoV) -> bool {
    &&& spec_relative_keys(g.file_statuses)
    &&& spec_conflicts_consistent(g)
}

/// Classifies every raw entry and reports whether any is conflicted.
pub fn classify_entries(entries: Vec<RawStatusEntry>) -> (r: (Vec<(String, FileStatus)>, bool))
    ensures
        r.0@.map_values(|p: (String, FileStatus)| (p.0@, p.1)) == spec_classified(
            entries_view(entries@),
        ),
        r.1 == spec_any_conflict(entries_view(entries@)),
{
    let ghost all = entries@;
    let mut entries = entries;
    let mut out: Vec<(String, FileStatus)> = Vec::new();
    let mut has_conflicts = false;
    let mut i: usize = 0;
    while i < entries.len()
        invariant
            entries@ == all,
            i <= all.len(),
            out@.len() == i,
            forall|j: int|
                0 <= j < i ==> (#[trigger] out@[j]).0@ == all[j].path@ && out@[j].1
                    == spec_classify(all[j].bits),
            has_conflicts == exists|j: int|
                0 <= j < i && #[trigger] (all[j].bits & STATUS_CONFLICTED) != 0,
        decreases entries@.len() - i,
    {
        let bits = entries[i].bits;
        if bits & STATUS_CONFLICTED != 0 {
            has_conflicts = true;
        }
        let status = classify_status_bits(bits);
        let path = entries[i].path.clone();
        proof {
            assert(path@ == all[i as int].path@);
        }
        out.push((path, status));
        i += 1;
        proof {
            assert(out@[i as int - 1].0@ == all[i as int - 1].path@);
            assert(out@[i as int - 1].1 == spec_classify(all[i as int - 1].bits));
        }
    }
    proof {
        assert(out@.map_values(|p: (String, FileStatus)| (p.0@, p.1)) =~= spec_classified(
            entries_view(all),
        ));
        if has_conflicts {
            let w = choose|j: int| 0 <= j < all.len() && #[trigger] (all[j].bits
                & STATUS_CONFLICTED) != 0;
            assert(entries_view(all)[w].1 & STATUS_CONFLICTED != 0);
        }
        if spec_any_conflict(entries_view(all)) {
            let w = choose|j: int|
                0 <= j < entries_view(all).len() && entries_view(all)[j].1 & STATUS_CONFLICTED
                    != 0;
            assert(all[w].bits & STATUS_CONFLICTED != 0);
        }
    }
    (out, has_conflicts)
}

/// The branch label a snapshot carries: HEAD's symbolic name, a fixed
/// fallback when the name cannot be read, or `detached` when HEAD does
/// not point at a branch.
pub open spec fn spec_branch_name(is_branch: bool, shorthand: Option<Seq<char>>) -> Seq<char> {
    if is_branch {
        match shorthand {
            Some(s) => s,
            None => "unknown"@,
        }
    } else {
        "detached"@
    }
}

pub fn branch_name(is_branch: bool, shorthand: Option<String>) -> (r: String)
    ensures
        r@ == spec_branch_name(
            is_branch,
            match shorthand {
                Some(s) => Some(s@),
                None => None,
            },
        ),
{
    if is_branch {
        match shorthand {
            Some(s) => s,
            None => String::from_str("unknown"),
        }
    } else {
        String::from_str("detached")
    }
}

/// The remote-tracking reference compared against for ahead/behind.
pub open spec fn spec_upstream_ref_name(branch: Seq<char>) -> Seq<char> {
    "refs/remotes/origin/"@ + branch
}

pub fn upstream_ref_name(branch: &str) -> (r: String)
    ensures
        r@ == spec_upstream_ref_name(branch@),
{
    let mut r = String::from_str("refs/remotes/origin/");
    r.append(branch);
    r
}

/// Assembles a snapshot from plain inputs: the branch description, the
/// ahead/behind counts when an upstream exists (zero otherwise), and the
/// classified raw entries.
pub fn compute_git_info(
    is_branch: bool,
    shorthand: Option<String>,
    counts: Option<(usize, usize)>,
    entries: Vec<RawStatusEntry>,
) -> (r: GitInfo)
    ensures
        r@.branch == spec_branch_name(
            is_branch,
            match shorthand {
                Some(s) => Some(s@),
                None => None,
            },
        ),
        r@.ahead == (match counts {
            Some(c) => c.0 as nat,
            None => 0,
        }),
        r@.behind == (match counts {
            Some(c) => c.1 as nat,
            None => 0,
        }),
        r@.file_statuses == spec_classified(entries_view(entries@)),
        r@.has_conflicts == spec_any_conflict(entries_view(entries@)),
        spec_relative_paths(entries@) ==> spec_relative_keys(r@.file_statuses),
        spec_conflicts_consistent(r@),
{
    let ghost all = entries@;
    let branch = branch_name(is_branch, shorthand);
    let (ahead, behind) = match counts {
        Some(c) => c,
        None => (0, 0),
    };
    let (file_statuses, has_conflicts) = classify_entries(entries);
    let r = GitInfo { branch, ahead, behind, has_conflicts, file_statuses };
    proof {
        if spec_relative_paths(all) {
            assert forall|i: int|
                0 <= i < r@.file_statuses.len() && (#[trigger] r@.file_statuses[i]).0.len()
                    > 0 implies r@.file_statuses[i].0[0] != '/' by {
                assert(r@.file_statuses[i].0 == all[i].path@);
            }
        }
        let model = r@.file_statuses;
        let ents = entries_view(all);
        if r@.has_conflicts {
            let w = choose|i: int| 0 <= i < ents.len() && ents[i].1 & STATUS_CONFLICTED != 0;
            assert(model[w].1 == spec_classify(ents[w].1));
            assert(model[w].1 == FileStatus::Conflicted);
        }
        if exists|i: int|
            0 <= i < model.len() && (#[trigger] model[i]).1 == FileStatus::Conflicted {
            let w = choose|i: int|
                0 <= i < model.len() && (#[trigger] model[i]).1 == FileStatus::Conflicted;
            assert(model[w].1 == spec_classify(ents[w].1));
            assert(ents[w].1 & STATUS_CONFLICTED != 0);
            assert(spec_any_conflict(ents));
        }
    }
    r
}

/// The status recorded for `path` by exact key match: the first binding
/// wins, as a freshly computed snapshot binds each path once.
pub open spec fn spec_exact_lookup(
    statuses: Seq<(Seq<char>, FileStatus)>,
    path: Seq<char>,
) -> Option<FileStatus>
    decreases statuses.len(),
{
    if statuses.len() == 0 {
        None
    } else if statuses[0].0 == path {
        Some(statuses[0].1)
    } else {
        spec_exact_lookup(statuses.drop_first(), path)
    }
}

/// The status a query resolves to: an exact key match first, then a match
/// of the path made repository-relative.  Watch events carry absolute
/// paths while the repository records relative ones; lookup tries both.
pub open spec fn spec_resolve_lookup(
    statuses: Seq<(Seq<char>, FileStatus)>,
    root: Option<Seq<char>>,
    path: Seq<char>,
) -> Option<FileStatus> {
    match spec_exact_lookup(statuses, path) {
        Some(s) => Some(s),
        None => match root {
            Some(r) => match spec_strip_prefix(path, r) {
                Some(rel) => spec_exact_lookup(statuses, rel),
                None => None,
            },
            None => None,
        },
    }
}

pub fn exact_lookup(statuses: &Vec<(String, FileStatus)>, path: &str) -> (r: Option<FileStatus>)
    ensures
        r == spec_exact_lookup(
            statuses@.map_values(|p: (String, FileStatus)| (p.0@, p.1)),
            path@,
        ),
{
    let ghost model = statuses@.map_values(|p: (String, FileStatus)| (p.0@, p.1));
    proof {
        assert(model.subrange(0, model.len() as int) =~= model);
    }
    let mut i: usize = 0;
    while i < statuses.len()
        invariant
            model == statuses@.map_values(|p: (String, FileStatus)| (p.0@, p.1)),
            i <= statuses@.len(),
            spec_exact_lookup(model, path@) == spec_exact_lookup(
                model.subrange(i as int, model.len() as int),
                path@,
            ),
        decreases statuses@.len() - i,
    {
        if str_eq(statuses[i].0.as_str(), path) {
            proof {
                assert(model.subrange(i as int, model.len() as int)[0] == model[i as int]);
            }
            return Some(statuses[i].1);
        }
        proof {
            assert(model.subrange(i as int, model.len() as int).drop_first() =~= model.subrange(
                i as int + 1,
                model.len() as int,
            ));
        }
        i += 1;
    }
    proof {
        assert(model.subrange(model.len() as int, model.len() as int) =~= Seq::<
            (Seq<char>, FileStatus),
        >::empty());
    }
    None
}

impl GitInfo {
    /// Resolves the status of one path, trying the exact key first and
    /// the repository-relative form second.
    pub fn file_status_of(&self, root: Option<&String>, path: &str) -> (r: Option<FileStatus>)
        ensures
            r == spec_resolve_lookup(
                self@.file_statuses,
                match root {
                    Some(s) => Some(s@),
                    None => None,
                },
                path@,
            ),
    {
        match exact_lookup(&self.file_statuses, path) {
            Some(s) => Some(s),
            None => match root {
                Some(r) => match strip_prefix(path, r.as_str()) {
                    Some(rel) => exact_lookup(&self.file_statuses, rel.as_str()),
                    None => None,
                },
                None => None,
            },
        }
    }
}

proof fn lemma_exact_lookup_miss(statuses: Seq<(Seq<char>, FileStatus)>, path: Seq<char>)
    requires
        forall|i: int| 0 <= i < statuses.len() ==> (#[trigger] statuses[i]).0 != path,
    ensures
        spec_exact_lookup(statuses, path) is None,
    decreases statuses.len(),
{
    if statuses.len() > 0 {
        lemma_exact_lookup_miss(statuses.drop_first(), path);
    }
}

/// An absolute path under the repository root and its repository-relative
/// form resolve to the same status whenever the snapshot binds only
/// repository-relative keys — which every snapshot computed here does —
/// the root is an absolute path, and the relative form does not itself
/// begin with a separator.
pub proof fn lemma_lookup_absolute_equals_relative(
    statuses: Seq<(Seq<char>, FileStatus)>,
    root: Seq<char>,
    abs: Seq<char>,
    rel: Seq<char>,
)
    requires
        spec_relative_keys(statuses),
        root.len() > 0 && root[0] == '/',
        spec_strip_prefix(abs, root) == Some(rel),
        rel.len() > 0 ==> rel[0] != '/',
    ensures
        spec_resolve_lookup(statuses, Some(root), abs) == spec_resolve_lookup(
            statuses,
            Some(root),
            rel,
        ),
{
    assert(abs.subrange(0, root.len() as int)[0] == abs[0]);
    assert(abs[0] == '/');
    assert forall|i: int| 0 <= i < statuses.len() implies (#[trigger] statuses[i]).0 != abs by {
        if statuses[i].0 == abs {
            assert(statuses[i].0.len() > 0 && statuses[i].0[0] == '/');
        }
    }
    lemma_exact_lookup_miss(statuses, abs);
    if rel.len() > root.len() && rel.subrange(0, root.len() as int) == root {
        assert(rel.subrange(0, root.len() as int)[0] == rel[0]);
        assert(false);
    }
    assert(spec_strip_prefix(rel, root) is None);
}

} // verus!
