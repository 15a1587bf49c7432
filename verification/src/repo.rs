//! The repository status provider and its time-bounded cache.
//!
//! Everything read from the repository — discovery, HEAD, the upstream
//! reference, the raw per-path status words — comes through trusted
//! declarations over the `git2` crate and depends on what is on disk, so
//! the contracts here promise only how the cache behaves and how the
//! verified classification assembles whatever the repository reported.

use vstd::prelude::*;
use git2::Oid;
use git2::Repository;
use crate::cache::StatusCache;
use crate::git::FileStatus;
use crate::git::GitInfo;
use crate::git::RawStatusEntry;
use crate::git::compute_git_info;
use crate::git::spec_relative_keys;
use crate::git::spec_snapshot_wf;
use crate::git::spec_resolve_lookup;
use crate::git::upstream_ref_name;

verus! {

#[verifier::external_type_specification]
#[verifier::external_body]
pub struct ExRepository(Repository);

#[verifier::external_type_specification]
#[verifier::external_body]
pub struct ExOid(Oid);

#[verifier::external_type_specification]
#[verifier::external_body]
pub struct ExGitError(git2::Error);

/// How the repository degrades: no repository is discoverable, or the
/// backend reported a failure, carried as its message.
#[derive(Debug)]
pub enum GitError {
    NoRepository,
    NoHeadTarget,
    NoUpstreamTarget,
    Backend(String),
}

/// What HEAD looked like when read: whether it points at a branch, its
/// symbolic short name if one could be read, and its commit id.
pub struct HeadSummary {
    pub is_branch: bool,
    pub shorthand: Option<String>,
    pub target: Option<Oid>,
}

/// What looking up a reference by name produced.
pub enum RefLookup {
    NotFound,
    NoTarget,
    Target(Oid),
}

/// Relies on `Repository::discover`: walks upward from `path` looking
/// for a repository; what it finds depends on the disk.
#[verifier::external_body]
pub(crate) fn repo_discover(path: &str) -> (r: Option<Repository>)
{
    Repository::discover(path).ok()
}

/// Relies on `Repository::workdir`: the working directory of the
/// repository, when it has one that can be read as text.
#[verifier::external_body]
pub(crate) fn repo_workdir(repo: &Repository) -> (r: Option<String>)
{
    repo.workdir().and_then(|p| p.to_str()).map(|s| s.to_string())
}

/// Relies on `Repository::head` and the `Reference` accessors
/// `is_branch`, `shorthand` and `target`: reads where HEAD points right
/// now; the result depends on the repository's state on disk.
#[verifier::external_body]
fn repo_head_summary(repo: &Repository) -> (r: Result<HeadSummary, git2::Error>)
{
    let head = repo.head()?;
    Ok(HeadSummary {
        is_branch: head.is_branch(),
        shorthand: head.shorthand().ok().map(|s| s.to_string()),
        target: head.target(),
    })
}

/// Relies on `Repository::find_reference` and `Reference::target`: looks
/// a reference up by name and reads its commit id; any lookup failure
/// counts as the reference being absent, as callers fall back to zero
/// distance in that case.
#[verifier::external_body]
fn repo_find_reference_target(repo: &Repository, name: &str) -> (r: RefLookup)
{
    match repo.find_reference(name) {
        Ok(upstream) => match upstream.target() {
            Some(oid) => RefLookup::Target(oid),
            None => RefLookup::NoTarget,
        },
        Err(_) => RefLookup::NotFound,
    }
}

/// Relies on `Repository::graph_ahead_behind`: the commit-graph distance
/// in each direction between two commits.
#[verifier::external_body]
fn repo_graph_ahead_behind(repo: &Repository, local: Oid, upstream: Oid) -> (r: Result<
    (usize, usize),
    git2::Error,
>)
{
    repo.graph_ahead_behind(local, upstream)
}

/// Relies on `Repository::statuses` with `StatusOptions` built from the
/// two flags, and on the `StatusEntry` accessors `path` and `status`:
/// one raw (path, status word) pair per entry, in the order reported; an
/// entry whose path is not readable as text keeps an empty path.  The
/// backend reports paths relative to the working directory, so no
/// reported path begins with a separator.
#[verifier::external_body]
pub(crate) fn repo_status_entries(
    repo: &Repository,
    include_untracked: bool,
    recurse_untracked: bool,
) -> (r: Result<Vec<RawStatusEntry>, git2::Error>)
    ensures
        r matches Ok(v) ==> crate::git::spec_relative_paths(v@),
{
    let mut opts = git2::StatusOptions::new();
    opts.include_untracked(include_untracked);
    opts.recurse_untracked_dirs(recurse_untracked);
    let statuses = repo.statuses(Some(&mut opts))?;
    Ok(statuses
        .iter()
        .map(|e| RawStatusEntry {
            path: e.path().unwrap_or("").to_string(),
            bits: e.status().bits(),
        })
        .collect())
}

/// Relies on `git2::Error::message`: the backend's description of what
/// failed.
#[verifier::external_body]
fn git_error_message(e: &git2::Error) -> (r: String)
{
    e.message().to_string()
}

/// The cache lifetime a monitor starts with.
pub const DEFAULT_STATUS_TTL_MS: u64 = 500;

/// Watches one repository: the discovered handle, its working directory,
/// and the time-bounded snapshot cache.  The monitor is driven with
/// explicit clock readings, so freshness is decided by its caller's
/// clock, not a hidden one.
pub struct GitMonitor {
    repo: Option<Repository>,
    repo_root: Option<String>,
    cache: StatusCache,
}

impl GitMonitor {
    /// The cache state, for contracts and observation.
    pub closed spec fn cache_spec(self) -> StatusCache {
        self.cache
    }

    /// The cache state: the snapshot, its stamp, the TTL and how many
    /// recomputations have been performed.
    pub fn cache(&self) -> (r: &StatusCache)
        ensures
            *r == self.cache_spec(),
    {
        &self.cache
    }

    /// Whether a repository handle is held.
    pub closed spec fn has_repo(self) -> bool {
        self.repo is Some
    }

    /// The discovered working directory, if any.
    pub closed spec fn root_spec(self) -> Option<Seq<char>> {
        match self.repo_root {
            Some(r) => Some(r@),
            None => None,
        }
    }

    /// Discovers the repository above `path`; starts with an empty cache
    /// whose first read will recompute.
    pub fn new(path: &str) -> (r: GitMonitor)
        ensures
            r.cache_spec().info is None,
            r.cache_spec().last_update_ms is None,
            r.cache_spec().ttl_ms == DEFAULT_STATUS_TTL_MS,
            r.cache_spec().recomputations == 0,
            !r.has_repo() ==> r.root_spec() is None,
    {
        let repo = repo_discover(path);
        let repo_root = match &repo {
            Some(r) => repo_workdir(r),
            None => None,
        };
        GitMonitor { repo, repo_root, cache: StatusCache::new(DEFAULT_STATUS_TTL_MS) }
    }

    pub fn is_git_repo(&self) -> (r: bool)
        ensures
            r == self.has_repo(),
    {
        self.repo.is_some()
    }

    /// The repository's working directory, when one was discovered.
    pub fn repo_root(&self) -> (r: Option<&String>)
        ensures
            match r {
                Some(s) => self.root_spec() == Some(s@),
                None => self.root_spec() is None,
            },
    {
        self.repo_root.as_ref()
    }

    /// Computes a full snapshot from the repository, without touching
    /// the cache.  Fails with `NoRepository` exactly when no repository
    /// was discovered; the other failures come from the backend.
    fn fetch_status(&self) -> (r: Result<GitInfo, GitError>)
        ensures
            !self.has_repo() ==> (r matches Err(e) && e is NoRepository),
            r matches Err(e) && e is NoRepository ==> !self.has_repo(),
            r matches Ok(g) ==> spec_snapshot_wf(g@),
    {
        let repo = match &self.repo {
            Some(r) => r,
            None => {
                return Err(GitError::NoRepository);
            },
        };
        let head = match repo_head_summary(repo) {
            Ok(h) => h,
            Err(e) => {
                return Err(GitError::Backend(git_error_message(&e)));
            },
        };
        let counts = match self.ahead_behind(repo, &head) {
            Ok(c) => c,
            Err(e) => {
                return Err(e);
            },
        };
        let entries = match repo_status_entries(repo, true, false) {
            Ok(entries) => entries,
            Err(e) => {
                return Err(GitError::Backend(git_error_message(&e)));
            },
        };
        Ok(compute_git_info(head.is_branch, head.shorthand, counts, entries))
    }

    /// The commit-graph distance to the remote-tracking branch: nothing
    /// when HEAD is not on a branch or no upstream reference exists.
    fn ahead_behind(&self, repo: &Repository, head: &HeadSummary) -> (r: Result<
        Option<(usize, usize)>,
        GitError,
    >)
        ensures
            !head.is_branch ==> (r matches Ok(c) && c is None),
            r matches Err(e) ==> !(e is NoRepository),
    {
        if !head.is_branch {
            return Ok(None);
        }
        let local = match &head.target {
            Some(oid) => oid,
            None => {
                return Err(GitError::NoHeadTarget);
            },
        };
        let branch = match &head.shorthand {
            Some(b) => b.as_str(),
            None => "unknown",
        };
        let name = upstream_ref_name(branch);
        match resolve_upstream(repo_find_reference_target(repo, name.as_str())) {
            Ok(None) => Ok(None),
            Ok(Some(upstream)) => match repo_graph_ahead_behind(repo, *local, upstream) {
                Ok(c) => Ok(Some(c)),
                Err(e) => Err(GitError::Backend(git_error_message(&e))),
            },
            Err(e) => Err(e),
        }
    }

    /// A snapshot no older than the cache TTL at `now_ms`: the cached
    /// one while it is valid, otherwise a freshly computed one, which is
    /// stored and stamped with `now_ms`.  A failed recomputation leaves
    /// the cache untouched.
    pub fn get_status(&mut self, now_ms: u64) -> (r: Result<GitInfo, GitError>)
        requires
            old(self).cache_spec().recomputations < u64::MAX,
        ensures
            old(self).cache_spec().is_fresh(now_ms) ==> (*final(self) == *old(self) && (r
                matches Ok(g) && g@ == old(self).cache_spec().info.unwrap()@)),
            r matches Ok(g) ==> (!old(self).cache_spec().is_fresh(now_ms) ==> (
            final(self).cache_spec().info matches Some(ci) && ci@ == g@
                && final(self).cache_spec().last_update_ms == Some(now_ms)
                && final(self).cache_spec().ttl_ms == old(self).cache_spec().ttl_ms
                && final(self).cache_spec().recomputations == old(self).cache_spec().recomputations
                + 1)),
            r is Err ==> *final(self) == *old(self),
            !old(self).has_repo() && !old(self).cache_spec().is_fresh(now_ms) ==> (r matches Err(
                e,
            ) && e is NoRepository),
            r matches Err(e) ==> (e is NoRepository <==> !old(self).has_repo()),
            (old(self).cache_spec().info matches Some(ci) ==> spec_snapshot_wf(ci@)) ==> ((r
                matches Ok(g) ==> spec_snapshot_wf(g@)) && (
            final(self).cache_spec().info matches Some(cf) ==> spec_snapshot_wf(cf@))),
            final(self).has_repo() == old(self).has_repo(),
            final(self).root_spec() == old(self).root_spec(),
    {
        match self.cache.lookup(now_ms) {
            Some(g) => Ok(g),
            None => {
                match self.fetch_status() {
                    Ok(info) => {
                        let ret = info.clone();
                        self.cache.store(now_ms, info);
                        Ok(ret)
                    },
                    Err(e) => Err(e),
                }
            },
        }
    }

    /// Forces the next read to recompute, independent of elapsed time.
    pub fn invalidate_cache(&mut self)
        ensures
            final(self).cache_spec() == old(self).cache_spec().after_invalidate(),
            final(self).has_repo() == old(self).has_repo(),
            final(self).root_spec() == old(self).root_spec(),
    {
        self.cache.invalidate();
    }

    /// Resolves the status of one path against a snapshot no older than
    /// the TTL: an exact key match first, then the path made relative to
    /// the repository root.  Degrades exactly as `get_status` does.
    pub fn get_file_status(&mut self, path: &str, now_ms: u64) -> (r: Result<
        Option<FileStatus>,
        GitError,
    >)
        requires
            old(self).cache_spec().recomputations < u64::MAX,
        ensures
            match r {
                Ok(s) => (final(self).cache_spec().info matches Some(g) && s == spec_resolve_lookup(
                    g@.file_statuses,
                    final(self).root_spec(),
                    path@,
                )),
                Err(_) => *final(self) == *old(self),
            },
            old(self).cache_spec().is_fresh(now_ms) ==> r is Ok,
            !old(self).has_repo() && !old(self).cache_spec().is_fresh(now_ms) ==> (r matches Err(
                e,
            ) && e is NoRepository),
            (old(self).cache_spec().info matches Some(ci) ==> spec_snapshot_wf(ci@)) ==> (
            final(self).cache_spec().info matches Some(cf) ==> spec_snapshot_wf(cf@)),
    {
        let info = match self.get_status(now_ms) {
            Ok(info) => info,
            Err(e) => {
                return Err(e);
            },
        };
        let r = info.file_status_of(self.repo_root.as_ref(), path);
        proof {
            assert(self.cache.info matches Some(g) && g@ == info@);
        }
        Ok(r)
    }
}

/// What the reference lookup decides about the upstream: a missing
/// reference means no upstream at all — ahead and behind then default to
/// zero — while a reference without a commit id is the degradation the
/// backend reports; a found commit id is compared against.
pub fn resolve_upstream(lookup: RefLookup) -> (r: Result<Option<Oid>, GitError>)
    ensures
        lookup is NotFound ==> (r matches Ok(c) && c is None),
        lookup is NoTarget ==> (r matches Err(e) && e is NoUpstreamTarget),
        lookup matches RefLookup::Target(oid) ==> (r matches Ok(c) && c matches Some(o) && o
            == oid),
{
    match lookup {
        RefLookup::NotFound => Ok(None),
        RefLookup::NoTarget => Err(GitError::NoUpstreamTarget),
        RefLookup::Target(oid) => Ok(Some(oid)),
    }
}

} // verus!
