//! The time-bounded snapshot cache.
//!
//! A snapshot is valid while its age stays under the configured TTL;
//! invalidation discards the record of when it was taken, so the next
//! read recomputes whatever the elapsed time.  The cache also counts
//! recomputations, which lets callers and tests observe that a fresh
//! cache serves reads without touching the repository.

use vstd::prelude::*;
use crate::git::GitInfo;

verus! {

/// The cached snapshot together with its bookkeeping.  `last_update_ms`
/// is the instant the snapshot was stored, or nothing after an
/// invalidation (or before the first computation).
pub struct StatusCache {
    pub info: Option<GitInfo>,
    pub last_update_ms: Option<u64>,
    pub ttl_ms: u64,
    pub recomputations: u64,
}

impl StatusCache {
    /// The cached snapshot is still valid at `now_ms`.
    pub open spec fn is_fresh(self, now_ms: u64) -> bool {
        &&& self.info is Some
        &&& match self.last_update_ms {
            Some(t) => t <= now_ms && now_ms - t < self.ttl_ms,
            None => false,
        }
    }

    /// The cache state after a recomputed snapshot is stored at `now_ms`.
    pub open spec fn after_store(self, now_ms: u64, computed: GitInfo) -> StatusCache {
        StatusCache {
            info: Some(computed),
            last_update_ms: Some(now_ms),
            ttl_ms: self.ttl_ms,
            recomputations: (self.recomputations + 1) as u64,
        }
    }

    /// The cache state after an invalidation.
    pub open spec fn after_invalidate(self) -> StatusCache {
        StatusCache {
            info: self.info,
            last_update_ms: None,
            ttl_ms: self.ttl_ms,
            recomputations: self.recomputations,
        }
    }

    pub fn new(ttl_ms: u64) -> (r: StatusCache)
        ensures
            r.info is None,
            r.last_update_ms is None,
            r.ttl_ms == ttl_ms,
            r.recomputations == 0,
    {
        StatusCache { info: None, last_update_ms: None, ttl_ms, recomputations: 0 }
    }

    /// The cached snapshot, if it is still valid at `now_ms`.
    pub fn lookup(&self, now_ms: u64) -> (r: Option<GitInfo>)
        ensures
            r is Some <==> self.is_fresh(now_ms),
            match r {
                Some(g) => g@ == self.info.unwrap()@,
                None => true,
            },
    {
        match &self.info {
            Some(info) => match self.last_update_ms {
                Some(t) => {
                    if t <= now_ms && now_ms - t < self.ttl_ms {
                        Some(info.clone())
                    } else {
                        None
                    }
                },
                None => None,
            },
            None => None,
        }
    }

    /// Stores a recomputed snapshot, stamping it with `now_ms`.
    pub fn store(&mut self, now_ms: u64, computed: GitInfo)
        requires
            old(self).recomputations < u64::MAX,
        ensures
            *final(self) == old(self).after_store(now_ms, computed),
    {
        self.info = Some(computed);
        self.last_update_ms = Some(now_ms);
        self.recomputations = self.recomputations + 1;
    }

    /// Forces the next read to recompute, independent of elapsed time.
    pub fn invalidate(&mut self)
        ensures
            *final(self) == old(self).after_invalidate(),
    {
        self.last_update_ms = None;
    }

    /// Serves a read at `now_ms`: the cached snapshot when it is still
    /// valid, otherwise `computed` — the freshly recomputed snapshot the
    /// caller obtained from its status provider — which is stored and
    /// stamped.  A valid cache leaves the state untouched.
    pub fn get_or_store(&mut self, now_ms: u64, computed: GitInfo) -> (r: GitInfo)
        requires
            old(self).recomputations < u64::MAX,
        ensures
            old(self).is_fresh(now_ms) ==> *final(self) == *old(self) && r@ == old(
                self,
            ).info.unwrap()@,
            !old(self).is_fresh(now_ms) ==> *final(self) == old(self).after_store(now_ms, computed)
                && r@ == computed@,
    {
        match self.lookup(now_ms) {
            Some(g) => g,
            None => {
                let r = computed.clone();
                self.store(now_ms, computed);
                r
            },
        }
    }
}

/// Two reads within the TTL with no intervening invalidation observe the
/// same snapshot and cost at most one recomputation: after a miss at
/// `t1` stores the snapshot `g`, a read at any `t2` less than one TTL
/// later is served from the cache, with the recomputation count left at
/// one more than before the miss.
pub proof fn lemma_second_read_within_ttl_hits(c: StatusCache, t1: u64, t2: u64, g: GitInfo)
    requires
        c.recomputations < u64::MAX,
        t1 <= t2,
        t2 - t1 < c.ttl_ms,
    ensures
        c.after_store(t1, g).is_fresh(t2),
        c.after_store(t1, g).info == Some(g),
        c.after_store(t1, g).recomputations == c.recomputations + 1,
{
}

/// Two valid reads inside one TTL window: when the cache was stamped at
/// `t0`, every read at a time less than `t0` plus the TTL observes the
/// same snapshot and performs no recomputation at all.
pub proof fn lemma_fresh_reads_are_stable(c: StatusCache, t1: u64, t2: u64)
    requires
        c.is_fresh(t1),
        c.last_update_ms.unwrap() <= t2,
        t2 - c.last_update_ms.unwrap() < c.ttl_ms,
    ensures
        c.is_fresh(t2),
{
}

/// An invalidation followed by a read always triggers a fresh
/// recomputation: no time instant finds the invalidated cache valid, so
/// the next read stores a recomputed snapshot and raises the
/// recomputation count.
pub proof fn lemma_invalidate_forces_recompute(c: StatusCache, now_ms: u64, g: GitInfo)
    ensures
        !c.after_invalidate().is_fresh(now_ms),
        c.after_invalidate().after_store(now_ms, g).recomputations == c.recomputations + 1
            || c.recomputations == u64::MAX,
{
}

} // verus!
