//! Net-effect aggregation of raw notifications inside one debounce
//! window.
//!
//! Notifications for the same path arriving within the window are merged
//! into at most one logical event: repeated creates and modifies collapse
//! to one event carrying the last non-delete kind observed, a path whose
//! first sighting is a create and whose last is a delete produces nothing
//! at all, and any other trailing delete produces a single delete.

use vstd::prelude::*;
use crate::events::RawKind;
use crate::strutil::str_eq;

verus! {

/// What one window remembers about one path.
pub struct PathAgg {
    pub path: String,
    pub created_in_window: bool,
    pub last_non_delete: Option<RawKind>,
    pub deleted_last: bool,
}

/// The mathematical value of a per-path record.
#[verifier::ext_equal]
pub struct AggV {
    pub path: Seq<char>,
    pub created_in_window: bool,
    pub last_non_delete: Option<RawKind>,
    pub deleted_last: bool,
}

impl View for PathAgg {
    type V = AggV;

    open spec fn view(&self) -> AggV {
        AggV {
            path: self.path@,
            created_in_window: self.created_in_window,
            last_non_delete: self.last_non_delete,
            deleted_last: self.deleted_last,
        }
    }
}

/// The record for a path first sighted with `kind`.
pub open spec fn agg_init(path: Seq<char>, kind: RawKind) -> AggV {
    AggV {
        path: path,
        created_in_window: kind == RawKind::Create,
        last_non_delete: if kind == RawKind::Remove {
            None
        } else {
            Some(kind)
        },
        deleted_last: kind == RawKind::Remove,
    }
}

/// The record after one more notification of `kind` for the same path.
pub open spec fn agg_step(a: AggV, kind: RawKind) -> AggV {
    AggV {
        path: a.path,
        created_in_window: a.created_in_window,
        last_non_delete: if kind == RawKind::Remove {
            a.last_non_delete
        } else {
            Some(kind)
        },
        deleted_last: kind == RawKind::Remove,
    }
}

/// What one per-path record contributes when the window closes.
pub open spec fn agg_emit(a: AggV) -> Seq<(Seq<char>, RawKind)> {
    if a.deleted_last && a.created_in_window {
        Seq::empty()
    } else if a.deleted_last {
        seq![(a.path, RawKind::Remove)]
    } else {
        match a.last_non_delete {
            Some(k) => seq![(a.path, k)],
            None => Seq::empty(),
        }
    }
}

/// The first record tracking `path`, or `-1`.
pub open spec fn spec_find(s: Seq<AggV>, path: Seq<char>) -> int
    decreases s.len(),
{
    if s.len() == 0 {
        -1
    } else if s[0].path == path {
        0
    } else {
        let r = spec_find(s.drop_first(), path);
        if r == -1 {
            -1
        } else {
            r + 1
        }
    }
}

/// The window contents after one notification is recorded.
pub open spec fn spec_record(s: Seq<AggV>, path: Seq<char>, kind: RawKind) -> Seq<AggV> {
    let i = spec_find(s, path);
    if i == -1 {
        s.push(agg_init(path, kind))
    } else {
        s.update(i, agg_step(s[i], kind))
    }
}

/// Everything the window delivers when it closes, in first-sighting order.
pub open spec fn spec_flush(s: Seq<AggV>) -> Seq<(Seq<char>, RawKind)>
    decreases s.len(),
{
    if s.len() == 0 {
        Seq::empty()
    } else {
        agg_emit(s[0]) + spec_flush(s.drop_first())
    }
}

pub open spec fn slots_view(s: Seq<PathAgg>) -> Seq<AggV> {
    s.map_values(|a: PathAgg| a@)
}

/// One debounce window in progress: the per-path records, in the order
/// the paths were first sighted, plus the configured window length.
pub struct Debouncer {
    pub window_ms: u64,
    pub slots: Vec<PathAgg>,
}

impl View for Debouncer {
    type V = Seq<AggV>;

    open spec fn view(&self) -> Seq<AggV> {
        slots_view(self.slots@)
    }
}

proof fn lemma_find_hit(s: Seq<AggV>, path: Seq<char>, i: int)
    requires
        0 <= i < s.len(),
        s[i].path == path,
        forall|j: int| 0 <= j < i ==> s[j].path != path,
    ensures
        spec_find(s, path) == i,
    decreases i,
{
    if i > 0 {
        lemma_find_hit(s.drop_first(), path, i - 1);
    }
}

proof fn lemma_find_miss(s: Seq<AggV>, path: Seq<char>)
    requires
        forall|j: int| 0 <= j < s.len() ==> s[j].path != path,
    ensures
        spec_find(s, path) == -1,
    decreases s.len(),
{
    if s.len() > 0 {
        lemma_find_miss(s.drop_first(), path);
    }
}

impl Debouncer {
    pub fn new(window_ms: u64) -> (r: Debouncer)
        ensures
            r@ == Seq::<AggV>::empty(),
            r.window_ms == window_ms,
    {
        let r = Debouncer { window_ms, slots: Vec::new() };
        proof {
            assert(r@ =~= Seq::<AggV>::empty());
        }
        r
    }

    /// Records one raw notification for `path` in the current window.
    pub fn record(&mut self, path: &str, kind: RawKind)
        ensures
            final(self)@ == spec_record(old(self)@, path@, kind),
            final(self).window_ms == old(self).window_ms,
    {
        let n = self.slots.len();
        let mut i: usize = 0;
        while i < n
            invariant
                *self == *old(self),
                n == self.slots@.len(),
                i <= n,
                forall|j: int| 0 <= j < i ==> slots_view(self.slots@)[j].path != path@,
            decreases n - i,
        {
            if str_eq(self.slots[i].path.as_str(), path) {
                proof {
                    lemma_find_hit(self@, path@, i as int);
                }
                let mut a = self.slots.remove(i);
                if matches!(kind, RawKind::Remove) {
                    a.deleted_last = true;
                } else {
                    a.last_non_delete = Some(kind);
                    a.deleted_last = false;
                }
                self.slots.insert(i, a);
                proof {
                    assert(self@ =~~= spec_record(old(self)@, path@, kind));
                }
                return ;
            }
            i += 1;
        }
        proof {
            lemma_find_miss(self@, path@);
        }
        let slot = PathAgg {
            path: String::from_str(path),
            created_in_window: matches!(kind, RawKind::Create),
            last_non_delete: if matches!(kind, RawKind::Remove) {
                None
            } else {
                Some(kind)
            },
            deleted_last: matches!(kind, RawKind::Remove),
        };
        self.slots.push(slot);
        proof {
            assert(self@ =~~= spec_record(old(self)@, path@, kind));
        }
    }

    /// Closes the window: delivers the coalesced per-path events and
    /// leaves the window empty.
    pub fn flush(&mut self) -> (r: Vec<(String, RawKind)>)
        ensures
            r@.map_values(|p: (String, RawKind)| (p.0@, p.1)) == spec_flush(old(self)@),
            final(self)@ == Seq::<AggV>::empty(),
            final(self).window_ms == old(self).window_ms,
    {
        let ghost orig = self@;
        let mut out: Vec<(String, RawKind)> = Vec::new();
        proof {
            assert(out@.map_values(|p: (String, RawKind)| (p.0@, p.1)) + spec_flush(self@)
                =~~= spec_flush(orig));
        }
        while self.slots.len() > 0
            invariant
                out@.map_values(|p: (String, RawKind)| (p.0@, p.1)) + spec_flush(self@)
                    == spec_flush(orig),
                self.window_ms == old(self).window_ms,
            decreases self.slots@.len(),
        {
            let ghost before = self@;
            let ghost out_before = out@;
            let a = self.slots.remove(0);
            proof {
                assert(self@ =~~= before.drop_first());
                assert(a@ =~~= before[0]);
            }
            if a.deleted_last && a.created_in_window {
                // create-then-delete inside one window cancels out
            } else if a.deleted_last {
                out.push((a.path, RawKind::Remove));
            } else {
                match a.last_non_delete {
                    Some(k) => {
                        out.push((a.path, k));
                    },
                    None => {},
                }
            }
            proof {
                assert(out@.map_values(|p: (String, RawKind)| (p.0@, p.1)) =~~= out_before.map_values(
                    |p: (String, RawKind)| (p.0@, p.1),
                ) + agg_emit(before[0]));
                assert(out@.map_values(|p: (String, RawKind)| (p.0@, p.1)) + spec_flush(self@)
                    =~~= spec_flush(orig));
            }
        }
        proof {
            assert(self@ =~~= Seq::<AggV>::empty());
            assert(out@.map_values(|p: (String, RawKind)| (p.0@, p.1)) =~~= spec_flush(orig));
        }
        out
    }
}

/// The record a window holds for `path` after the notification burst
/// `kinds`, oldest first.
pub open spec fn agg_run(path: Seq<char>, kinds: Seq<RawKind>) -> AggV
    recommends
        kinds.len() > 0,
    decreases kinds.len(),
{
    if kinds.len() <= 1 {
        agg_init(path, kinds[0])
    } else {
        agg_step(agg_run(path, kinds.drop_last()), kinds.last())
    }
}

/// The window contents after a burst of notifications for one path is
/// recorded into a window that starts empty.
pub open spec fn record_burst(path: Seq<char>, kinds: Seq<RawKind>) -> Seq<AggV>
    decreases kinds.len(),
{
    if kinds.len() == 0 {
        Seq::empty()
    } else {
        spec_record(record_burst(path, kinds.drop_last()), path, kinds.last())
    }
}

proof fn lemma_single_path_window(path: Seq<char>, kinds: Seq<RawKind>)
    requires
        kinds.len() > 0,
    ensures
        record_burst(path, kinds) =~~= seq![agg_run(path, kinds)],
    decreases kinds.len(),
{
    if kinds.len() == 1 {
        assert(record_burst(path, kinds.drop_last()) =~~= Seq::<AggV>::empty());
    } else {
        lemma_single_path_window(path, kinds.drop_last());
        lemma_burst_flags(path, kinds.drop_last());
        assert(seq![agg_run(path, kinds.drop_last())][0].path == path);
        assert(spec_find(seq![agg_run(path, kinds.drop_last())], path) == 0);
    }
}

proof fn lemma_burst_flags(path: Seq<char>, kinds: Seq<RawKind>)
    requires
        kinds.len() > 0,
    ensures
        agg_run(path, kinds).path == path,
        agg_run(path, kinds).created_in_window == (kinds[0] == RawKind::Create),
        agg_run(path, kinds).deleted_last == (kinds.last() == RawKind::Remove),
        kinds.last() != RawKind::Remove ==> agg_run(path, kinds).last_non_delete == Some(
            kinds.last(),
        ),
    decreases kinds.len(),
{
    if kinds.len() > 1 {
        lemma_burst_flags(path, kinds.drop_last());
        assert(kinds.drop_last()[0] == kinds[0]);
    }
}

proof fn lemma_flush_singleton(a: AggV)
    ensures
        spec_flush(seq![a]) =~~= agg_emit(a),
{
    assert(seq![a].drop_first() =~~= Seq::<AggV>::empty());
    assert(spec_flush(Seq::<AggV>::empty()) =~~= Seq::<(Seq<char>, RawKind)>::empty());
    assert(spec_flush(seq![a]) =~~= agg_emit(seq![a][0]) + spec_flush(seq![a].drop_first()));
    assert(seq![a][0] == a);
}

/// For any burst of create and modify notifications on one path within a
/// single debounce window, exactly one coalesced event is delivered, and
/// its kind is the last kind observed.
pub proof fn lemma_burst_coalesces_to_one(path: Seq<char>, kinds: Seq<RawKind>)
    requires
        kinds.len() > 0,
        forall|j: int|
            0 <= j < kinds.len() ==> kinds[j] == RawKind::Create || kinds[j] == RawKind::Modify,
    ensures
        spec_flush(record_burst(path, kinds)) =~~= seq![(path, kinds.last())],
{
    lemma_single_path_window(path, kinds);
    lemma_burst_flags(path, kinds);
    let a = agg_run(path, kinds);
    assert(kinds.last() != RawKind::Remove);
    assert(!a.deleted_last);
    assert(agg_emit(a) =~~= seq![(path, kinds.last())]);
    lemma_flush_singleton(a);
}

/// A create followed — however many merges later — by a delete for the
/// same path inside one window cancels out: the window delivers nothing
/// for that path.
pub proof fn lemma_create_then_delete_cancels(path: Seq<char>, kinds: Seq<RawKind>)
    requires
        kinds.len() > 0,
        kinds[0] == RawKind::Create,
        kinds.last() == RawKind::Remove,
    ensures
        spec_flush(record_burst(path, kinds)) =~~= Seq::<(Seq<char>, RawKind)>::empty(),
{
    lemma_single_path_window(path, kinds);
    lemma_burst_flags(path, kinds);
    let a = agg_run(path, kinds);
    assert(a.deleted_last && a.created_in_window);
    assert(agg_emit(a) =~~= Seq::<(Seq<char>, RawKind)>::empty());
    lemma_flush_singleton(a);
}

} // verus!
