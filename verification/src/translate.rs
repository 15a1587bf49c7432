//! Translation of coalesced raw notifications into public watch events.
//!
//! Kinds map as create to created, modify to modified, remove to deleted;
//! an ambiguous kind maps to modified, over-notifying rather than losing a
//! change.  Every path a raw event references is checked against the
//! ignore rules, relative to the watch root; an event whose referenced
//! paths are all ignored is dropped before it reaches the consumer.

use vstd::prelude::*;
use crate::events::PathInfo;
use crate::events::RawEvent;
use crate::events::RawKind;
use crate::events::WatchEvent;
use crate::events::WatchEventV;
use crate::ignore_rules::IgnoreMatcher;
use crate::ignore_rules::ignore_match;
use crate::strutil::spec_strip_prefix;
use crate::strutil::strip_prefix;

verus! {

/// The ignore rules fully match this referenced path: it resolves to a
/// path under the watch root that the compiled rules ignore.
pub open spec fn spec_path_ignored(
    root_spec: Seq<char>,
    rules: Seq<Seq<char>>,
    watch_root: Seq<char>,
    p: Seq<char>,
    is_dir: bool,
) -> bool {
    match spec_strip_prefix(p, watch_root) {
        Some(rel) => ignore_match(root_spec, rules, rel, is_dir),
        None => false,
    }
}

/// Every path the event references is ignored.
pub open spec fn spec_all_ignored(
    root_spec: Seq<char>,
    rules: Seq<Seq<char>>,
    watch_root: Seq<char>,
    paths: Seq<PathInfo>,
) -> bool {
    forall|i: int|
        0 <= i < paths.len() ==> spec_path_ignored(
            root_spec,
            rules,
            watch_root,
            (#[trigger] paths[i]).path@,
            paths[i].is_dir,
        )
}

/// The public event a raw kind and first referenced path translate to.
pub open spec fn spec_kind_event(kind: RawKind, first: Seq<char>) -> Option<WatchEventV> {
    match kind {
        RawKind::Create => Some(WatchEventV::Created(first)),
        RawKind::Modify => Some(WatchEventV::Modified(first)),
        RawKind::Remove => Some(WatchEventV::Deleted(first)),
        RawKind::Any => Some(WatchEventV::Modified(first)),
        RawKind::Other => None,
    }
}

/// What a raw event translates to: nothing when it references no path,
/// when its kind has no public form, or when the rules ignore every path
/// it references.
pub open spec fn spec_translate(
    matcher: Option<(Seq<char>, Seq<Seq<char>>)>,
    watch_root: Seq<char>,
    paths: Seq<PathInfo>,
    kind: RawKind,
) -> Option<WatchEventV> {
    let dropped = match matcher {
        Some(m) => spec_all_ignored(m.0, m.1, watch_root, paths),
        None => false,
    };
    if dropped || paths.len() == 0 {
        None
    } else {
        spec_kind_event(kind, paths[0].path@)
    }
}

/// The matcher's abstract content, for stating what translation decides.
pub open spec fn matcher_model(m: Option<&IgnoreMatcher>) -> Option<(Seq<char>, Seq<Seq<char>>)> {
    match m {
        Some(m) => Some((m.root_spec(), m.rules_spec())),
        None => None,
    }
}

/// Translates one raw event, applying the ignore rules to every path it
/// references, relative to `watch_root`.
pub fn translate_event(event: &RawEvent, matcher: Option<&IgnoreMatcher>, watch_root: &str) -> (r:
    Option<WatchEvent>)
    ensures
        match r {
            Some(ev) => spec_translate(matcher_model(matcher), watch_root@, event.paths@, event.kind)
                == Some(ev@),
            None => spec_translate(matcher_model(matcher), watch_root@, event.paths@, event.kind)
                is None,
        },
{
    match matcher {
        Some(m) => {
            let mut all_ignored = event.paths.len() > 0;
            let mut i: usize = 0;
            while i < event.paths.len()
                invariant
                    i <= event.paths@.len(),
                    all_ignored == (event.paths@.len() > 0 && forall|j: int|
                        0 <= j < i ==> spec_path_ignored(
                            m.root_spec(),
                            m.rules_spec(),
                            watch_root@,
                            (#[trigger] event.paths@[j]).path@,
                            event.paths@[j].is_dir,
                        )),
                decreases event.paths@.len() - i,
            {
                let ignored = match strip_prefix(event.paths[i].path.as_str(), watch_root) {
                    Some(rel) => m.matches(rel.as_str(), event.paths[i].is_dir),
                    None => false,
                };
                all_ignored = all_ignored && ignored;
                i += 1;
            }
            if all_ignored {
                return None;
            }
        },
        None => {},
    }
    if event.paths.len() == 0 {
        return None;
    }
    let first = String::from_str(event.paths[0].path.as_str());
    match event.kind {
        RawKind::Create => Some(WatchEvent::Created(first)),
        RawKind::Modify => Some(WatchEvent::Modified(first)),
        RawKind::Remove => Some(WatchEvent::Deleted(first)),
        RawKind::Any => Some(WatchEvent::Modified(first)),
        RawKind::Other => None,
    }
}

/// For any path fully matched by the compiled ignore rules, no event
/// referencing only that path is ever delivered, whatever the raw kind.
pub proof fn lemma_ignored_path_never_delivered(
    root_spec: Seq<char>,
    rules: Seq<Seq<char>>,
    watch_root: Seq<char>,
    p: PathInfo,
    kind: RawKind,
)
    requires
        spec_path_ignored(root_spec, rules, watch_root, p.path@, p.is_dir),
    ensures
        spec_translate(Some((root_spec, rules)), watch_root, seq![p], kind) is None,
{
    assert(spec_all_ignored(root_spec, rules, watch_root, seq![p]));
}

} // verus!
