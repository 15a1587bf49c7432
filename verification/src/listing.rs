//! The order of a directory listing: directories first, then by name.
//!
//! The sort returns a reordering of exactly the entries given — the
//! multisets of entry values agree — arranged so that every directory
//! precedes every non-directory and ties are broken by the name's
//! code-point order, which is the byte order of its encoded form.

use vstd::prelude::*;
use vstd::seq_lib::group_to_multiset_ensures;
use vstd::seq_lib::to_multiset_insert;
use vstd::multiset::group_multiset_axioms;
use crate::app::entries_view;
use crate::file_entry::FileEntry;
use crate::file_entry::FileEntryV;
use crate::file_entry::FileType;

verus! {

/// Code-point order on names.
pub open spec fn lex_le(a: Seq<char>, b: Seq<char>) -> bool
    decreases a.len(),
{
    if a.len() == 0 {
        true
    } else if b.len() == 0 {
        false
    } else if (a[0] as u32) < (b[0] as u32) {
        true
    } else if (a[0] as u32) > (b[0] as u32) {
        false
    } else {
        lex_le(a.drop_first(), b.drop_first())
    }
}

/// The listing order: directories before everything else, names as the
/// tie-breaker.
pub open spec fn entry_le(a: FileEntryV, b: FileEntryV) -> bool {
    if a.file_type == FileType::Directory && b.file_type != FileType::Directory {
        true
    } else if a.file_type != FileType::Directory && b.file_type == FileType::Directory {
        false
    } else {
        lex_le(a.name, b.name)
    }
}

/// Every pair of the sequence stands in listing order.
pub open spec fn listing_sorted(s: Seq<FileEntryV>) -> bool {
    forall|i: int, j: int| 0 <= i < j < s.len() ==> entry_le(#[trigger] s[i], #[trigger] s[j])
}

proof fn lemma_lex_total(a: Seq<char>, b: Seq<char>)
    ensures
        lex_le(a, b) || lex_le(b, a),
    decreases a.len(),
{
    if a.len() > 0 && b.len() > 0 && (a[0] as u32) == (b[0] as u32) {
        lemma_lex_total(a.drop_first(), b.drop_first());
    }
}

proof fn lemma_lex_trans(a: Seq<char>, b: Seq<char>, c: Seq<char>)
    requires
        lex_le(a, b),
        lex_le(b, c),
    ensures
        lex_le(a, c),
    decreases a.len(),
{
    if a.len() > 0 && b.len() > 0 && c.len() > 0 && (a[0] as u32) == (b[0] as u32) && (b[0] as u32)
        == (c[0] as u32) {
        lemma_lex_trans(a.drop_first(), b.drop_first(), c.drop_first());
    }
}

proof fn lemma_entry_le_total(a: FileEntryV, b: FileEntryV)
    ensures
        entry_le(a, b) || entry_le(b, a),
{
    lemma_lex_total(a.name, b.name);
}

proof fn lemma_entry_le_trans(a: FileEntryV, b: FileEntryV, c: FileEntryV)
    requires
        entry_le(a, b),
        entry_le(b, c),
    ensures
        entry_le(a, c),
{
    if a.file_type == FileType::Directory && c.file_type != FileType::Directory {
    } else if a.file_type != FileType::Directory && c.file_type == FileType::Directory {
        assert(false);
    } else {
        if entry_le(a, b) && entry_le(b, c) && lex_le(a.name, b.name) && lex_le(b.name, c.name) {
            lemma_lex_trans(a.name, b.name, c.name);
        }
    }
}

fn str_lex_le(a: &str, b: &str) -> (r: bool)
    ensures
        r == lex_le(a@, b@),
{
    let alen = a.unicode_len();
    let blen = b.unicode_len();
    let mut i: usize = 0;
    proof {
        assert(a@.skip(0) =~= a@);
        assert(b@.skip(0) =~= b@);
    }
    loop
        invariant
            alen == a@.len(),
            blen == b@.len(),
            i <= alen,
            i <= blen,
            lex_le(a@, b@) == lex_le(a@.skip(i as int), b@.skip(i as int)),
        decreases alen - i,
    {
        if i == alen {
            proof {
                assert(a@.skip(i as int).len() == 0);
            }
            return true;
        }
        if i == blen {
            proof {
                assert(b@.skip(i as int).len() == 0);
                assert(a@.skip(i as int).len() > 0);
            }
            return false;
        }
        let ca = a.get_char(i);
        let cb = b.get_char(i);
        proof {
            assert(a@.skip(i as int)[0] == a@[i as int]);
            assert(b@.skip(i as int)[0] == b@[i as int]);
        }
        if (ca as u32) < (cb as u32) {
            return true;
        }
        if (ca as u32) > (cb as u32) {
            return false;
        }
        proof {
            assert(a@.skip(i as int).drop_first() =~= a@.skip(i as int + 1));
            assert(b@.skip(i as int).drop_first() =~= b@.skip(i as int + 1));
        }
        i += 1;
    }
}

fn entry_before(a: &FileEntry, b: &FileEntry) -> (r: bool)
    ensures
        r == entry_le(a@, b@),
{
    let a_dir = matches!(a.file_type, FileType::Directory);
    let b_dir = matches!(b.file_type, FileType::Directory);
    if a_dir && !b_dir {
        true
    } else if !a_dir && b_dir {
        false
    } else {
        str_lex_le(a.name.as_str(), b.name.as_str())
    }
}

/// Sorts a listing into display order: the same entries, directories
/// first, names breaking ties.
pub fn sort_entries(entries: Vec<FileEntry>) -> (r: Vec<FileEntry>)
    ensures
        listing_sorted(entries_view(r@)),
        entries_view(r@).to_multiset() == entries_view(entries@).to_multiset(),
{
    broadcast use group_to_multiset_ensures;
    broadcast use to_multiset_insert;
    broadcast use group_multiset_axioms;

    let ghost orig = entries_view(entries@);
    let mut rest = entries;
    let mut out: Vec<FileEntry> = Vec::new();
    proof {
        assert(entries_view(out@) =~= Seq::<FileEntryV>::empty());
        assert(entries_view(out@).to_multiset().add(entries_view(rest@).to_multiset())
            =~= orig.to_multiset());
    }
    while rest.len() > 0
        invariant
            listing_sorted(entries_view(out@)),
            entries_view(out@).to_multiset().add(entries_view(rest@).to_multiset())
                == orig.to_multiset(),
        decreases rest@.len(),
    {
        let ghost rest_before = entries_view(rest@);
        let e = rest.remove(0);
        proof {
            assert(entries_view(rest@) =~= rest_before.drop_first());
            assert(e@ == rest_before[0]);
            assert(rest_before.contains(e@));
            vstd::seq_lib::to_multiset_remove(rest_before, 0);
            assert(rest_before.remove(0) =~= rest_before.drop_first());
            assert(entries_view(rest@).to_multiset() =~= rest_before.to_multiset().remove(e@));
        }
        let n = out.len();
        let mut j: usize = 0;
        while j < n && entry_before(&out[j], &e)
            invariant
                n == out@.len(),
                j <= n,
                forall|k: int| 0 <= k < j ==> entry_le(entries_view(out@)[k], e@),
            decreases n - j,
        {
            j += 1;
        }
        let ghost out_before = entries_view(out@);
        proof {
            if j < n {
                lemma_entry_le_total(out_before[j as int], e@);
            }
            assert forall|k: int| j <= k < n implies entry_le(e@, out_before[k]) by {
                lemma_entry_le_total(out_before[j as int], e@);
                if k > j {
                    lemma_entry_le_trans(e@, out_before[j as int], out_before[k]);
                }
            }
        }
        out.insert(j, e);
        proof {
            assert(entries_view(out@) =~= out_before.insert(j as int, e@));
            vstd::seq_lib::to_multiset_insert(out_before, j as int, e@);
            assert(listing_sorted(entries_view(out@)));
            vstd::seq_lib::to_multiset_contains(rest_before, e@);
            assert(rest_before.to_multiset().count(e@) > 0);
            assert(out_before.to_multiset().insert(e@).add(
                rest_before.to_multiset().remove(e@),
            ) =~= out_before.to_multiset().add(rest_before.to_multiset()));
            assert(entries_view(out@).to_multiset().add(entries_view(rest@).to_multiset())
                =~= orig.to_multiset());
        }
    }
    proof {
        assert(entries_view(rest@) =~= Seq::<FileEntryV>::empty());
        assert(entries_view(out@).to_multiset().add(Seq::<FileEntryV>::empty().to_multiset())
            =~= entries_view(out@).to_multiset());
    }
    out
}

} // verus!
