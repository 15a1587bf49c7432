//! String helpers shared by the event, status and formatting modules:
//! equality and substring search over `&str`, decimal rendering of
//! counters, and path-prefix stripping used to relate absolute watch
//! paths to repository-relative ones.

use vstd::prelude::*;

verus! {

/// The characters of `s` lowercased, as `str::to_lowercase` computes them.
pub uninterp spec fn lower_of(s: Seq<char>) -> Seq<char>;

/// Relies on `str::to_lowercase`: the result depends on the characters alone.
#[verifier::external_body]
pub fn lowercase(s: &str) -> (r: String)
    ensures
        r@ == lower_of(s@),
{
    s.to_lowercase()
}

/// Relies on `String::push`: appends one character.
#[verifier::external_body]
pub fn push_char(s: &mut String, c: char)
    ensures
        final(s)@ == old(s)@.push(c),
{
    s.push(c)
}

/// Relies on `String::pop`: removes and returns the last character of a
/// non-empty string, and leaves an empty one alone.
#[verifier::external_body]
pub fn pop_char(s: &mut String) -> (r: Option<char>)
    ensures
        old(s)@.len() == 0 ==> r is None && final(s)@ == old(s)@,
        old(s)@.len() > 0 ==> r == Some(old(s)@.last()) && final(s)@ == old(s)@.drop_last(),
{
    s.pop()
}

pub fn str_eq(a: &str, b: &str) -> (r: bool)
    ensures
        r == (a@ == b@),
{
    let alen = a.unicode_len();
    let blen = b.unicode_len();
    if alen != blen {
        return false;
    }
    let mut i: usize = 0;
    while i < alen
        invariant
            alen == a@.len(),
            alen == b@.len(),
            i <= alen,
            forall|j: int| 0 <= j < i ==> a@[j] == b@[j],
        decreases alen - i,
    {
        if a.get_char(i) != b.get_char(i) {
            return false;
        }
        i += 1;
    }
    proof {
        assert(a@ =~= b@);
    }
    true
}

/// `needle` occurs in `hay` starting at some position.
pub open spec fn spec_contains(hay: Seq<char>, needle: Seq<char>) -> bool {
    exists|i: int|
        0 <= i && i + needle.len() <= hay.len() && #[trigger] hay.subrange(
            i,
            i + needle.len() as int,
        ) == needle
}

pub fn contains_sub(hay: &str, needle: &str) -> (r: bool)
    ensures
        r == spec_contains(hay@, needle@),
{
    let hlen = hay.unicode_len();
    let nlen = needle.unicode_len();
    if nlen > hlen {
        proof {
            assert(!spec_contains(hay@, needle@));
        }
        return false;
    }
    if nlen == 0 {
        proof {
            assert(hay@.subrange(0, 0 + needle@.len() as int) =~= needle@);
        }
        return true;
    }
    let mut i: usize = 0;
    while i <= hlen - nlen
        invariant
            hlen == hay@.len(),
            nlen == needle@.len(),
            0 < nlen <= hlen,
            i <= hlen - nlen + 1,
            forall|k: int|
                0 <= k < i ==> #[trigger] hay@.subrange(k, k + nlen as int) != needle@,
        decreases hlen - i,
    {
        let piece = hay.substring_char(i, i + nlen);
        if str_eq(piece, needle) {
            return true;
        }
        i += 1;
    }
    false
}

pub fn str_starts_with(s: &str, prefix: &str) -> (r: bool)
    ensures
        r == (prefix@.len() <= s@.len() && s@.subrange(0, prefix@.len() as int) == prefix@),
{
    let slen = s.unicode_len();
    let plen = prefix.unicode_len();
    if plen > slen {
        return false;
    }
    let head = s.substring_char(0, plen);
    str_eq(head, prefix)
}

/// The decimal digit character for a value below ten.
pub open spec fn spec_digit(d: nat) -> char {
    if d == 0 {
        '0'
    } else if d == 1 {
        '1'
    } else if d == 2 {
        '2'
    } else if d == 3 {
        '3'
    } else if d == 4 {
        '4'
    } else if d == 5 {
        '5'
    } else if d == 6 {
        '6'
    } else if d == 7 {
        '7'
    } else if d == 8 {
        '8'
    } else {
        '9'
    }
}

/// The decimal rendering of `n`, most significant digit first.
pub open spec fn spec_dec(n: nat) -> Seq<char>
    decreases n,
{
    if n < 10 {
        seq![spec_digit(n)]
    } else {
        spec_dec(n / 10).push(spec_digit(n % 10))
    }
}

fn digit_str(d: u64) -> (r: &'static str)
    requires
        d < 10,
    ensures
        r@ == seq![spec_digit(d as nat)],
{
    proof {
        reveal_strlit("0");
        reveal_strlit("1");
        reveal_strlit("2");
        reveal_strlit("3");
        reveal_strlit("4");
        reveal_strlit("5");
        reveal_strlit("6");
        reveal_strlit("7");
        reveal_strlit("8");
        reveal_strlit("9");
    }
    let r = if d == 0 {
        "0"
    } else if d == 1 {
        "1"
    } else if d == 2 {
        "2"
    } else if d == 3 {
        "3"
    } else if d == 4 {
        "4"
    } else if d == 5 {
        "5"
    } else if d == 6 {
        "6"
    } else if d == 7 {
        "7"
    } else if d == 8 {
        "8"
    } else {
        "9"
    };
    proof {
        assert(r@ =~= seq![spec_digit(d as nat)]);
    }
    r
}

pub fn u64_to_dec(n: u64) -> (r: String)
    ensures
        r@ == spec_dec(n as nat),
    decreases n,
{
    if n < 10 {
        let r = String::from_str(digit_str(n));
        proof {
            assert(r@ =~= spec_dec(n as nat));
        }
        r
    } else {
        let mut r = u64_to_dec(n / 10);
        r.append(digit_str(n % 10));
        proof {
            assert(r@ =~= spec_dec(n as nat));
        }
        r
    }
}

pub fn usize_to_dec(n: usize) -> (r: String)
    ensures
        r@ == spec_dec(n as nat),
{
    u64_to_dec(n as u64)
}

/// The repository-relative form of `path` under `root`, if `path` lies
/// under it: the prefix and one separating slash are removed.  A root that
/// already ends in a slash needs no separator.
pub open spec fn spec_strip_prefix(path: Seq<char>, root: Seq<char>) -> Option<Seq<char>> {
    if root.len() < path.len() && path.subrange(0, root.len() as int) == root {
        if root.len() > 0 && root.last() == '/' {
            Some(path.subrange(root.len() as int, path.len() as int))
        } else if path[root.len() as int] == '/' {
            Some(path.subrange(root.len() as int + 1, path.len() as int))
        } else {
            None
        }
    } else {
        None
    }
}

pub fn strip_prefix(path: &str, root: &str) -> (r: Option<String>)
    ensures
        match r {
            Some(rel) => spec_strip_prefix(path@, root@) == Some(rel@),
            None => spec_strip_prefix(path@, root@) is None,
        },
{
    let plen = path.unicode_len();
    let rlen = root.unicode_len();
    if rlen >= plen {
        return None;
    }
    if !str_eq(path.substring_char(0, rlen), root) {
        return None;
    }
    if rlen > 0 && root.get_char(rlen - 1) == '/' {
        proof {
            assert(root@.last() == root@[rlen - 1]);
        }
        Some(String::from_str(path.substring_char(rlen, plen)))
    } else if path.get_char(rlen) == '/' {
        Some(String::from_str(path.substring_char(rlen + 1, plen)))
    } else {
        None
    }
}

/// A path under `base`: the two joined with exactly one separator.
pub open spec fn spec_join(base: Seq<char>, rel: Seq<char>) -> Seq<char> {
    if base.len() > 0 && base.last() == '/' {
        base + rel
    } else {
        base + seq!['/'] + rel
    }
}

pub fn join_path(base: &str, rel: &str) -> (r: String)
    ensures
        r@ == spec_join(base@, rel@),
{
    let mut r = String::from_str(base);
    let blen = base.unicode_len();
    if blen == 0 || base.get_char(blen - 1) != '/' {
        proof {
            reveal_strlit("/");
        }
        r.append("/");
        proof {
            assert("/"@ =~= seq!['/']);
        }
    } else {
        proof {
            assert(base@.last() == base@[blen - 1]);
        }
    }
    r.append(rel);
    r
}

/// The parent of a slash-separated path: the text before the final
/// separator, the root path `/` when the final separator is the first
/// character, and nothing for a path without a separator.
pub open spec fn spec_parent(path: Seq<char>) -> Option<Seq<char>> {
    if exists|i: int| 0 <= i < path.len() && path[i] == '/' {
        let cut = last_slash(path);
        if cut == 0 {
            if path.len() > 1 {
                Some(seq!['/'])
            } else {
                None
            }
        } else {
            Some(path.subrange(0, cut))
        }
    } else {
        None
    }
}

/// The index of the last slash in `path`, assuming one exists.
pub open spec fn last_slash(path: Seq<char>) -> int {
    choose|i: int|
        0 <= i < path.len() && path[i] == '/' && (forall|j: int|
            i < j < path.len() ==> path[j] != '/')
}

proof fn lemma_last_slash_exists(path: Seq<char>)
    requires
        exists|i: int| 0 <= i < path.len() && path[i] == '/',
    ensures
        0 <= last_slash(path) < path.len(),
        path[last_slash(path)] == '/',
        forall|j: int| last_slash(path) < j < path.len() ==> path[j] != '/',
    decreases path.len(),
{
    if path.len() > 0 && path.last() == '/' {
        let w = path.len() - 1;
        assert(0 <= w < path.len() && path[w] == '/' && (forall|j: int|
            w < j < path.len() ==> path[j] != '/'));
    } else {
        let fore = path.subrange(0, path.len() - 1);
        assert(forall|i: int| 0 <= i < path.len() && path[i] == '/' ==> i < fore.len() && fore[i]
            == path[i]);
        lemma_last_slash_exists(fore);
        let w = last_slash(fore);
        assert(path[w] == '/');
        assert(0 <= w < path.len() && path[w] == '/' && (forall|j: int|
            w < j < path.len() ==> path[j] != '/'));
    }
}

pub fn parent_path(path: &str) -> (r: Option<String>)
    ensures
        match r {
            Some(p) => spec_parent(path@) == Some(p@),
            None => spec_parent(path@) is None,
        },
{
    let len = path.unicode_len();
    let mut i: usize = len;
    while i > 0
        invariant
            len == path@.len(),
            i <= len,
            forall|j: int| i <= j < len ==> path@[j] != '/',
        decreases i,
    {
        i -= 1;
        if path.get_char(i) == '/' {
            proof {
                lemma_last_slash_exists(path@);
                assert(last_slash(path@) == i);
            }
            if i == 0 {
                if len > 1 {
                    proof {
                        reveal_strlit("/");
                    }
                    let res = String::from_str("/");
                    proof {
                        assert(res@ =~= seq!['/']);
                    }
                    return Some(res);
                } else {
                    return None;
                }
            }
            return Some(String::from_str(path.substring_char(0, i)));
        }
    }
    proof {
        assert(forall|j: int| 0 <= j < path@.len() ==> path@[j] != '/');
    }
    None
}

} // verus!
