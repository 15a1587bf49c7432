//! One directory entry as the browser sees it: plain values read from
//! the filesystem by the surrounding process, plus the derived pieces —
//! the permission triplets and the lowercased extension — computed here.

use vstd::prelude::*;
use crate::strutil::lower_of;
use crate::strutil::lowercase;
use crate::strutil::push_char;

verus! {

#[derive(Debug, Clone, Copy, PartialEq, Eq, Structural)]
pub enum FileType {
    File,
    Directory,
    Symlink,
}

/// One listed entry.  `modified` is seconds since the epoch; `size` is
/// bytes; `permissions` is the nine-character triplet rendering.
#[derive(Debug)]
pub struct FileEntry {
    pub path: String,
    pub name: String,
    pub file_type: FileType,
    pub size: u64,
    pub modified: u64,
    pub permissions: String,
    pub is_hidden: bool,
}

/// The mathematical value of an entry.
#[verifier::ext_equal]
pub struct FileEntryV {
    pub path: Seq<char>,
    pub name: Seq<char>,
    pub file_type: FileType,
    pub size: nat,
    pub modified: nat,
    pub permissions: Seq<char>,
    pub is_hidden: bool,
}

impl View for FileEntry {
    type V = FileEntryV;

    open spec fn view(&self) -> FileEntryV {
        FileEntryV {
            path: self.path@,
            name: self.name@,
            file_type: self.file_type,
            size: self.size as nat,
            modified: self.modified as nat,
            permissions: self.permissions@,
            is_hidden: self.is_hidden,
        }
    }
}

impl Clone for FileEntry {
    fn clone(&self) -> (r: Self)
        ensures
            r@ == self@,
    {
        let r = FileEntry {
            path: self.path.clone(),
            name: self.name.clone(),
            file_type: self.file_type,
            size: self.size,
            modified: self.modified,
            permissions: self.permissions.clone(),
            is_hidden: self.is_hidden,
        };
        proof {
            assert(r@ =~= self@);
        }
        r
    }
}

/// The position `i` holds the dot that starts `path`'s extension: a dot
/// not at the start of the file name, with nothing but extension text
/// after it.
pub open spec fn is_ext_dot(path: Seq<char>, i: int) -> bool {
    &&& 0 < i < path.len()
    &&& path[i] == '.'
    &&& path[i - 1] != '/'
    &&& forall|j: int| i < j < path.len() ==> path[j] != '.' && path[j] != '/'
}

impl FileEntry {
    /// The entry's file extension, lowercased: the text after the final
    /// dot of the file name, provided that dot neither starts the name
    /// nor is missing.
    pub fn extension(&self) -> (r: Option<String>)
        ensures
            match r {
                Some(e) => exists|i: int|
                    #[trigger] is_ext_dot(self.path@, i) && e@ == lower_of(
                        self.path@.subrange(i + 1, self.path@.len() as int),
                    ),
                None => forall|i: int| !is_ext_dot(self.path@, i),
            },
    {
        let len = self.path.unicode_len();
        let mut i: usize = len;
        while i > 0
            invariant
                len == self.path@.len(),
                i <= len,
                forall|j: int| i <= j < len ==> self.path@[j] != '.' && self.path@[j] != '/',
            decreases i,
        {
            i -= 1;
            let c = self.path.get_char(i);
            if c == '/' {
                proof {
                    assert(forall|k: int| !is_ext_dot(self.path@, k));
                }
                return None;
            }
            if c == '.' {
                if i == 0 || self.path.get_char(i - 1) == '/' {
                    proof {
                        assert(forall|k: int| !is_ext_dot(self.path@, k));
                    }
                    return None;
                }
                let raw = self.path.substring_char(i + 1, len);
                let e = lowercase(raw);
                proof {
                    assert(is_ext_dot(self.path@, i as int));
                }
                return Some(e);
            }
        }
        proof {
            assert(forall|k: int| !is_ext_dot(self.path@, k));
        }
        None
    }
}

/// One permission triplet: a letter for each bit that is set in `mode`,
/// a dash for each that is not.
pub open spec fn spec_triplet(mode: u32, read: u32, write: u32, execute: u32) -> Seq<char> {
    seq![
        if mode & read != 0 {
            'r'
        } else {
            '-'
        },
        if mode & write != 0 {
            'w'
        } else {
            '-'
        },
        if mode & execute != 0 {
            'x'
        } else {
            '-'
        },
    ]
}

pub fn triplet(mode: u32, read: u32, write: u32, execute: u32) -> (r: String)
    ensures
        r@ == spec_triplet(mode, read, write, execute),
{
    let mut r = String::new();
    if mode & read != 0 {
        push_char(&mut r, 'r');
    } else {
        push_char(&mut r, '-');
    }
    if mode & write != 0 {
        push_char(&mut r, 'w');
    } else {
        push_char(&mut r, '-');
    }
    if mode & execute != 0 {
        push_char(&mut r, 'x');
    } else {
        push_char(&mut r, '-');
    }
    proof {
        assert(r@ =~= spec_triplet(mode, read, write, execute));
    }
    r
}

/// The nine-character permission rendering of a raw mode word, one
/// triplet each for user, group and other.
pub open spec fn spec_permissions(mode: u32) -> Seq<char> {
    spec_triplet(mode, 0x40, 0x80, 0x100) + spec_triplet(mode, 0x8, 0x10, 0x20) + spec_triplet(
        mode,
        0x1,
        0x2,
        0x4,
    )
}

pub fn format_permissions(mode: u32) -> (r: String)
    ensures
        r@ == spec_permissions(mode),
{
    let mut r = triplet(mode, 0x40, 0x80, 0x100);
    let group = triplet(mode, 0x8, 0x10, 0x20);
    r.append(group.as_str());
    let other = triplet(mode, 0x1, 0x2, 0x4);
    r.append(other.as_str());
    r
}

} // verus!
