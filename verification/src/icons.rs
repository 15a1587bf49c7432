//! The glyph and colour shown beside each entry in the browser's
//! listing.
//!
//! The colour is picked by entry kind and extension.  The glyph table
//! distinguishes directories, symlinks and plain files, but every kind
//! in the shipped table maps to the empty glyph, so that rendering is
//! pinned to the empty string for every entry.

use vstd::prelude::*;
use crate::file_entry::FileEntry;
use crate::file_entry::FileType;
use crate::strutil::str_eq;

verus! {

/// The colour an entry is listed in, named abstractly; the terminal
/// layer maps each name to its rendering.
#[derive(Clone, Copy, Debug, PartialEq, Eq, Structural)]
pub enum ColorName {
    Blue,
    Cyan,
    Yellow,
    Green,
    White,
    Magenta,
    Red,
}

/// The colour for a plain file with the given lowercased extension.
pub open spec fn spec_file_color(e: Seq<char>) -> ColorName {
    if e == "rs"@ || e == "go"@ || e == "c"@ || e == "cpp"@ || e == "java"@ || e == "py"@ || e
        == "js"@ || e == "ts"@ {
        ColorName::Yellow
    } else if e == "sh"@ || e == "bash"@ || e == "zsh"@ || e == "fish"@ || e == "ps1"@ {
        ColorName::Green
    } else if e == "md"@ || e == "txt"@ || e == "pdf"@ || e == "doc"@ || e == "docx"@ {
        ColorName::White
    } else if e == "jpg"@ || e == "jpeg"@ || e == "png"@ || e == "gif"@ || e == "bmp"@ || e
        == "svg"@ {
        ColorName::Magenta
    } else if e == "mp4"@ || e == "mkv"@ || e == "avi"@ || e == "mov"@ {
        ColorName::Magenta
    } else if e == "mp3"@ || e == "wav"@ || e == "flac"@ {
        ColorName::Magenta
    } else if e == "zip"@ || e == "tar"@ || e == "gz"@ || e == "7z"@ || e == "rar"@ {
        ColorName::Red
    } else {
        ColorName::White
    }
}

/// The colour for an entry of the given kind and lowercased extension:
/// directories blue, symlinks cyan, files by extension.
pub open spec fn spec_color_name(file_type: FileType, ext: Option<Seq<char>>) -> ColorName {
    match file_type {
        FileType::Directory => ColorName::Blue,
        FileType::Symlink => ColorName::Cyan,
        FileType::File => match ext {
            Some(e) => spec_file_color(e),
            None => ColorName::White,
        },
    }
}

/// Picks the listing colour from an entry's kind and extension.
pub fn color_name_for(file_type: FileType, ext: Option<&String>) -> (r: ColorName)
    ensures
        r == spec_color_name(
            file_type,
            match ext {
                Some(e) => Some(e@),
                None => None,
            },
        ),
{
    match file_type {
        FileType::Directory => ColorName::Blue,
        FileType::Symlink => ColorName::Cyan,
        FileType::File => match ext {
            Some(ext) => {
                let e = ext.as_str();
                if str_eq(e, "rs") || str_eq(e, "go") || str_eq(e, "c") || str_eq(e, "cpp")
                    || str_eq(e, "java") || str_eq(e, "py") || str_eq(e, "js") || str_eq(
                    e,
                    "ts",
                ) {
                    ColorName::Yellow
                } else if str_eq(e, "sh") || str_eq(e, "bash") || str_eq(e, "zsh") || str_eq(
                    e,
                    "fish",
                ) || str_eq(e, "ps1") {
                    ColorName::Green
                } else if str_eq(e, "md") || str_eq(e, "txt") || str_eq(e, "pdf") || str_eq(
                    e,
                    "doc",
                ) || str_eq(e, "docx") {
                    ColorName::White
                } else if str_eq(e, "jpg") || str_eq(e, "jpeg") || str_eq(e, "png") || str_eq(
                    e,
                    "gif",
                ) || str_eq(e, "bmp") || str_eq(e, "svg") {
                    ColorName::Magenta
                } else if str_eq(e, "mp4") || str_eq(e, "mkv") || str_eq(e, "avi") || str_eq(
                    e,
                    "mov",
                ) {
                    ColorName::Magenta
                } else if str_eq(e, "mp3") || str_eq(e, "wav") || str_eq(e, "flac") {
                    ColorName::Magenta
                } else if str_eq(e, "zip") || str_eq(e, "tar") || str_eq(e, "gz") || str_eq(
                    e,
                    "7z",
                ) || str_eq(e, "rar") {
                    ColorName::Red
                } else {
                    ColorName::White
                }
            },
            None => ColorName::White,
        },
    }
}

pub struct Icons;

impl Icons {
    /// The glyph for one entry; empty for every kind in this table.
    pub fn get_icon(entry: &FileEntry) -> (r: &'static str)
        ensures
            r@ == Seq::<char>::empty(),
    {
        proof {
            reveal_strlit("");
        }
        let r = match entry.file_type {
            FileType::Directory => "",
            FileType::Symlink => "",
            FileType::File => Self::get_file_icon(entry),
        };
        proof {
            assert(r@ =~= Seq::<char>::empty());
        }
        r
    }

    /// The glyph for a plain file; empty for every extension and
    /// special name in this table.
    pub fn get_file_icon(entry: &FileEntry) -> (r: &'static str)
        ensures
            r@ == Seq::<char>::empty(),
    {
        proof {
            reveal_strlit("");
        }
        let r = "";
        proof {
            assert(r@ =~= Seq::<char>::empty());
        }
        r
    }
}

} // verus!
