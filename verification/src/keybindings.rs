//! The browser's key bindings: the help table and its line rendering.

use vstd::prelude::*;
use crate::strutil::push_char;

verus! {

pub struct KeyBindings;

/// The help entries, as (key, description) pairs in display order.
pub open spec fn spec_help_entries() -> Seq<(Seq<char>, Seq<char>)> {
    seq![
        ("j/\u{2193}"@, "Move down"@),
        ("k/\u{2191}"@, "Move up"@),
        ("h/\u{2190}"@, "Go to parent directory"@),
        ("l/\u{2192}"@, "Enter directory"@),
        ("g"@, "Go to top"@),
        ("G"@, "Go to bottom"@),
        ("/"@, "Search/filter"@),
        ("Space"@, "Select/multi-select"@),
        ("Enter"@, "Open file/directory"@),
        ("d"@, "Delete (with confirmation)"@),
        ("r"@, "Rename"@),
        ("c"@, "Copy"@),
        ("m"@, "Move"@),
        ("n"@, "New file/directory"@),
        ("."@, "Toggle hidden files"@),
        ("Tab"@, "Toggle preview pane"@),
        ("q/Esc"@, "Quit"@),
        ("Ctrl+c"@, "Force quit"@),
    ]
}

/// The number of characters a key label is padded to in a help line.
pub const KEY_COLUMN_WIDTH: usize = 12;

/// A help line: the key label padded to the column width, one space, and
/// the description.
pub open spec fn spec_key_binding_line(key: Seq<char>, description: Seq<char>) -> Seq<char> {
    key + spec_spaces(
        if key.len() < KEY_COLUMN_WIDTH as nat {
            (KEY_COLUMN_WIDTH as nat - key.len()) as nat
        } else {
            0
        },
    ) + seq![' '] + description
}

pub open spec fn spec_spaces(n: nat) -> Seq<char>
    decreases n,
{
    if n == 0 {
        Seq::empty()
    } else {
        spec_spaces((n - 1) as nat).push(' ')
    }
}

impl KeyBindings {
    /// The help table, in display order.
    pub fn get_help_text() -> (r: Vec<(&'static str, &'static str)>)
        ensures
            r@.map_values(|p: (&str, &str)| (p.0@, p.1@)) == spec_help_entries(),
    {
        let mut v: Vec<(&'static str, &'static str)> = Vec::new();
        v.push(("j/\u{2193}", "Move down"));
        v.push(("k/\u{2191}", "Move up"));
        v.push(("h/\u{2190}", "Go to parent directory"));
        v.push(("l/\u{2192}", "Enter directory"));
        v.push(("g", "Go to top"));
        v.push(("G", "Go to bottom"));
        v.push(("/", "Search/filter"));
        v.push(("Space", "Select/multi-select"));
        v.push(("Enter", "Open file/directory"));
        v.push(("d", "Delete (with confirmation)"));
        v.push(("r", "Rename"));
        v.push(("c", "Copy"));
        v.push(("m", "Move"));
        v.push(("n", "New file/directory"));
        v.push((".", "Toggle hidden files"));
        v.push(("Tab", "Toggle preview pane"));
        v.push(("q/Esc", "Quit"));
        v.push(("Ctrl+c", "Force quit"));
        proof {
            assert(v@.map_values(|p: (&str, &str)| (p.0@, p.1@)) =~= spec_help_entries());
        }
        v
    }

    /// Renders one help line, the key label padded to the column width.
    pub fn format_key_binding(key: &str, description: &str) -> (r: String)
        ensures
            r@ == spec_key_binding_line(key@, description@),
    {
        let mut out = String::from_str(key);
        let klen = key.unicode_len();
        let mut pad: usize = 0;
        let ghost want: nat = if key@.len() < KEY_COLUMN_WIDTH as nat {
            (KEY_COLUMN_WIDTH as nat - key@.len()) as nat
        } else {
            0
        };
        while klen + pad < KEY_COLUMN_WIDTH
            invariant
                klen == key@.len(),
                klen + pad <= KEY_COLUMN_WIDTH || pad == 0,
                want == (if key@.len() < KEY_COLUMN_WIDTH as nat {
                    (KEY_COLUMN_WIDTH as nat - key@.len()) as nat
                } else {
                    0nat
                }),
                pad <= want,
                out@ == key@ + spec_spaces(pad as nat),
            decreases KEY_COLUMN_WIDTH - klen - pad,
        {
            push_char(&mut out, ' ');
            pad += 1;
            proof {
                assert(out@ =~= key@ + spec_spaces(pad as nat));
            }
        }
        proof {
            assert(pad as nat == want);
        }
        push_char(&mut out, ' ');
        out.append(description);
        proof {
            assert(out@ =~= spec_key_binding_line(key@, description@));
        }
        out
    }
}

} // verus!
