//! Precomputed indentation strings.
//!
//! An indentation string is `INDENT_UNIT` spaces for each level of offset,
//! followed by a glyph that tells what the printed line marks. Offsets at or
//! beyond `INDENT_CAP` all get the string of `INDENT_CAP`, so the strings are
//! bounded and looking one up never allocates.

use vstd::prelude::*;
use vstd::string::StrSliceExecFns;

verus! {

/// The largest offset with a string of its own.
pub const INDENT_CAP: usize = 30;

/// The number of spaces for one level of offset.
pub const INDENT_UNIT: usize = 4;

/// The symbol that ends an indentation string.
#[derive(Clone, Copy, Debug, PartialEq, Eq, Structural)]
pub enum Glyph {
    /// A plain line inside a function: a space.
    Offset,
    /// Entering a function: `→`.
    Enter,
    /// Exiting a function: `←`.
    Exit,
    /// Entering and exiting at once: `↔`.
    EnterExit,
}

/// The character that a glyph stands for.
pub open spec fn glyph_char(glyph: Glyph) -> char {
    match glyph {
        Glyph::Offset => ' ',
        Glyph::Enter => '→',
        Glyph::Exit => '←',
        Glyph::EnterExit => '↔',
    }
}

/// The indentation level used for `offset`: the offset, at most `INDENT_CAP`.
pub open spec fn clamped_level(offset: int) -> int {
    if offset < INDENT_CAP {
        offset
    } else {
        INDENT_CAP as int
    }
}

/// The indentation string for `offset` and `glyph`: `INDENT_UNIT` spaces per
/// level of the clamped offset, then the glyph's character.
pub open spec fn indent_text(offset: int, glyph: Glyph) -> Seq<char> {
    Seq::new((INDENT_UNIT * clamped_level(offset)) as nat, |i: int| ' ').push(glyph_char(glyph))
}

/// The string of `INDENT_CAP` levels for `glyph`; every shorter string is a
/// suffix of it.
fn glyph_row(glyph: Glyph) -> (row: &'static str)
    ensures
        row@ == indent_text(INDENT_CAP as int, glyph),
{
    match glyph {
        Glyph::Offset => {
            let row = "                                                                                                                         ";
            proof {
                reveal_strlit("                                                                                                                         ");
            }
            assert(row@ =~= indent_text(INDENT_CAP as int, glyph));
            row
        },
        Glyph::Enter => {
            let row = "                                                                                                                        →";
            proof {
                reveal_strlit("                                                                                                                        →");
            }
            assert(row@ =~= indent_text(INDENT_CAP as int, glyph));
            row
        },
        Glyph::Exit => {
            let row = "                                                                                                                        ←";
            proof {
                reveal_strlit("                                                                                                                        ←");
            }
            assert(row@ =~= indent_text(INDENT_CAP as int, glyph));
            row
        },
        Glyph::EnterExit => {
            let row = "                                                                                                                        ↔";
            proof {
                reveal_strlit("                                                                                                                        ↔");
            }
            assert(row@ =~= indent_text(INDENT_CAP as int, glyph));
            row
        },
    }
}

/// The indentation string for `offset` and `glyph`.
pub fn indent(offset: usize, glyph: Glyph) -> (s: &'static str)
    ensures
        s@ == indent_text(offset as int, glyph),
{
    let row = glyph_row(glyph);
    let level: usize = if offset < INDENT_CAP {
        offset
    } else {
        INDENT_CAP
    };
    let from: usize = INDENT_UNIT * (INDENT_CAP - level);
    let s = row.substring_char(from, INDENT_UNIT * INDENT_CAP + 1);
    assert(s@ =~= indent_text(offset as int, glyph));
    s
}

/// Every offset at or beyond `INDENT_CAP` has the same indentation string as
/// `INDENT_CAP` itself.
pub proof fn lemma_indent_clamped(offset: usize, glyph: Glyph)
    requires
        offset >= INDENT_CAP,
    ensures
        indent_text(offset as int, glyph) == indent_text(INDENT_CAP as int, glyph),
{
}

} // verus!
