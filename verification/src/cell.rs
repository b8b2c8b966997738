//! The cell model: one grid position is either blank or holds a glyph.

use vstd::prelude::*;
use vstd::string::StrSliceExecFns;

verus! {

/// The characters a glyph is drawn from.
pub const CHARSET: &'static str = "ABCDEFGHIJKLMNOPQRSTUVWXYZabcdefghijklmnopqrstuvwxyz0123456789)(}{][*&^%$#@!~";

/// Number of characters in [`CHARSET`].
pub const CHARSET_LEN: usize = 77;

/// A glyph: its text, and whether it is the bright head of a stream.
#[derive(Clone, Debug, PartialEq, Eq)]
pub struct Sym {
    pub value: String,
    pub white: bool,
}

/// One grid position.
#[derive(Clone, Debug, PartialEq, Eq)]
pub enum Cell {
    Sym(Sym),
    Whitespace,
}

/// What a cell is, as a mathematical value.
pub enum CellView {
    Blank,
    Glyph { value: Seq<char>, leading: bool },
}

impl CellView {
    /// A glyph that is the head of a stream.
    pub open spec fn is_leading(self) -> bool {
        self matches CellView::Glyph { leading, .. } && leading
    }

    /// A glyph behind the head.
    pub open spec fn is_trailing(self) -> bool {
        self matches CellView::Glyph { leading, .. } && !leading
    }

    /// The glyph that shows the single character `c`.
    pub open spec fn glyph(c: char, leading: bool) -> CellView {
        CellView::Glyph { value: seq![c], leading }
    }
}

impl View for Cell {
    type V = CellView;

    open spec fn view(&self) -> CellView {
        match self {
            Cell::Sym(sym) => CellView::Glyph { value: sym.value@, leading: sym.white },
            Cell::Whitespace => CellView::Blank,
        }
    }
}

/// `c` is one of the characters of [`CHARSET`].
pub open spec fn is_glyph_char(c: char) -> bool {
    exists|i: int| 0 <= i < CHARSET@.len() && CHARSET@[i] == c
}

/// [`CHARSET`] holds [`CHARSET_LEN`] characters, all of them ASCII.
pub proof fn lemma_charset()
    ensures
        CHARSET@.len() == CHARSET_LEN,
        CHARSET.is_ascii(),
{
    reveal_strlit("ABCDEFGHIJKLMNOPQRSTUVWXYZabcdefghijklmnopqrstuvwxyz0123456789)(}{][*&^%$#@!~");
}

impl Cell {
    /// A glyph that shows the character of [`CHARSET`] at position `draw`.
    pub fn glyph(draw: usize, white: bool) -> (cell: Cell)
        requires
            draw < CHARSET_LEN,
        ensures
            cell@ == CellView::glyph(CHARSET@[draw as int], white),
    {
        proof {
            lemma_charset();
        }
        let value = CHARSET.substring_ascii(draw, draw + 1).to_owned();
        assert(value@ =~= seq![CHARSET@[draw as int]]);
        Cell::Sym(Sym { value, white })
    }

    /// Whether the cell holds the head of a stream.
    pub fn is_leading(&self) -> (b: bool)
        ensures
            b == self@.is_leading(),
    {
        match self {
            Cell::Sym(sym) => sym.white,
            Cell::Whitespace => false,
        }
    }

    /// Whether the cell is blank.
    pub fn is_blank(&self) -> (b: bool)
        ensures
            b == (self@ is Blank),
    {
        match self {
            Cell::Sym(_) => false,
            Cell::Whitespace => true,
        }
    }
}

} // verus!
