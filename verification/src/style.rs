//! Colors, visual styles and the cells that refer to them.

use vstd::prelude::*;
use crate::flags::{Attributes, CellFlags};

verus! {

/// A foreground, background or underline color.
#[derive(Debug, Clone, Copy, PartialEq, Eq, Structural)]
pub enum Color {
    /// The terminal's own default color, distinct from every palette entry,
    /// black included.
    Default,
    /// An index into the active palette.
    Palette(u8),
    /// A 24-bit color: red, green, blue.
    RGB(u8, u8, u8),
}

/// A complete visual styling. Cells share styles by index into the
/// document's style table; two styles are the same style exactly when every
/// field matches.
#[derive(Debug, Clone, PartialEq, Eq, Structural)]
pub struct Style {
    pub fg: Color,
    pub bg: Color,
    /// Color of the underline, which may differ from `fg`.
    pub underline_color: Option<Color>,
    pub attributes: Attributes,
    /// Identifier into a link table kept outside the document.
    pub hyperlink: Option<u32>,
}

/// One position of the grid: a glyph, a style reference and layout flags.
#[derive(Debug, Clone, Copy, PartialEq, Eq, Structural)]
pub struct Cell {
    /// A Unicode scalar value or an 8-bit character code. Where the glyph
    /// takes several codepoints this holds the primary one and the document's
    /// grapheme map holds the full sequence.
    pub char: u32,
    /// Index into the document's style table.
    pub style_id: u16,
    pub flags: CellFlags,
}

/// The style every document starts with, at index 0 of its style table:
/// palette color 7 on palette color 0, nothing else set.
pub open spec fn default_style() -> Style {
    Style {
        fg: Color::Palette(7),
        bg: Color::Palette(0),
        underline_color: None,
        attributes: Attributes { bits: 0 },
        hyperlink: None,
    }
}

/// The cell every position of a new document holds: a space in the default
/// style with no flag raised.
pub open spec fn default_cell() -> Cell {
    Cell { char: 0x20, style_id: 0, flags: CellFlags { bits: 0 } }
}

} // verus!
