//! The mathematical model of a document.
//!
//! Everything the executable document promises is stated over this model:
//! a grid of `width * height` cells in row-major order, and a table of
//! pairwise distinct styles that only ever grows at its end.

use vstd::prelude::*;
use crate::animation::FrameView;
use crate::resources::{FontInfoView, PaletteTypeView, SauceRecordView, SourceFormat};
use crate::style::{default_cell, default_style, Cell, Style};

verus! {

/// What a document holds.
#[verifier::ext_equal]
pub struct Document {
    pub version: Seq<char>,
    pub width: nat,
    pub height: nat,
    /// The grid, row after row.
    pub cells: Seq<Cell>,
    pub style_table: Seq<Style>,
    /// Full codepoint sequences of multi-codepoint glyphs, keyed by the
    /// linear index of their cell.
    pub grapheme_map: Map<u32, Seq<u32>>,
    pub palette: PaletteTypeView,
    pub font: FontInfoView,
    pub sauce: Option<SauceRecordView>,
    pub source_format: SourceFormat,
    pub ice_colors: bool,
    pub letter_spacing: u8,
    pub aspect_ratio: Option<u32>,
    pub frames: Option<Seq<FrameView>>,
}

/// Whether `slot` is the place of `style` in `table`: the first index that
/// holds an equal style, or the table's length if no index does.
pub open spec fn is_slot(table: Seq<Style>, style: Style, slot: int) -> bool {
    &&& 0 <= slot <= table.len()
    &&& forall|j: int| 0 <= j < slot ==> table[j] != style
    &&& slot < table.len() ==> table[slot] == style
}

/// The one slot of `style` in `table`.
pub open spec fn slot_of(table: Seq<Style>, style: Style) -> int {
    choose|slot: int| is_slot(table, style, slot)
}

/// Every style has a slot in every table.
pub proof fn lemma_slot_of(table: Seq<Style>, style: Style)
    ensures
        is_slot(table, style, slot_of(table, style)),
{
    table.index_of_first_ensures(style);
    match table.index_of_first(style) {
        Some(index) => {
            assert(is_slot(table, style, index));
        },
        None => {
            assert(is_slot(table, style, table.len() as int));
        },
    }
}

/// A style has no more than one slot in a table.
pub proof fn lemma_slot_unique(table: Seq<Style>, style: Style, a: int, b: int)
    requires
        is_slot(table, style, a),
        is_slot(table, style, b),
    ensures
        a == b,
{
}

impl Document {
    /// The document a constructor yields: every cell the default cell, the
    /// default style alone in the table, and the stock resources.
    pub open spec fn blank(width: nat, height: nat) -> Document {
        Document {
            version: "0.1.0"@,
            width,
            height,
            cells: Seq::new(width * height, |i: int| default_cell()),
            style_table: seq![default_style()],
            grapheme_map: Map::empty(),
            palette: PaletteTypeView::ANSI,
            font: FontInfoView { id: Some("cp437"@), width: 8, height: 16, embedded: None },
            sauce: None,
            source_format: SourceFormat::ANSI,
            ice_colors: false,
            letter_spacing: 8,
            aspect_ratio: None,
            frames: None,
        }
    }

    /// The grid has one cell per position, and the style table starts with
    /// the default style and holds no style twice.
    pub open spec fn wf(self) -> bool {
        &&& self.cells.len() == self.width * self.height
        &&& self.style_table.len() >= 1
        &&& self.style_table[0] == default_style()
        &&& self.style_table.no_duplicates()
    }

    /// Every cell refers to a style that the table holds.
    pub open spec fn refs_resolved(self) -> bool {
        forall|i: int|
            0 <= i < self.cells.len() ==> (#[trigger] self.cells[i]).style_id
                < self.style_table.len()
    }

    /// Whether `(x, y)` names a position of the grid.
    pub open spec fn in_bounds(self, x: nat, y: nat) -> bool {
        x < self.width && y < self.height
    }

    /// Where the cell at `(x, y)` stands in `cells`.
    pub open spec fn linear_index(self, x: nat, y: nat) -> int {
        (y * self.width + x) as int
    }

    /// Whether `(x, y)` is in bounds and `cells` reaches that far, as it
    /// always does in a well-formed document.
    pub open spec fn addressable(self, x: nat, y: nat) -> bool {
        self.in_bounds(x, y) && self.linear_index(x, y) < self.cells.len()
    }

    /// The cell at `(x, y)`, if there is one.
    pub open spec fn cell_at(self, x: nat, y: nat) -> Option<Cell> {
        if self.addressable(x, y) {
            Some(self.cells[self.linear_index(x, y)])
        } else {
            None
        }
    }

    /// The document with the cell at `(x, y)` overwritten, or unchanged if
    /// there is no such cell.
    pub open spec fn with_cell(self, x: nat, y: nat, cell: Cell) -> Document {
        if self.addressable(x, y) {
            Document { cells: self.cells.update(self.linear_index(x, y), cell), ..self }
        } else {
            self
        }
    }

    /// The style at index `id`, if the table reaches that far.
    pub open spec fn style_at(self, id: u16) -> Option<Style> {
        if id < self.style_table.len() {
            Some(self.style_table[id as int])
        } else {
            None
        }
    }

    /// The index at which `style` stands once it is interned: where it
    /// already is, or the end of the table.
    pub open spec fn style_slot(self, style: Style) -> int {
        slot_of(self.style_table, style)
    }

    /// The identifier handed out for `style`: its slot, as far as sixteen
    /// bits hold it. Slots from 65536 on wrap around.
    pub open spec fn style_id_for(self, style: Style) -> u16 {
        (self.style_slot(style) % 0x1_0000) as u16
    }

    /// The document with `style` interned: appended if the table lacks it,
    /// unchanged otherwise.
    pub open spec fn with_style(self, style: Style) -> Document {
        if self.style_table.contains(style) {
            self
        } else {
            Document { style_table: self.style_table.push(style), ..self }
        }
    }
}

/// In a well-formed document every position in bounds has its cell.
pub proof fn lemma_in_bounds_addressable(doc: Document, x: nat, y: nat)
    requires
        doc.wf(),
        doc.in_bounds(x, y),
    ensures
        doc.addressable(x, y),
{
    assert(y * doc.width + x < doc.width * doc.height) by (nonlinear_arith)
        requires
            x < doc.width,
            y < doc.height,
    ;
}

} // verus!
