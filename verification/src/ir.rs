//! The document itself: the cell grid, the style table and what travels
//! with them.

use std::collections::HashMap;
use vstd::prelude::*;
use crate::animation::Frame;
use crate::document::{
    is_slot, lemma_in_bounds_addressable, lemma_slot_of, lemma_slot_unique, Document,
};
use crate::flags::{Attributes, CellFlags};
use crate::resources::{FontInfo, PaletteType, SauceRecord, SourceFormat};
use crate::style::{Cell, Color, Style};

verus! {

/// A text-art document.
///
/// The fields are open to the decoders and encoders that fill and read a
/// document. Cells are meant to be read and written through `get_cell` and
/// `set_cell`, and styles to be added through `add_style`: those keep the
/// grid in step with its dimensions and the style table free of duplicates.
#[derive(Debug, Clone)]
pub struct AnsilustIR {
    /// Version of the representation.
    pub version: String,
    pub width: u32,
    pub height: u32,
    /// The grid, row after row, `width * height` cells in all.
    pub cells: Vec<Cell>,
    /// The styles that cells refer to by index. Index 0 is the default style.
    pub style_table: Vec<Style>,
    /// Full codepoint sequences of multi-codepoint glyphs, keyed by the
    /// linear index of their cell. Overwriting a cell leaves its entry here
    /// as it is.
    pub grapheme_map: HashMap<u32, Vec<u32>>,
    pub palette: PaletteType,
    pub font: FontInfo,
    pub sauce: Option<SauceRecord>,
    pub source_format: SourceFormat,
    /// Background intensity replaces blinking.
    pub ice_colors: bool,
    /// Width of a glyph cell in pixels, 8 or 9.
    pub letter_spacing: u8,
    /// Height of a pixel relative to its width, as the bit pattern of an
    /// IEEE 754 single-precision number.
    pub aspect_ratio: Option<u32>,
    pub frames: Option<Vec<Frame>>,
}

impl View for AnsilustIR {
    type V = Document;

    open spec fn view(&self) -> Document {
        Document {
            version: self.version@,
            width: self.width as nat,
            height: self.height as nat,
            cells: self.cells@,
            style_table: self.style_table@,
            grapheme_map: self.grapheme_map@.map_values(|codepoints: Vec<u32>| codepoints@),
            palette: self.palette@,
            font: self.font@,
            sauce: match self.sauce {
                Some(record) => Some(record@),
                None => None,
            },
            source_format: self.source_format,
            ice_colors: self.ice_colors,
            letter_spacing: self.letter_spacing,
            aspect_ratio: self.aspect_ratio,
            frames: match self.frames {
                Some(frames) => Some(Seq::new(frames@.len(), |i: int| frames@[i]@)),
                None => None,
            },
        }
    }
}

impl AnsilustIR {
    /// A document of the given dimensions, every cell blank in the default
    /// style. Either dimension may be 0, which gives an empty canvas.
    pub fn new(width: u32, height: u32) -> (ir: AnsilustIR)
        requires
            width * height <= usize::MAX,
        ensures
            ir@ == Document::blank(width as nat, height as nat),
            ir.cells@.len() == width * height,
            ir.style_table@.len() == 1,
            ir@.wf(),
            ir@.refs_resolved(),
    {
        let size: usize = (width as usize) * (height as usize);
        let blank = Cell { char: 0x20, style_id: 0, flags: CellFlags::empty() };
        let base = Style {
            fg: Color::Palette(7),
            bg: Color::Palette(0),
            underline_color: None,
            attributes: Attributes::empty(),
            hyperlink: None,
        };
        let ir = AnsilustIR {
            version: "0.1.0".to_string(),
            width,
            height,
            cells: vec![blank; size],
            style_table: vec![base],
            grapheme_map: HashMap::new(),
            palette: PaletteType::ANSI,
            font: FontInfo { id: Some("cp437".to_string()), width: 8, height: 16, embedded: None },
            sauce: None,
            source_format: SourceFormat::ANSI,
            ice_colors: false,
            letter_spacing: 8,
            aspect_ratio: None,
            frames: None,
        };
        proof {
            let model = Document::blank(width as nat, height as nat);
            assert(ir@.cells =~= model.cells);
            assert(ir@.style_table =~= model.style_table);
            assert(ir@.grapheme_map =~= model.grapheme_map);
            assert(ir@.font == model.font);
            assert(ir@ =~= model);
        }
        ir
    }

    /// Where the cell at `(x, y)` stands in `cells`, if the grid has that
    /// position. The index is worked out in 64 bits, which hold it for any
    /// coordinates.
    fn index_of(&self, x: u32, y: u32) -> (index: Option<usize>)
        ensures
            index is Some <==> self@.addressable(x as nat, y as nat),
            index matches Some(i) ==> i == self@.linear_index(x as nat, y as nat),
    {
        if x >= self.width || y >= self.height {
            return None;
        }
        assert(y * self.width + x <= u64::MAX) by (nonlinear_arith)
            requires
                x <= u32::MAX,
                y <= u32::MAX,
                self.width <= u32::MAX,
        ;
        let index: u64 = (y as u64) * (self.width as u64) + (x as u64);
        if index >= self.cells.len() as u64 {
            return None;
        }
        Some(index as usize)
    }

    /// The cell at `(x, y)`, or `None` where the grid has no such position.
    pub fn get_cell(&self, x: u32, y: u32) -> (found: Option<&Cell>)
        ensures
            match found {
                Some(cell) => self@.cell_at(x as nat, y as nat) == Some(*cell),
                None => self@.cell_at(x as nat, y as nat) is None,
            },
            x >= self.width || y >= self.height ==> found is None,
            self@.wf() && x < self.width && y < self.height ==> found is Some,
    {
        proof {
            if self@.wf() && self@.in_bounds(x as nat, y as nat) {
                lemma_in_bounds_addressable(self@, x as nat, y as nat);
            }
        }
        match self.index_of(x, y) {
            Some(index) => Some(&self.cells[index]),
            None => None,
        }
    }

    /// Overwrites the cell at `(x, y)` and returns `true`; where the grid
    /// has no such position, changes nothing and returns `false`.
    pub fn set_cell(&mut self, x: u32, y: u32, cell: Cell) -> (written: bool)
        ensures
            written == old(self)@.addressable(x as nat, y as nat),
            final(self)@ == old(self)@.with_cell(x as nat, y as nat, cell),
            x >= old(self).width || y >= old(self).height ==> {
                &&& !written
                &&& final(self)@ == old(self)@
            },
            old(self)@.wf() ==> final(self)@.wf(),
            old(self)@.wf() && x < old(self).width && y < old(self).height ==> written,
            old(self)@.refs_resolved() && cell.style_id < old(self).style_table@.len()
                ==> final(self)@.refs_resolved(),
    {
        proof {
            if self@.wf() && self@.in_bounds(x as nat, y as nat) {
                lemma_in_bounds_addressable(self@, x as nat, y as nat);
            }
        }
        match self.index_of(x, y) {
            Some(index) => {
                self.cells.set(index, cell);
                assert(self@ =~= old(self)@.with_cell(x as nat, y as nat, cell));
                true
            },
            None => false,
        }
    }

    /// The style at index `style_id`, or `None` where the table ends before it.
    pub fn get_style(&self, style_id: u16) -> (found: Option<&Style>)
        ensures
            match found {
                Some(style) => self@.style_at(style_id) == Some(*style),
                None => self@.style_at(style_id) is None,
            },
    {
        if (style_id as usize) < self.style_table.len() {
            Some(&self.style_table[style_id as usize])
        } else {
            None
        }
    }

    /// Interns `style` and returns its identifier: the index of the first
    /// equal style if the table holds one, else the index at which `style`
    /// is appended. The table never holds two equal styles on account of
    /// this, and what it holds stays where it is.
    ///
    /// An identifier has sixteen bits. A style whose index is 65536 or more
    /// gets that index modulo 65536.
    pub fn add_style(&mut self, style: Style) -> (id: u16)
        ensures
            final(self)@ == old(self)@.with_style(style),
            id == old(self)@.style_id_for(style),
            is_slot(old(self).style_table@, style, old(self)@.style_slot(style)),
            old(self)@.style_slot(style) <= u16::MAX ==> {
                &&& id == old(self)@.style_slot(style)
                &&& final(self)@.style_at(id) == Some(style)
            },
            old(self).style_table@.contains(style) ==> {
                &&& final(self).style_table@ == old(self).style_table@
                &&& old(self)@.style_slot(style) < old(self).style_table@.len()
            },
            !old(self).style_table@.contains(style) ==> {
                &&& final(self).style_table@ == old(self).style_table@.push(style)
                &&& old(self)@.style_slot(style) == old(self).style_table@.len()
            },
            old(self)@.wf() ==> final(self)@.wf(),
            old(self)@.refs_resolved() ==> final(self)@.refs_resolved(),
    {
        let count: usize = self.style_table.len();
        let mut index: usize = 0;
        while index < count
            invariant
                index <= count,
                count == self.style_table@.len(),
                *self == *old(self),
                forall|j: int| 0 <= j < index ==> self.style_table@[j] != style,
            decreases count - index,
        {
            if self.style_table[index] == style {
                proof {
                    assert(is_slot(self.style_table@, style, index as int));
                    lemma_slot_of(self.style_table@, style);
                    lemma_slot_unique(
                        self.style_table@,
                        style,
                        index as int,
                        self@.style_slot(style),
                    );
                    assert(index as u16 == index % 0x1_0000) by (bit_vector);
                }
                return #[verifier::truncate] (index as u16);
            }
            index += 1;
        }
        proof {
            assert(is_slot(self.style_table@, style, count as int));
            lemma_slot_of(self.style_table@, style);
            lemma_slot_unique(self.style_table@, style, count as int, self@.style_slot(style));
            assert(count as u16 == count % 0x1_0000) by (bit_vector);
        }
        self.style_table.push(style);
        proof {
            assert(self@ =~= old(self)@.with_style(style));
        }
        #[verifier::truncate] (count as u16)
    }
}

} // verus!
