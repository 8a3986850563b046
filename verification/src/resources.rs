//! Palette, font and authorship record carried beside the grid.
//!
//! These are plain containers: the document stores them and hands them back,
//! and checks nothing about their contents.

use vstd::prelude::*;
use crate::flags::SauceFlags;

verus! {

/// One palette entry.
#[derive(Debug, Clone, Copy, PartialEq, Eq, Structural)]
pub struct RGB {
    pub r: u8,
    pub g: u8,
    pub b: u8,
}

/// A palette given entry by entry, customarily 16 or 256 of them.
#[derive(Debug, Clone)]
pub struct Palette {
    pub colors: Vec<RGB>,
}

impl View for Palette {
    type V = Seq<RGB>;

    open spec fn view(&self) -> Seq<RGB> {
        self.colors@
    }
}

/// The palette a document's palette colors index into.
#[derive(Debug, Clone)]
pub enum PaletteType {
    ANSI,
    VGA,
    Workbench,
    Custom(Palette),
}

/// What a `PaletteType` holds.
pub enum PaletteTypeView {
    ANSI,
    VGA,
    Workbench,
    Custom(Seq<RGB>),
}

impl View for PaletteType {
    type V = PaletteTypeView;

    open spec fn view(&self) -> PaletteTypeView {
        match self {
            PaletteType::ANSI => PaletteTypeView::ANSI,
            PaletteType::VGA => PaletteTypeView::VGA,
            PaletteType::Workbench => PaletteTypeView::Workbench,
            PaletteType::Custom(palette) => PaletteTypeView::Custom(palette@),
        }
    }
}

/// A bitmap font shipped inside the document.
#[derive(Debug, Clone)]
pub struct BitmapFont {
    pub width: u8,
    pub height: u8,
    /// Number of glyphs, customarily 256 or 512.
    pub char_count: u16,
    /// The glyph bitmaps; their packing is up to the producer.
    pub data: Vec<u8>,
}

/// What a `BitmapFont` holds.
pub struct BitmapFontView {
    pub width: u8,
    pub height: u8,
    pub char_count: u16,
    pub data: Seq<u8>,
}

impl View for BitmapFont {
    type V = BitmapFontView;

    open spec fn view(&self) -> BitmapFontView {
        BitmapFontView {
            width: self.width,
            height: self.height,
            char_count: self.char_count,
            data: self.data@,
        }
    }
}

/// The font a document is meant to be shown in.
#[derive(Debug, Clone)]
pub struct FontInfo {
    /// Name of the font, such as `cp437`.
    pub id: Option<String>,
    /// Width of a glyph cell in pixels, 8 or 9.
    pub width: u8,
    /// Height of a glyph cell in pixels.
    pub height: u8,
    pub embedded: Option<BitmapFont>,
}

/// What a `FontInfo` holds.
pub struct FontInfoView {
    pub id: Option<Seq<char>>,
    pub width: u8,
    pub height: u8,
    pub embedded: Option<BitmapFontView>,
}

impl View for FontInfo {
    type V = FontInfoView;

    open spec fn view(&self) -> FontInfoView {
        FontInfoView {
            id: match self.id {
                Some(name) => Some(name@),
                None => None,
            },
            width: self.width,
            height: self.height,
            embedded: match self.embedded {
                Some(font) => Some(font@),
                None => None,
            },
        }
    }
}

/// An authorship and technical record as legacy text-art files carry it.
#[derive(Debug, Clone)]
pub struct SauceRecord {
    pub title: String,
    pub author: String,
    pub group: String,
    /// Calendar date as eight characters, `CCYYMMDD`.
    pub date: String,
    /// Declared width in columns.
    pub columns: u16,
    /// Declared height in rows.
    pub rows: u16,
    pub flags: SauceFlags,
    pub font_name: String,
    pub comments: Vec<String>,
}

/// What a `SauceRecord` holds.
pub struct SauceRecordView {
    pub title: Seq<char>,
    pub author: Seq<char>,
    pub group: Seq<char>,
    pub date: Seq<char>,
    pub columns: u16,
    pub rows: u16,
    pub flags: SauceFlags,
    pub font_name: Seq<char>,
    pub comments: Seq<Seq<char>>,
}

impl View for SauceRecord {
    type V = SauceRecordView;

    open spec fn view(&self) -> SauceRecordView {
        SauceRecordView {
            title: self.title@,
            author: self.author@,
            group: self.group@,
            date: self.date@,
            columns: self.columns,
            rows: self.rows,
            flags: self.flags,
            font_name: self.font_name@,
            comments: Seq::new(self.comments@.len(), |i: int| self.comments@[i]@),
        }
    }
}

/// The format a document was decoded from. It informs consumers and changes
/// nothing about how the document behaves.
#[derive(Debug, Clone, Copy, PartialEq, Eq, Structural)]
pub enum SourceFormat {
    ANSI,
    Binary,
    PCBoard,
    XBin,
    Tundra,
    ArtWorx,
    IceDraw,
    UTF8ANSI,
}

} // verus!
