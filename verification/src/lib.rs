//! Cell-grid intermediate representation for text-art documents.
//!
//! A document is a row-major grid of cells, a table of the styles those cells
//! refer to by index, and the resources that travel with them: palette, font,
//! authorship record, and an optional log of animation frames.

pub mod animation;
pub mod document;
pub mod flags;
pub mod ir;
pub mod laws;
pub mod resources;
pub mod style;

pub use animation::{Frame, FrameView, Operation, OperationView};
pub use document::Document;
pub use flags::{Attributes, CellFlags, SauceFlags};
pub use ir::AnsilustIR;
pub use resources::{
    BitmapFont, BitmapFontView, FontInfo, FontInfoView, Palette, PaletteType, PaletteTypeView,
    SauceRecord, SauceRecordView, SourceFormat, RGB,
};
pub use style::{default_cell, default_style, Cell, Color, Style};
