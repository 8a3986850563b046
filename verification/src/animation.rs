//! The vocabulary of animated documents: timestamped frames of operations.
//!
//! A frame's operations apply in order to the grid the preceding frame left.
//! Only the shape of that log lives here; replaying it is a consumer's work.

use vstd::prelude::*;
use crate::resources::{PaletteType, PaletteTypeView};
use crate::style::Cell;

verus! {

/// One edit of the grid or the palette.
#[derive(Debug, Clone)]
pub enum Operation {
    /// Overwrites the cell at `(x, y)`.
    SetCell { x: u32, y: u32, cell: Cell },
    /// Sets every cell of the rectangle to `cell`.
    FillRect { x: u32, y: u32, w: u32, h: u32, cell: Cell },
    /// Shifts the rectangle's contents by `(dx, dy)`. What the vacated cells
    /// hold afterwards is for the consumer to decide.
    ScrollRect { x: u32, y: u32, w: u32, h: u32, dx: i32, dy: i32 },
    /// Replaces the active palette from here on.
    SetPalette { palette: PaletteType },
}

/// What an `Operation` holds.
pub enum OperationView {
    SetCell { x: u32, y: u32, cell: Cell },
    FillRect { x: u32, y: u32, w: u32, h: u32, cell: Cell },
    ScrollRect { x: u32, y: u32, w: u32, h: u32, dx: i32, dy: i32 },
    SetPalette { palette: PaletteTypeView },
}

impl View for Operation {
    type V = OperationView;

    open spec fn view(&self) -> OperationView {
        match self {
            Operation::SetCell { x, y, cell } => OperationView::SetCell {
                x: *x,
                y: *y,
                cell: *cell,
            },
            Operation::FillRect { x, y, w, h, cell } => OperationView::FillRect {
                x: *x,
                y: *y,
                w: *w,
                h: *h,
                cell: *cell,
            },
            Operation::ScrollRect { x, y, w, h, dx, dy } => OperationView::ScrollRect {
                x: *x,
                y: *y,
                w: *w,
                h: *h,
                dx: *dx,
                dy: *dy,
            },
            Operation::SetPalette { palette } => OperationView::SetPalette { palette: palette@ },
        }
    }
}

/// The operations that turn the preceding grid into this frame's grid.
#[derive(Debug, Clone)]
pub struct Frame {
    /// Milliseconds since the document's start.
    pub timestamp_ms: u32,
    pub operations: Vec<Operation>,
}

/// What a `Frame` holds.
pub struct FrameView {
    pub timestamp_ms: u32,
    pub operations: Seq<OperationView>,
}

impl View for Frame {
    type V = FrameView;

    open spec fn view(&self) -> FrameView {
        FrameView {
            timestamp_ms: self.timestamp_ms,
            operations: Seq::new(self.operations@.len(), |i: int| self.operations@[i]@),
        }
    }
}

} // verus!
