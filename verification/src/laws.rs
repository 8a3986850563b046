//! What holds of every document, proved over the model that the
//! operations' contracts are stated in.

use vstd::prelude::*;
use crate::document::{
    is_slot, lemma_in_bounds_addressable, lemma_slot_of, lemma_slot_unique, Document,
};
use crate::style::{default_style, Cell, Style};

verus! {

/// A new document has one cell for each position of its grid, whatever the
/// dimensions, and meets both invariants.
pub proof fn law_blank_grid(width: nat, height: nat)
    ensures
        Document::blank(width, height).cells.len() == width * height,
        Document::blank(width, height).wf(),
        Document::blank(width, height).refs_resolved(),
{
}

/// A new document's style table holds the default style at index 0 and
/// nothing else.
pub proof fn law_blank_styles(width: nat, height: nat)
    ensures
        Document::blank(width, height).style_table.len() == 1,
        Document::blank(width, height).style_at(0) == Some(default_style()),
{
}

/// Reading a position after writing a cell to it gives that cell.
pub proof fn law_set_then_get(doc: Document, x: nat, y: nat, cell: Cell)
    requires
        doc.wf(),
        doc.in_bounds(x, y),
    ensures
        doc.with_cell(x, y, cell).cell_at(x, y) == Some(cell),
{
    lemma_in_bounds_addressable(doc, x, y);
}

/// Writing a cell changes what no other position holds.
pub proof fn law_set_keeps_others(doc: Document, x: nat, y: nat, cell: Cell, u: nat, v: nat)
    requires
        doc.wf(),
        u != x || v != y,
    ensures
        doc.with_cell(x, y, cell).cell_at(u, v) == doc.cell_at(u, v),
{
    if doc.addressable(x, y) && doc.addressable(u, v) {
        let w = doc.width;
        assert(v * w + u != y * w + x) by (nonlinear_arith)
            requires
                u < w,
                x < w,
                u != x || v != y,
        ;
    }
}

/// Outside the grid there is nothing to read, and writing changes nothing.
pub proof fn law_out_of_bounds(doc: Document, x: nat, y: nat, cell: Cell)
    requires
        x >= doc.width || y >= doc.height,
    ensures
        doc.cell_at(x, y) is None,
        !doc.addressable(x, y),
        doc.with_cell(x, y, cell) == doc,
{
}

/// Writing a cell keeps the grid in step with its dimensions and leaves the
/// style table alone.
pub proof fn law_set_keeps_invariants(doc: Document, x: nat, y: nat, cell: Cell)
    requires
        doc.wf(),
    ensures
        doc.with_cell(x, y, cell).wf(),
        doc.with_cell(x, y, cell).style_table == doc.style_table,
        doc.refs_resolved() && cell.style_id < doc.style_table.len() ==> doc.with_cell(
            x,
            y,
            cell,
        ).refs_resolved(),
{
}

/// Interning a style a second time returns the same identifier and leaves
/// the table as the first time left it: two calls grow the table by one
/// entry at most.
pub proof fn law_intern_idempotent(doc: Document, style: Style)
    ensures
        doc.with_style(style).with_style(style) == doc.with_style(style),
        doc.with_style(style).style_slot(style) == doc.style_slot(style),
        doc.with_style(style).style_id_for(style) == doc.style_id_for(style),
        doc.with_style(style).with_style(style).style_table.len() == if doc.style_table.contains(
            style,
        ) {
            doc.style_table.len()
        } else {
            doc.style_table.len() + 1
        },
{
    let once = doc.with_style(style);
    lemma_slot_of(doc.style_table, style);
    lemma_slot_of(once.style_table, style);
    let slot = doc.style_slot(style);
    if doc.style_table.contains(style) {
    } else {
        assert(once.style_table[doc.style_table.len() as int] == style);
        assert(is_slot(once.style_table, style, slot));
        lemma_slot_unique(once.style_table, style, slot, once.style_slot(style));
    }
}

/// Interning a style that the table lacks appends that one entry, and the
/// style's slot is the length the table had. Where that length fits the
/// sixteen bits of an identifier, it is the identifier.
pub proof fn law_intern_new(doc: Document, style: Style)
    requires
        !doc.style_table.contains(style),
    ensures
        doc.with_style(style).style_table == doc.style_table.push(style),
        doc.style_slot(style) == doc.style_table.len(),
        doc.style_table.len() <= u16::MAX ==> doc.style_id_for(style) == doc.style_table.len(),
{
    lemma_slot_of(doc.style_table, style);
}

/// Interning a style that the table holds changes nothing, and the style's
/// slot is the first index that holds it.
pub proof fn law_intern_known(doc: Document, style: Style)
    requires
        doc.style_table.contains(style),
    ensures
        doc.with_style(style) == doc,
        0 <= doc.style_slot(style) < doc.style_table.len(),
        doc.style_table[doc.style_slot(style)] == style,
        forall|j: int| 0 <= j < doc.style_slot(style) ==> doc.style_table[j] != style,
{
    lemma_slot_of(doc.style_table, style);
}

/// Interning keeps every style at its index, keeps the table free of
/// duplicates, and never shortens it.
pub proof fn law_intern_keeps_table(doc: Document, style: Style)
    requires
        doc.wf(),
    ensures
        doc.with_style(style).wf(),
        doc.with_style(style).style_table.len() >= doc.style_table.len(),
        forall|id: u16|
            doc.style_at(id) is Some ==> #[trigger] doc.with_style(style).style_at(id)
                == doc.style_at(id),
        doc.refs_resolved() ==> doc.with_style(style).refs_resolved(),
        doc.with_style(style).cells == doc.cells,
{
}

} // verus!
