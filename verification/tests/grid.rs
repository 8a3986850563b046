use ansilust::{AnsilustIR, Cell, CellFlags, FontInfo, PaletteType, SourceFormat};

fn glyph(code: u32) -> Cell {
    Cell { char: code, style_id: 0, flags: CellFlags::empty() }
}

#[test]
fn new_allocates_width_times_height_cells() {
    let sizes: [(u32, u32); 7] = [(0, 0), (0, 5), (5, 0), (1, 1), (7, 3), (80, 25), (132, 60)];
    for (width, height) in sizes {
        let ir = AnsilustIR::new(width, height);
        assert_eq!(ir.width, width);
        assert_eq!(ir.height, height);
        assert_eq!(ir.cells.len(), (width as usize) * (height as usize));
    }
    assert_eq!(AnsilustIR::new(80, 25).cells.len(), 2000);
    assert_eq!(AnsilustIR::new(132, 60).cells.len(), 7920);
}

#[test]
fn new_holds_a_product_beyond_sixteen_bits() {
    let ir = AnsilustIR::new(1000, 1000);
    assert_eq!(ir.cells.len(), 1_000_000);
    assert_eq!(ir.get_cell(999, 999), Some(&glyph(0x20)));
    assert_eq!(ir.get_cell(1000, 999), None);
}

#[test]
fn new_fills_the_grid_with_blank_cells() {
    let ir = AnsilustIR::new(4, 3);
    let blank = Cell { char: b' ' as u32, style_id: 0, flags: CellFlags::empty() };
    assert_eq!(blank.char, 32);
    assert_eq!(blank.flags.bits(), 0);
    for cell in &ir.cells {
        assert_eq!(*cell, blank);
    }
    for y in 0..3 {
        for x in 0..4 {
            assert_eq!(ir.get_cell(x, y), Some(&blank));
        }
    }
}

#[test]
fn new_sets_the_stock_resources() {
    let ir = AnsilustIR::new(80, 25);
    assert_eq!(ir.version, "0.1.0");
    assert!(ir.grapheme_map.is_empty());
    assert!(matches!(ir.palette, PaletteType::ANSI));
    let FontInfo { id, width, height, embedded } = &ir.font;
    assert_eq!(id.as_deref(), Some("cp437"));
    assert_eq!(*width, 8);
    assert_eq!(*height, 16);
    assert!(embedded.is_none());
    assert!(ir.sauce.is_none());
    assert_eq!(ir.source_format, SourceFormat::ANSI);
    assert!(!ir.ice_colors);
    assert_eq!(ir.letter_spacing, 8);
    assert_eq!(ir.aspect_ratio, None);
    assert!(ir.frames.is_none());
}

#[test]
fn empty_canvas_has_no_cell() {
    let mut ir = AnsilustIR::new(0, 0);
    assert!(ir.cells.is_empty());
    assert_eq!(ir.get_cell(0, 0), None);
    assert!(!ir.set_cell(0, 0, glyph(65)));
    assert!(ir.cells.is_empty());

    let mut flat = AnsilustIR::new(5, 0);
    assert_eq!(flat.get_cell(0, 0), None);
    assert_eq!(flat.get_cell(4, 0), None);
    assert!(!flat.set_cell(2, 0, glyph(65)));

    let mut thin = AnsilustIR::new(0, 5);
    assert_eq!(thin.get_cell(0, 0), None);
    assert_eq!(thin.get_cell(0, 4), None);
    assert!(!thin.set_cell(0, 2, glyph(65)));
}

#[test]
fn set_then_get_returns_the_cell_exactly() {
    let mut ir = AnsilustIR::new(80, 25);
    let cell = Cell {
        char: 0x1F600,
        style_id: 0,
        flags: CellFlags::WIDE_CHAR() | CellFlags::PROTECTED(),
    };
    for (x, y) in [(0u32, 0u32), (79, 0), (0, 24), (79, 24), (40, 12)] {
        assert!(ir.set_cell(x, y, cell));
        assert_eq!(ir.get_cell(x, y), Some(&cell));
    }
}

#[test]
fn cells_are_stored_row_major() {
    let mut ir = AnsilustIR::new(5, 4);
    assert!(ir.set_cell(3, 2, glyph(65)));
    assert_eq!(ir.cells[2 * 5 + 3], glyph(65));
    assert_eq!(ir.cells[13].char, 65);
    for (index, cell) in ir.cells.iter().enumerate() {
        if index != 13 {
            assert_eq!(*cell, glyph(0x20));
        }
    }
    assert!(ir.set_cell(0, 1, glyph(66)));
    assert_eq!(ir.cells[5], glyph(66));
    assert!(ir.set_cell(4, 3, glyph(67)));
    assert_eq!(ir.cells[19], glyph(67));
    ir.cells[7] = glyph(68);
    assert_eq!(ir.get_cell(2, 1), Some(&glyph(68)));
}

#[test]
fn set_cell_leaves_other_positions_alone() {
    let mut ir = AnsilustIR::new(6, 6);
    assert!(ir.set_cell(2, 3, glyph(65)));
    for y in 0..6 {
        for x in 0..6 {
            let expected = if (x, y) == (2, 3) { glyph(65) } else { glyph(0x20) };
            assert_eq!(ir.get_cell(x, y), Some(&expected));
        }
    }
    // The neighbours in the flat sequence are cells of their own.
    assert_eq!(ir.get_cell(3, 2), Some(&glyph(0x20)));
    assert_eq!(ir.get_cell(1, 3), Some(&glyph(0x20)));
    assert_eq!(ir.get_cell(3, 3), Some(&glyph(0x20)));
}

#[test]
fn out_of_bounds_reads_nothing_and_writes_nothing() {
    let mut ir = AnsilustIR::new(80, 25);
    assert!(ir.set_cell(79, 24, glyph(65)));
    let before = ir.cells.clone();
    let outside: [(u32, u32); 8] = [
        (80, 0),
        (0, 25),
        (80, 25),
        (80, 24),
        (79, 25),
        (100, 100),
        (u32::MAX, 0),
        (u32::MAX, u32::MAX),
    ];
    for (x, y) in outside {
        assert_eq!(ir.get_cell(x, y), None);
        assert!(!ir.set_cell(x, y, glyph(66)));
        assert_eq!(ir.cells, before);
    }
    assert_eq!(ir.style_table.len(), 1);
}

#[test]
fn a_column_past_the_width_is_no_cell_of_the_next_row() {
    let mut ir = AnsilustIR::new(5, 4);
    // (5, 0) would share the linear index of (0, 1).
    assert!(!ir.set_cell(5, 0, glyph(65)));
    assert_eq!(ir.get_cell(5, 0), None);
    assert_eq!(ir.get_cell(0, 1), Some(&glyph(0x20)));
}

#[test]
fn set_cell_overwrites_earlier_writes() {
    let mut ir = AnsilustIR::new(3, 3);
    assert!(ir.set_cell(1, 1, glyph(65)));
    assert!(ir.set_cell(1, 1, glyph(66)));
    assert_eq!(ir.get_cell(1, 1), Some(&glyph(66)));
    assert_eq!(ir.cells.len(), 9);
}

#[test]
fn set_cell_does_not_check_the_style_reference() {
    let mut ir = AnsilustIR::new(2, 2);
    let dangling = Cell { char: 65, style_id: 9, flags: CellFlags::empty() };
    assert!(ir.set_cell(0, 0, dangling));
    assert_eq!(ir.get_cell(0, 0), Some(&dangling));
    assert!(ir.get_style(9).is_none());
}

#[test]
fn overwriting_a_cell_keeps_its_grapheme_entry() {
    let mut ir = AnsilustIR::new(4, 4);
    ir.grapheme_map.insert(5, vec![0x1F468, 0x200D, 0x1F469]);
    assert!(ir.set_cell(1, 1, glyph(65)));
    assert_eq!(ir.grapheme_map.get(&5), Some(&vec![0x1F468, 0x200D, 0x1F469]));
    assert_eq!(ir.grapheme_map.len(), 1);
}

#[test]
fn a_short_cell_sequence_yields_no_cell_past_its_end() {
    let mut ir = AnsilustIR::new(4, 4);
    ir.cells.truncate(6);
    assert_eq!(ir.get_cell(1, 1), Some(&glyph(0x20)));
    assert_eq!(ir.get_cell(2, 1), None);
    assert!(!ir.set_cell(3, 3, glyph(65)));
    assert_eq!(ir.cells.len(), 6);
}

#[test]
fn set_cell_touches_nothing_but_the_grid() {
    let mut ir = AnsilustIR::new(4, 4);
    ir.ice_colors = true;
    ir.letter_spacing = 9;
    ir.aspect_ratio = Some(0x3FAC_CCCD);
    ir.source_format = SourceFormat::XBin;
    assert!(ir.set_cell(0, 0, glyph(65)));
    assert_eq!(ir.width, 4);
    assert_eq!(ir.height, 4);
    assert!(ir.ice_colors);
    assert_eq!(ir.letter_spacing, 9);
    assert_eq!(ir.aspect_ratio, Some(0x3FAC_CCCD));
    assert_eq!(ir.source_format, SourceFormat::XBin);
    assert_eq!(ir.style_table.len(), 1);
    assert_eq!(ir.version, "0.1.0");
}
