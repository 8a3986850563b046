use ansilust::{
    AnsilustIR, BitmapFont, Cell, CellFlags, FontInfo, Frame, Operation, Palette, PaletteType,
    SauceFlags, SauceRecord, SourceFormat, RGB,
};

#[test]
fn cells_copy_by_value() {
    let source = Cell { char: 65, style_id: 3, flags: CellFlags::SOFT_WRAP() };
    let mut copy = source;
    copy.char = 66;
    copy.style_id = 4;
    assert_eq!(source, Cell { char: 65, style_id: 3, flags: CellFlags::SOFT_WRAP() });
    assert_eq!(copy, Cell { char: 66, style_id: 4, flags: CellFlags::SOFT_WRAP() });
    assert_ne!(source, copy);
}

#[test]
fn a_custom_palette_of_any_length_is_kept() {
    let mut ir = AnsilustIR::new(2, 2);
    for length in [0usize, 3, 16, 256, 300] {
        let colors: Vec<RGB> = (0..length).map(|i| RGB { r: i as u8, g: 0, b: 255 }).collect();
        ir.palette = PaletteType::Custom(Palette { colors: colors.clone() });
        match &ir.palette {
            PaletteType::Custom(palette) => assert_eq!(palette.colors, colors),
            _ => panic!("the palette was replaced"),
        }
    }
    ir.palette = PaletteType::VGA;
    assert!(matches!(ir.palette, PaletteType::VGA));
    ir.palette = PaletteType::Workbench;
    assert!(matches!(ir.palette, PaletteType::Workbench));
}

#[test]
fn an_embedded_font_travels_with_the_document() {
    let mut ir = AnsilustIR::new(2, 2);
    ir.font = FontInfo {
        id: None,
        width: 9,
        height: 8,
        embedded: Some(BitmapFont { width: 8, height: 8, char_count: 512, data: vec![0xAA; 4096] }),
    };
    let copy = ir.clone();
    let font = copy.font.embedded.unwrap();
    assert_eq!((font.width, font.height, font.char_count), (8, 8, 512));
    assert_eq!(font.data.len(), 4096);
    assert_eq!(copy.font.width, 9);
    assert!(copy.font.id.is_none());
}

#[test]
fn an_authorship_record_is_kept_as_given() {
    let mut ir = AnsilustIR::new(2, 2);
    ir.sauce = Some(SauceRecord {
        title: "Title".to_string(),
        author: "Author".to_string(),
        group: "Group".to_string(),
        date: "not-a-date".to_string(),
        columns: 80,
        rows: 25,
        flags: SauceFlags::ICE_COLORS() | SauceFlags::ASPECT_RATIO(),
        font_name: "IBM VGA".to_string(),
        comments: vec!["one".to_string(), "two".to_string()],
    });
    let record = ir.sauce.as_ref().unwrap();
    assert_eq!(record.date, "not-a-date");
    assert_eq!((record.columns, record.rows), (80, 25));
    assert!(record.flags.contains(SauceFlags::ICE_COLORS()));
    assert!(!record.flags.contains(SauceFlags::LETTER_SPACING_9BIT()));
    assert_eq!(record.comments, vec!["one".to_string(), "two".to_string()]);
    // The record's declared size does not bind the grid.
    assert_eq!(ir.cells.len(), 4);
}

#[test]
fn the_source_format_changes_no_accessor() {
    let formats = [
        SourceFormat::ANSI,
        SourceFormat::Binary,
        SourceFormat::PCBoard,
        SourceFormat::XBin,
        SourceFormat::Tundra,
        SourceFormat::ArtWorx,
        SourceFormat::IceDraw,
        SourceFormat::UTF8ANSI,
    ];
    let cell = Cell { char: 65, style_id: 0, flags: CellFlags::empty() };
    for format in formats {
        let mut ir = AnsilustIR::new(3, 3);
        ir.source_format = format;
        assert!(ir.set_cell(2, 2, cell));
        assert_eq!(ir.get_cell(2, 2), Some(&cell));
        assert_eq!(ir.get_cell(3, 2), None);
        assert_eq!(ir.source_format, format);
    }
}

#[test]
fn frames_keep_their_operations_in_order() {
    let cell = Cell { char: 65, style_id: 0, flags: CellFlags::empty() };
    let frame = Frame {
        timestamp_ms: 40,
        operations: vec![
            Operation::SetCell { x: 1, y: 2, cell },
            Operation::FillRect { x: 0, y: 0, w: 4, h: 2, cell },
            Operation::ScrollRect { x: 0, y: 0, w: 4, h: 4, dx: -1, dy: 1 },
            Operation::SetPalette { palette: PaletteType::VGA },
        ],
    };
    let mut ir = AnsilustIR::new(4, 4);
    ir.frames = Some(vec![frame.clone(), Frame { timestamp_ms: 40, operations: Vec::new() }]);
    let frames = ir.frames.as_ref().unwrap();
    assert_eq!(frames.len(), 2);
    assert_eq!(frames[0].timestamp_ms, 40);
    assert_eq!(frames[0].operations.len(), 4);
    assert!(matches!(frames[0].operations[0], Operation::SetCell { x: 1, y: 2, .. }));
    assert!(matches!(frames[0].operations[1], Operation::FillRect { w: 4, h: 2, .. }));
    assert!(matches!(frames[0].operations[2], Operation::ScrollRect { dx: -1, dy: 1, .. }));
    assert!(matches!(
        frames[0].operations[3],
        Operation::SetPalette { palette: PaletteType::VGA }
    ));
    // The log is carried, not replayed.
    assert_eq!(ir.get_cell(1, 2).unwrap().char, 0x20);
}
