use lavapond::glyph::{glyph_index, layout_text, GlyphPlacement, NEWLINE, NO_GLYPH, SPACE};

#[test]
fn newline_starts_next_line_at_anchor_column() {
    let placed = layout_text(b"A\nB");
    assert_eq!(placed.len(), 2);
    assert_eq!(placed[0], GlyphPlacement { object_index: 26, column: 0, line: 0 });
    assert_eq!(placed[1], GlyphPlacement { object_index: 27, column: 0, line: 1 });
}

#[test]
fn glyph_table_codes() {
    assert_eq!(glyph_index(b'\n'), NEWLINE);
    assert_eq!(glyph_index(b' '), SPACE);
    assert_eq!(glyph_index(0), NO_GLYPH);
    assert_eq!(glyph_index(200), NO_GLYPH);
    assert_eq!(glyph_index(255), NO_GLYPH);
    assert_eq!(glyph_index(b'!'), 1);
    assert_eq!(glyph_index(b'#'), 0);
    assert_eq!(glyph_index(b'0'), 16);
    assert_eq!(glyph_index(b'9'), 25);
    assert_eq!(glyph_index(b'a'), 26);
    assert_eq!(glyph_index(b'Z'), 51);
    assert_eq!(glyph_index(b'['), 4);
    assert_eq!(glyph_index(b'}'), 5);
    assert_eq!(glyph_index(b':'), 8);
    assert_eq!(glyph_index(b','), 10);
}

#[test]
fn space_moves_cursor_without_glyph() {
    let placed = layout_text(b"a b");
    assert_eq!(placed.len(), 2);
    assert_eq!(placed[0].column, 0);
    assert_eq!(placed[1].column, 2);
    assert_eq!(placed[1].line, 0);
}

#[test]
fn unmapped_bytes_are_skipped() {
    let placed = layout_text(&[b'A', 7, 0xC3, b'B']);
    assert_eq!(placed.len(), 2);
    assert_eq!(placed[1], GlyphPlacement { object_index: 27, column: 1, line: 0 });
}

#[test]
fn empty_text_places_nothing() {
    assert!(layout_text(b"").is_empty());
    assert!(layout_text(b"\n\n  ").is_empty());
}
