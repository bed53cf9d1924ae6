use vstd::prelude::*;

verus! {

/// Glyph code of a byte that has no glyph: it is skipped.
pub const NO_GLYPH: u8 = 255;

/// Glyph code of a space: the cursor moves one column, nothing is drawn.
pub const SPACE: u8 = 254;

/// Glyph code of a line feed: the cursor returns to the first column of the next line.
pub const NEWLINE: u8 = 253;

/// The mesh (or control code) that the character mesh set holds for a byte.
pub open spec fn glyph_code(b: u8) -> u8 {
    if b == 10 {
        NEWLINE
    } else if b == 32 {
        SPACE
    } else if 48 <= b <= 57 {
        (b - 48 + 16) as u8
    } else if 65 <= b <= 90 {
        (b - 65 + 26) as u8
    } else if 97 <= b <= 122 {
        (b - 97 + 26) as u8
    } else {
        match b {
            33 => 1u8,
            34 => 2u8,
            39 => 3u8,
            40 | 91 | 123 => 4u8,
            41 | 93 | 125 => 5u8,
            42 => 6u8,
            43 => 7u8,
            44 => 10u8,
            45 => 9u8,
            46 => 12u8,
            47 => 11u8,
            58 => 8u8,
            61 => 13u8,
            63 => 14u8,
            95 => 15u8,
            35 | 36 | 37 | 38 | 59 | 60 | 62 | 64 | 92 | 94 | 96 | 124 | 126 => 0u8,
            _ => NO_GLYPH,
        }
    }
}

/// Looks up the glyph code of one byte.
pub fn glyph_index(b: u8) -> (r: u8)
    ensures
        r == glyph_code(b),
{
    if b == 10 {
        NEWLINE
    } else if b == 32 {
        SPACE
    } else if 48 <= b && b <= 57 {
        b - 48 + 16
    } else if 65 <= b && b <= 90 {
        b - 65 + 26
    } else if 97 <= b && b <= 122 {
        b - 97 + 26
    } else {
        match b {
            33 => 1u8,
            34 => 2u8,
            39 => 3u8,
            40 | 91 | 123 => 4u8,
            41 | 93 | 125 => 5u8,
            42 => 6u8,
            43 => 7u8,
            44 => 10u8,
            45 => 9u8,
            46 => 12u8,
            47 => 11u8,
            58 => 8u8,
            61 => 13u8,
            63 => 14u8,
            95 => 15u8,
            35 | 36 | 37 | 38 | 59 | 60 | 62 | 64 | 92 | 94 | 96 | 124 | 126 => 0u8,
            _ => NO_GLYPH,
        }
    }
}

/// One glyph placed on the text grid: `column` steps right and `line` steps
/// down from the text's top-left anchor.
#[derive(Clone, Copy, Debug, PartialEq, Eq, Structural)]
pub struct GlyphPlacement {
    pub object_index: usize,
    pub column: usize,
    pub line: usize,
}

/// The cursor of a text layout: what has been placed, and where the next glyph goes.
pub struct TextCursor {
    pub placed: Seq<GlyphPlacement>,
    pub column: nat,
    pub line: nat,
}

/// The layout of a byte string, one byte at a time from the left.
pub open spec fn layout(s: Seq<u8>) -> TextCursor
    decreases s.len(),
{
    if s.len() == 0 {
        TextCursor { placed: Seq::empty(), column: 0, line: 0 }
    } else {
        let prev = layout(s.drop_last());
        let code = glyph_code(s.last());
        if code == NO_GLYPH {
            prev
        } else if code == NEWLINE {
            TextCursor { placed: prev.placed, column: 0, line: prev.line + 1 }
        } else if code == SPACE {
            TextCursor { placed: prev.placed, column: prev.column + 1, line: prev.line }
        } else {
            TextCursor {
                placed: prev.placed.push(
                    GlyphPlacement {
                        object_index: code as usize,
                        column: prev.column as usize,
                        line: prev.line as usize,
                    },
                ),
                column: prev.column + 1,
                line: prev.line,
            }
        }
    }
}

proof fn lemma_layout_bounds(s: Seq<u8>)
    ensures
        layout(s).column <= s.len(),
        layout(s).line <= s.len(),
        layout(s).placed.len() <= s.len(),
    decreases s.len(),
{
    if s.len() > 0 {
        lemma_layout_bounds(s.drop_last());
    }
}

/// A line feed places nothing and moves the cursor to the first column of
/// the next line.
pub proof fn lemma_line_feed(s: Seq<u8>)
    ensures
        layout(s.push(10)).placed == layout(s).placed,
        layout(s.push(10)).column == 0,
        layout(s.push(10)).line == layout(s).line + 1,
{
    assert(s.push(10).drop_last() =~= s);
}

/// A byte with a glyph is placed at the cursor, which then moves one column
/// to the right on the same line.
pub proof fn lemma_glyph_advances(s: Seq<u8>, b: u8)
    requires
        glyph_code(b) != NO_GLYPH,
        glyph_code(b) != NEWLINE,
        glyph_code(b) != SPACE,
    ensures
        layout(s.push(b)).placed == layout(s).placed.push(
            GlyphPlacement {
                object_index: glyph_code(b) as usize,
                column: layout(s).column as usize,
                line: layout(s).line as usize,
            },
        ),
        layout(s.push(b)).column == layout(s).column + 1,
        layout(s.push(b)).line == layout(s).line,
{
    assert(s.push(b).drop_last() =~= s);
}

/// Places the glyphs of `text` on the text grid. Bytes without a glyph are
/// skipped, a space only moves the cursor, a line feed starts a new line.
pub fn layout_text(text: &[u8]) -> (r: Vec<GlyphPlacement>)
    ensures
        r@ == layout(text@).placed,
{
    let mut placed: Vec<GlyphPlacement> = Vec::new();
    let mut column: usize = 0;
    let mut line: usize = 0;
    let mut i: usize = 0;
    while i < text.len()
        invariant
            i <= text@.len(),
            placed@ == layout(text@.take(i as int)).placed,
            column == layout(text@.take(i as int)).column,
            line == layout(text@.take(i as int)).line,
        decreases text@.len() - i,
    {
        proof {
            lemma_layout_bounds(text@.take(i as int));
            assert(text@.take(i as int + 1).drop_last() =~= text@.take(i as int));
        }
        let code = glyph_index(text[i]);
        if code == NO_GLYPH {
        } else if code == NEWLINE {
            column = 0;
            line = line + 1;
        } else if code == SPACE {
            column = column + 1;
        } else {
            placed.push(GlyphPlacement { object_index: code as usize, column, line });
            column = column + 1;
        }
        i = i + 1;
    }
    assert(text@.take(text@.len() as int) =~= text@);
    placed
}

} // verus!
