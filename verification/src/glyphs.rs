use vstd::prelude::*;

verus! {

/// Width and height of a character cell of the bitmap font, in pixels.
pub const CHAR_GRID_WIDTH: u32 = 30;
pub const CHAR_GRID_HEIGHT: u32 = 30;

/// Characters per row and rows of the bitmap font texture.
pub const CHARS_PER_ROW: u32 = 19;
pub const CHARS_PER_COL: u32 = 5;

/// The characters of the bitmap font texture, in order: the printable
/// ASCII characters from the space to the tilde. This must stay in sync
/// with the font texture.
pub open spec fn char_map() -> Seq<u8> {
    Seq::new(95, |i: int| (32 + i) as u8)
}

/// Whether the font has a glyph for `c`.
pub open spec fn has_glyph(c: u8) -> bool {
    char_map().contains(c)
}

/// The index of character `c` in the character map of the font.
pub fn glyph_index(c: u8) -> (idx: u32)
    requires
        has_glyph(c),
    ensures
        idx < char_map().len(),
        char_map()[idx as int] == c,
{
    proof {
        let k = choose|k: int| 0 <= k < char_map().len() && char_map()[k] == c;
        assert(char_map()[k] == (32 + k) as u8);
    }
    (c - 32) as u32
}

/// The cell (column, row) of character `c` in the font texture.
pub fn glyph_cell(c: u8) -> (cell: (u32, u32))
    requires
        has_glyph(c),
    ensures
        char_map()[(cell.0 + cell.1 * CHARS_PER_ROW) as int] == c,
        cell.0 < CHARS_PER_ROW,
        cell.1 < CHARS_PER_COL,
{
    let idx = glyph_index(c);
    (idx % CHARS_PER_ROW, idx / CHARS_PER_ROW)
}

/// Every character of the map is found at its own index: the map has no
/// character twice.
pub proof fn lemma_glyph_index_unique(i: int, j: int)
    requires
        0 <= i < char_map().len(),
        0 <= j < char_map().len(),
        char_map()[i] == char_map()[j],
    ensures
        i == j,
{
}

} // verus!
