use vstd::prelude::*;

verus! {

/// Number of rows in each glyph.
pub const GLYPH_ROWS: usize = 5;

/// The rows of the glyph for `symbol`, top to bottom, or `None` where
/// `symbol` is not a hexadecimal digit ('0'-'9', 'A'-'F'). The upper four
/// bits of a row are its pixels, left to right; the lower four are unused.
pub open spec fn glyph_of(symbol: char) -> Option<Seq<u8>> {
    match symbol {
        '0' => Some(seq![0xF0u8, 0x90, 0x90, 0x90, 0xF0]),
        '1' => Some(seq![0x20u8, 0x60, 0x20, 0x20, 0x70]),
        '2' => Some(seq![0xF0u8, 0x10, 0xF0, 0x80, 0xF0]),
        '3' => Some(seq![0xF0u8, 0x10, 0xF0, 0x10, 0xF0]),
        '4' => Some(seq![0x90u8, 0x90, 0xF0, 0x10, 0x10]),
        '5' => Some(seq![0xF0u8, 0x80, 0xF0, 0x10, 0xF0]),
        '6' => Some(seq![0xF0u8, 0x80, 0xF0, 0x90, 0xF0]),
        '7' => Some(seq![0xF0u8, 0x10, 0x20, 0x40, 0x40]),
        '8' => Some(seq![0xF0u8, 0x90, 0xF0, 0x90, 0xF0]),
        '9' => Some(seq![0xF0u8, 0x90, 0xF0, 0x10, 0xF0]),
        'A' => Some(seq![0xF0u8, 0x90, 0xF0, 0x90, 0x90]),
        'B' => Some(seq![0xE0u8, 0x90, 0xE0, 0x90, 0xE0]),
        'C' => Some(seq![0xF0u8, 0x80, 0x80, 0x80, 0xF0]),
        'D' => Some(seq![0xE0u8, 0x90, 0x90, 0x90, 0xE0]),
        'E' => Some(seq![0xF0u8, 0x80, 0xF0, 0x80, 0xF0]),
        'F' => Some(seq![0xF0u8, 0x80, 0xF0, 0x80, 0x80]),
        _ => None,
    }
}

/// The bitmap of a hexadecimal digit, for drawing as a sprite; any other
/// symbol has none. The table is constant.
pub fn lookup_glyph(symbol: char) -> (r: Option<[u8; GLYPH_ROWS]>)
    ensures
        r is None <==> glyph_of(symbol) is None,
        r matches Some(rows) ==> glyph_of(symbol) == Some(rows@),
{
    let r = match symbol {
            '0' => Some([0xF0u8, 0x90, 0x90, 0x90, 0xF0]),
            '1' => Some([0x20u8, 0x60, 0x20, 0x20, 0x70]),
            '2' => Some([0xF0u8, 0x10, 0xF0, 0x80, 0xF0]),
            '3' => Some([0xF0u8, 0x10, 0xF0, 0x10, 0xF0]),
            '4' => Some([0x90u8, 0x90, 0xF0, 0x10, 0x10]),
            '5' => Some([0xF0u8, 0x80, 0xF0, 0x10, 0xF0]),
            '6' => Some([0xF0u8, 0x80, 0xF0, 0x90, 0xF0]),
            '7' => Some([0xF0u8, 0x10, 0x20, 0x40, 0x40]),
            '8' => Some([0xF0u8, 0x90, 0xF0, 0x90, 0xF0]),
            '9' => Some([0xF0u8, 0x90, 0xF0, 0x10, 0xF0]),
            'A' => Some([0xF0u8, 0x90, 0xF0, 0x90, 0x90]),
            'B' => Some([0xE0u8, 0x90, 0xE0, 0x90, 0xE0]),
            'C' => Some([0xF0u8, 0x80, 0x80, 0x80, 0xF0]),
            'D' => Some([0xE0u8, 0x90, 0x90, 0x90, 0xE0]),
            'E' => Some([0xF0u8, 0x80, 0xF0, 0x80, 0xF0]),
            'F' => Some([0xF0u8, 0x80, 0xF0, 0x80, 0x80]),
            _ => None,
    };
    r
}

} // verus!
