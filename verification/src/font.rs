//! Drawing with a monochrome, monospace bitmap font: each glyph row is one
//! byte, most significant bit leftmost. The font image is 128x96 pixels of
//! 8x16 glyphs for the characters from 0x20 on.

use vstd::prelude::*;
use vstd::arithmetic::power2::pow2;
use vstd::string::StringSliceAdditionalSpecFns;

verus! {

/// A pixel to draw.
#[derive(Clone, Copy, Debug, PartialEq, Eq, Structural)]
pub struct Pixel {
    pub x: u32,
    pub y: u32,
    pub color: u32,
}

/// Bit `k` (counting from the most significant) of a glyph row.
pub open spec fn row_bit(row: u8, k: int) -> u8 {
    ((row as nat / pow2((7 - k) as nat)) % 2) as u8
}

/// The eight bits of a glyph row, most significant first.
pub fn dcnds_char(ichr: u8) -> (bits: [u8; 8])
    ensures
        forall|k: int| 0 <= k < 8 ==> #[trigger] bits@[k] == row_bit(ichr, k),
{
    let mut ichr_set: [u8; 8] = [0; 8];
    let mut i: i32 = 7;
    while i > -1
        invariant
            -1 <= i <= 7,
            forall|k: int| 0 <= k < 7 - i ==> #[trigger] ichr_set@[k] == row_bit(ichr, k),
        decreases i + 1,
    {
        let ii = i as u8;
        let sh = ichr >> ii;
        let b = sh & 1;
        proof {
            vstd::bits::lemma_u8_shr_is_div(ichr, ii);
            assert(b == sh % 2) by (bit_vector)
                requires
                    b == sh & 1,
            ;
            assert(7 - (7 - i) == i);
        }
        ichr_set[(7 - i) as usize] = b;
        i = i - 1;
    }
    ichr_set
}

/// A glyph row is the sum of its bits, each at its place.
pub proof fn lemma_row_bits_recombine(row: u8)
    ensures
        row_bit(row, 0) * 128 + row_bit(row, 1) * 64 + row_bit(row, 2) * 32 + row_bit(row, 3) * 16
            + row_bit(row, 4) * 8 + row_bit(row, 5) * 4 + row_bit(row, 6) * 2 + row_bit(row, 7) == row,
{
    vstd::arithmetic::power2::lemma2_to64();
    let r = row as int;
    assert(row_bit(row, 0) == (r / 128) % 2);
    assert(row_bit(row, 1) == (r / 64) % 2);
    assert(row_bit(row, 2) == (r / 32) % 2);
    assert(row_bit(row, 3) == (r / 16) % 2);
    assert(row_bit(row, 4) == (r / 8) % 2);
    assert(row_bit(row, 5) == (r / 4) % 2);
    assert(row_bit(row, 6) == (r / 2) % 2);
    assert(r / 1 == r);
    assert(row_bit(row, 7) == r % 2);
    assert(r == (r / 128) % 2 * 128 + (r / 64) % 2 * 64 + (r / 32) % 2 * 32 + (r / 16) % 2 * 16 + (r
        / 8) % 2 * 8 + (r / 4) % 2 * 4 + (r / 2) % 2 * 2 + r % 2) by (nonlinear_arith)
        requires
            0 <= r < 256,
    ;
}

/// The pixels of one glyph cell: `rows` rows of eight pixels from (x0, y0),
/// in `on` where the font's bit is set and `off` elsewhere, row by row.
pub open spec fn cell_pixels(font: Seq<u8>, base: int, rows: nat, x0: u32, y0: u32, on: u32, off: u32) -> Seq<Pixel> {
    Seq::new(
        rows * 8,
        |k: int|
            Pixel {
                x: (x0 + k % 8) as u32,
                y: (y0 + k / 8) as u32,
                color: if row_bit(font[base + k / 8], k % 8) == 1 { on } else { off },
            },
    )
}

fn push_cell(out: &mut Vec<Pixel>, font: &[u8; 1536], base: usize, rows: u8, x0: u32, y0: u32, on: u32, off: u32)
    requires
        base + rows <= 1536,
        x0 + 8 <= u32::MAX,
        y0 + rows <= u32::MAX,
    ensures
        final(out)@ == old(out)@ + cell_pixels(font@, base as int, rows as nat, x0, y0, on, off),
{
    let ghost start = out@;
    let mut row: u8 = 0;
    while row < rows
        invariant
            base + rows <= 1536,
            x0 + 8 <= u32::MAX,
            y0 + rows <= u32::MAX,
            row <= rows,
            out@ == start + cell_pixels(font@, base as int, row as nat, x0, y0, on, off),
        decreases rows - row,
    {
        let bits = dcnds_char(font[base + row as usize]);
        let mut px: usize = 0;
        while px < 8
            invariant
                base + rows <= 1536,
                x0 + 8 <= u32::MAX,
                y0 + rows <= u32::MAX,
                row < rows,
                px <= 8,
                forall|k: int| 0 <= k < 8 ==> #[trigger] bits@[k] == row_bit(font@[base + row], k),
                out@ == start + cell_pixels(font@, base as int, row as nat, x0, y0, on, off)
                    + cell_pixels(font@, base as int, (row + 1) as nat, x0, y0, on, off).subrange(
                    row * 8,
                    row * 8 + px,
                ),
            decreases 8 - px,
        {
            let color = if bits[px] == 1 {
                on
            } else {
                off
            };
            let p = Pixel { x: x0 + px as u32, y: y0 + row as u32, color };
            out.push(p);
            proof {
                let next = cell_pixels(font@, base as int, (row + 1) as nat, x0, y0, on, off);
                assert(next[row * 8 + px] == p);
                assert(next.subrange(row * 8, row * 8 + px + 1) =~= next.subrange(row * 8, row * 8
                    + px).push(p));
            }
            px = px + 1;
        }
        proof {
            let cur = cell_pixels(font@, base as int, row as nat, x0, y0, on, off);
            let next = cell_pixels(font@, base as int, (row + 1) as nat, x0, y0, on, off);
            assert(next =~= cur + next.subrange(row * 8, row * 8 + 8));
        }
        row = row + 1;
    }
}

/// Glyph index of a character: its byte less 0x20.
pub open spec fn glyph_code(chr: char) -> int {
    ((chr as u32) % 0x100) - 0x20
}

/// Offset in the font data of the first row of a glyph, as the drawing
/// code computes it from the glyph's column (16 glyphs per line) and line.
pub open spec fn glyph_offset(chr: char, iw: u8, cwbs: u8) -> int {
    let code = glyph_code(chr);
    let x = (code % 16) * 8;
    let y = (code / 16) * 16;
    x * 2 + (y * iw) / (pow2(cwbs as nat) as int)
}

/// What `draw_char` draws: the glyph's `ch` rows at (ox, oy), set bits
/// black and clear bits yellow.
pub open spec fn char_pixels(font: Seq<u8>, chr: char, ox: u8, oy: u8, iw: u8, ch: u8, cwbs: u8) -> Seq<Pixel> {
    cell_pixels(font, glyph_offset(chr, iw, cwbs), ch as nat, ox as u32, oy as u32, 0x0, 0xFF44_FFFF)
}

/// The character's glyph lies in the font: the character is at least a
/// space and its last row is inside the font data.
pub open spec fn glyph_in_font(chr: char, iw: u8, ch: u8, cwbs: u8) -> bool {
    &&& glyph_code(chr) >= 0
    &&& (cwbs as u32) < usize::BITS
    &&& glyph_offset(chr, iw, cwbs) + ch <= 1536
}

fn glyph_base(chr: char, iw: u8, cwbs: u8) -> (base: usize)
    requires
        glyph_code(chr) >= 0,
        (cwbs as u32) < usize::BITS,
    ensures
        base == glyph_offset(chr, iw, cwbs),
        base <= 0x1_0000,
{
    let w = chr as u32;
    let b = w as u8;
    assert(b == w % 0x100) by (bit_vector)
        requires
            b == w as u8,
    ;
    let code: u8 = b - 0x20;
    let x: u8 = (code & 15) << 3u8;
    let y: u8 = (code >> 4u8) << 4u8;
    assert(x == (code % 16) * 8 && y == (code / 16) * 16) by (bit_vector)
        requires
            x == (code & 15) << 3u8,
            y == (code >> 4u8) << 4u8,
    ;
    assert(y <= 240);
    assert((y as int) * (iw as int) <= 240 * 255) by (nonlinear_arith)
        requires
            y <= 240,
            iw <= 255,
    ;
    let prod: usize = y as usize * iw as usize;
    let shifted: usize = prod >> cwbs as usize;
    proof {
        vstd::bits::lemma_usize_shr_is_div(prod, cwbs as usize);
        vstd::arithmetic::power2::lemma_pow2_pos(cwbs as nat);
        vstd::arithmetic::div_mod::lemma_div_is_ordered_by_denominator(prod as int, 1, pow2(cwbs as nat) as int);
    }
    assert(shifted <= prod);
    (x as usize) * 2 + shifted
}

/// Whether the character's glyph lies in the font (see [`glyph_in_font`]).
pub fn glyph_fits(chr: char, iw: u8, ch: u8, cwbs: u8) -> (b: bool)
    ensures
        b == glyph_in_font(chr, iw, ch, cwbs),
{
    let low: u32 = (chr as u32) % 0x100;
    if low < 0x20 || cwbs as u32 >= usize::BITS {
        false
    } else {
        glyph_base(chr, iw, cwbs) + ch as usize <= 1536
    }
}

/// The pixels of one character of the font, drawn at (ox, oy).
pub fn draw_char(font: &[u8; 1536], chr: char, ox: u8, oy: u8, iw: u8, ih: u8, cw: u8, ch: u8, cwbs: u8) -> (px: Vec<Pixel>)
    requires
        glyph_in_font(chr, iw, ch, cwbs),
    ensures
        px@ == char_pixels(font@, chr, ox, oy, iw, ch, cwbs),
{
    let base = glyph_base(chr, iw, cwbs);
    let mut out: Vec<Pixel> = Vec::new();
    push_cell(&mut out, font, base, ch, ox as u32, oy as u32, 0x0, 0xFF44_FFFF);
    assert(out@ =~= char_pixels(font@, chr, ox, oy, iw, ch, cwbs));
    out
}

/// What `draw_string` draws: the characters of `bytes` side by side from
/// (ox, oy), each `cw` pixels right of the one before.
pub open spec fn string_pixels(font: Seq<u8>, bytes: Seq<u8>, ox: u8, oy: u8, iw: u8, cw: u8, ch: u8, cwbs: u8) -> Seq<Pixel>
    decreases bytes.len(),
{
    if bytes.len() == 0 {
        Seq::empty()
    } else {
        string_pixels(font, bytes.drop_last(), ox, oy, iw, cw, ch, cwbs) + char_pixels(
            font,
            bytes.last() as char,
            (ox + cw * (bytes.len() - 1)) as u8,
            oy,
            iw,
            ch,
            cwbs,
        )
    }
}

/// The pixels of a string. The position advances by `cw` after each
/// character, the last one too, in 8-bit arithmetic, so it must stay
/// within 255; every character must have a glyph in the font.
pub fn draw_string(font: &[u8; 1536], s: &str, ox: u8, oy: u8, iw: u8, ih: u8, cw: u8, ch: u8, cwbs: u8) -> (px: Vec<Pixel>)
    requires
        ox + cw * s.spec_bytes().len() <= 255,
        forall|i: int| 0 <= i < s.spec_bytes().len() ==> glyph_in_font(#[trigger] s.spec_bytes()[i] as char, iw, ch, cwbs),
    ensures
        px@ == string_pixels(font@, s.spec_bytes(), ox, oy, iw, cw, ch, cwbs),
{
    let bytes = s.as_bytes();
    let mut out: Vec<Pixel> = Vec::new();
    let mut oxi: u8 = ox;
    let mut i: usize = 0;
    while i < bytes.len()
        invariant
            bytes@ == s.spec_bytes(),
            ox + cw * bytes@.len() <= 255,
            forall|k: int| 0 <= k < bytes@.len() ==> glyph_in_font(#[trigger] bytes@[k] as char, iw, ch, cwbs),
            i <= bytes@.len(),
            oxi == ox + cw * i,
            out@ == string_pixels(font@, bytes@.subrange(0, i as int), ox, oy, iw, cw, ch, cwbs),
        decreases bytes@.len() - i,
    {
        let c = draw_char(font, bytes[i] as char, oxi, oy, iw, ih, cw, ch, cwbs);
        proof {
            let pre = bytes@.subrange(0, i + 1);
            assert(pre.drop_last() =~= bytes@.subrange(0, i as int));
            assert(pre.last() == bytes@[i as int]);
            assert(cw * (i + 1) == cw * i + cw) by (nonlinear_arith);
            assert(cw * (i + 1) <= cw * bytes@.len()) by (nonlinear_arith)
                requires
                    i + 1 <= bytes@.len(),
            ;
        }
        let mut c = c;
        out.append(&mut c);
        oxi = oxi + cw;
        i = i + 1;
    }
    assert(bytes@.subrange(0, bytes@.len() as int) =~= bytes@);
    out
}

/// Offset in the font data of the cell at image position (x, y).
pub open spec fn cell_offset(x: int, y: int, iw: u8, cwbs: u8) -> int {
    x * 2 + (y * iw) / (pow2(cwbs as nat) as int)
}

/// The cells of one line of the font image, from column `x` on, `cw`
/// apart: set bits white, clear bits black.
pub open spec fn font_line_pixels(font: Seq<u8>, x: int, y: int, iw: u8, cw: u8, ch: u8, cwbs: u8) -> Seq<Pixel>
    decreases if x < iw { iw - x } else { 0 },
{
    if cw == 0 || x >= iw {
        Seq::empty()
    } else {
        cell_pixels(font, cell_offset(x, y, iw, cwbs), ch as nat, x as u32, y as u32, 0xFF_FFFF, 0x0)
            + font_line_pixels(font, x + cw, y, iw, cw, ch, cwbs)
    }
}

/// The lines of the font image from line `y` on, `ch` apart.
pub open spec fn font_pixels(font: Seq<u8>, y: int, iw: u8, ih: u8, cw: u8, ch: u8, cwbs: u8) -> Seq<Pixel>
    decreases if y < ih { ih - y } else { 0 },
{
    if ch == 0 || y >= ih {
        Seq::empty()
    } else {
        font_line_pixels(font, 0, y, iw, cw, ch, cwbs) + font_pixels(font, y + ch, iw, ih, cw, ch, cwbs)
    }
}

/// Every cell of the image lies in the font data.
pub open spec fn font_cells_in_font(iw: u8, ih: u8, cw: u8, ch: u8, cwbs: u8) -> bool {
    forall|x: int, y: int|
        0 <= x < iw && 0 <= y < ih ==> #[trigger] cell_offset(x, y, iw, cwbs) + ch <= 1536
}

fn cell_base(x: u8, y: u8, iw: u8, cwbs: u8) -> (base: usize)
    requires
        (cwbs as u32) < usize::BITS,
    ensures
        base == cell_offset(x as int, y as int, iw, cwbs),
{
    assert((y as int) * (iw as int) <= 255 * 255) by (nonlinear_arith)
        requires
            y <= 255,
            iw <= 255,
    ;
    let prod: usize = y as usize * iw as usize;
    let shifted: usize = prod >> cwbs as usize;
    proof {
        vstd::bits::lemma_usize_shr_is_div(prod, cwbs as usize);
        vstd::arithmetic::power2::lemma_pow2_pos(cwbs as nat);
        vstd::arithmetic::div_mod::lemma_div_is_ordered_by_denominator(prod as int, 1, pow2(cwbs as nat) as int);
    }
    (x as usize) * 2 + shifted
}

/// The pixels of the whole font image, cell by cell: lines `ch` apart,
/// cells `cw` apart within a line. Both steps must be positive.
pub fn draw_font(font: &[u8; 1536], iw: u8, ih: u8, cw: u8, ch: u8, cwbs: u8) -> (px: Vec<Pixel>)
    requires
        cw > 0,
        ch > 0,
        (cwbs as u32) < usize::BITS,
        font_cells_in_font(iw, ih, cw, ch, cwbs),
    ensures
        px@ == font_pixels(font@, 0, iw, ih, cw, ch, cwbs),
{
    let mut out: Vec<Pixel> = Vec::new();
    let mut y: u32 = 0;
    while y < ih as u32
        invariant
            cw > 0,
            ch > 0,
            (cwbs as u32) < usize::BITS,
            font_cells_in_font(iw, ih, cw, ch, cwbs),
            y <= ih + ch,
            out@ + font_pixels(font@, y as int, iw, ih, cw, ch, cwbs) == font_pixels(font@, 0, iw, ih, cw, ch, cwbs),
        decreases ih + ch - y,
    {
        let ghost line_start = out@;
        let mut x: u32 = 0;
        while x < iw as u32
            invariant
                cw > 0,
                ch > 0,
                (cwbs as u32) < usize::BITS,
                font_cells_in_font(iw, ih, cw, ch, cwbs),
                y < ih,
                x <= iw + cw,
                out@ + font_line_pixels(font@, x as int, y as int, iw, cw, ch, cwbs) == line_start + font_line_pixels(font@, 0, y as int, iw, cw, ch, cwbs),
            decreases iw + cw - x,
        {
            let base = cell_base(x as u8, y as u8, iw, cwbs);
            assert(cell_offset(x as int, y as int, iw, cwbs) + ch <= 1536);
            let ghost before = out@;
            push_cell(&mut out, font, base, ch, x, y, 0xFF_FFFF, 0x0);
            proof {
                let cell = cell_pixels(font@, base as int, ch as nat, x, y, 0xFF_FFFF, 0x0);
                let rest = font_line_pixels(font@, x + cw, y as int, iw, cw, ch, cwbs);
                assert(font_line_pixels(font@, x as int, y as int, iw, cw, ch, cwbs) == cell + rest);
                assert(before + (cell + rest) =~= (before + cell) + rest);
            }
            x = x + cw as u32;
        }
        proof {
            assert(font_line_pixels(font@, x as int, y as int, iw, cw, ch, cwbs) =~= Seq::<Pixel>::empty());
            let line = font_line_pixels(font@, 0, y as int, iw, cw, ch, cwbs);
            let rest = font_pixels(font@, y + ch, iw, ih, cw, ch, cwbs);
            assert(out@ =~= line_start + line);
            assert(font_pixels(font@, y as int, iw, ih, cw, ch, cwbs) == line + rest);
            assert(line_start + (line + rest) =~= (line_start + line) + rest);
        }
        y = y + ch as u32;
    }
    assert(font_pixels(font@, y as int, iw, ih, cw, ch, cwbs) =~= Seq::<Pixel>::empty());
    assert(out@ + Seq::<Pixel>::empty() =~= out@);
    out
}

} // verus!
