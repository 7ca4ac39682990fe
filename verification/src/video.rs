//! The renderer: rasterises the adapter's frame buffer into RGBA frames,
//! with the colour tables of the adapter's text and graphics palettes. The
//! glyph shapes come from a caller-supplied 2048-byte font image, eight
//! bytes per glyph in a 32-glyph-wide plane.

use crate::bus::BusInterface;
use crate::cga::{spec_cursor_info, spec_display_mode, spec_palette, CGACard, CGAColor,
    CGAPalette, CursorInfo, DisplayMode, CGA_MEM_ADDRESS, CGA_MEM_SIZE};
use vstd::arithmetic::div_mod::lemma_fundamental_div_mod;
use vstd::prelude::*;

verus! {

pub const ATTR_BLUE_FG: u8 = 0b0000_0001;

pub const ATTR_GREEN_FG: u8 = 0b0000_0010;

pub const ATTR_RED_FG: u8 = 0b0000_0100;

pub const ATTR_BRIGHT_FG: u8 = 0b0000_1000;

pub const ATTR_BLUE_BG: u8 = 0b0001_0000;

pub const ATTR_GREEN_BG: u8 = 0b0010_0000;

pub const ATTR_RED_BG: u8 = 0b0100_0000;

pub const ATTR_BRIGHT_BG: u8 = 0b1000_0000;

/// Glyphs per row of the font image.
pub const FONT_SPAN: u32 = 32;

pub const FONT_W: u32 = 8;

pub const FONT_H: u32 = 8;

/// Size in bytes of a font image.
pub const FONT_SIZE: usize = 2048;

pub const CGA_FIELD_OFFSET: u32 = 8192;

pub const HIRES_GFX_W: u32 = 640;

pub const HIRES_GFX_H: u32 = 200;

pub const GFX_W: u32 = 320;

pub const GFX_H: u32 = 200;

pub const FRAME_W: u32 = 640;

pub const FRAME_H: u32 = 400;

/// The RGBA bytes of a colour.
pub open spec fn spec_rgba(color: CGAColor) -> Seq<u8> {
    match color {
        CGAColor::Black => seq![0x00u8, 0x00u8, 0x00u8, 0xFFu8],
        CGAColor::Blue => seq![0x00u8, 0x00u8, 0xAAu8, 0xFFu8],
        CGAColor::Green => seq![0x00u8, 0xAAu8, 0x00u8, 0xFFu8],
        CGAColor::Cyan => seq![0x00u8, 0xAAu8, 0xAAu8, 0xFFu8],
        CGAColor::Red => seq![0xAAu8, 0x00u8, 0x00u8, 0xFFu8],
        CGAColor::Magenta => seq![0xAAu8, 0x00u8, 0xAAu8, 0xFFu8],
        CGAColor::Brown => seq![0xAAu8, 0x55u8, 0x00u8, 0xFFu8],
        CGAColor::White => seq![0xAAu8, 0xAAu8, 0xAAu8, 0xFFu8],
        CGAColor::BlackBright => seq![0x55u8, 0x55u8, 0x55u8, 0xFFu8],
        CGAColor::BlueBright => seq![0x55u8, 0x55u8, 0xFFu8, 0xFFu8],
        CGAColor::GreenBright => seq![0x55u8, 0xFFu8, 0x55u8, 0xFFu8],
        CGAColor::CyanBright => seq![0x55u8, 0xFFu8, 0xFFu8, 0xFFu8],
        CGAColor::RedBright => seq![0xFFu8, 0x55u8, 0x55u8, 0xFFu8],
        CGAColor::MagentaBright => seq![0xFFu8, 0x55u8, 0xFFu8, 0xFFu8],
        CGAColor::Yellow => seq![0xFFu8, 0xFFu8, 0x55u8, 0xFFu8],
        CGAColor::WhiteBright => seq![0xFFu8, 0xFFu8, 0xFFu8, 0xFFu8],
    }
}

/// Return the RGBA bytes of a colour.
pub fn color_enum_to_rgba(color: &CGAColor) -> (r: [u8; 4])
    ensures
        r@ == spec_rgba(*color),
{
    let arr: [u8; 4] = match color {
        CGAColor::Black => [0x00u8, 0x00u8, 0x00u8, 0xFFu8],
        CGAColor::Blue => [0x00u8, 0x00u8, 0xAAu8, 0xFFu8],
        CGAColor::Green => [0x00u8, 0xAAu8, 0x00u8, 0xFFu8],
        CGAColor::Cyan => [0x00u8, 0xAAu8, 0xAAu8, 0xFFu8],
        CGAColor::Red => [0xAAu8, 0x00u8, 0x00u8, 0xFFu8],
        CGAColor::Magenta => [0xAAu8, 0x00u8, 0xAAu8, 0xFFu8],
        CGAColor::Brown => [0xAAu8, 0x55u8, 0x00u8, 0xFFu8],
        CGAColor::White => [0xAAu8, 0xAAu8, 0xAAu8, 0xFFu8],
        CGAColor::BlackBright => [0x55u8, 0x55u8, 0x55u8, 0xFFu8],
        CGAColor::BlueBright => [0x55u8, 0x55u8, 0xFFu8, 0xFFu8],
        CGAColor::GreenBright => [0x55u8, 0xFFu8, 0x55u8, 0xFFu8],
        CGAColor::CyanBright => [0x55u8, 0xFFu8, 0xFFu8, 0xFFu8],
        CGAColor::RedBright => [0xFFu8, 0x55u8, 0x55u8, 0xFFu8],
        CGAColor::MagentaBright => [0xFFu8, 0x55u8, 0xFFu8, 0xFFu8],
        CGAColor::Yellow => [0xFFu8, 0xFFu8, 0x55u8, 0xFFu8],
        CGAColor::WhiteBright => [0xFFu8, 0xFFu8, 0xFFu8, 0xFFu8],
    };
    arr
}

/// The RGBA bytes of a four-bit composite artifact colour under a palette.
/// Only the monochrome and magenta-cyan-white palettes have composite
/// tables; everything else is black.
pub open spec fn spec_composite_color(bits: u8, palette: CGAPalette) -> Seq<u8> {
    match palette {
        CGAPalette::Monochrome(_) => {
            if bits == 0b0000 {
                seq![0x00u8, 0x00u8, 0x00u8, 0xFFu8]
            } else if bits == 0b0001 {
                seq![0x00u8, 0x68u8, 0x0Cu8, 0xFFu8]
            } else if bits == 0b0010 {
                seq![0x21u8, 0x2Bu8, 0xBDu8, 0xFFu8]
            } else if bits == 0b0011 {
                seq![0x0Du8, 0x9Eu8, 0xD5u8, 0xFFu8]
            } else if bits == 0b0100 {
                seq![0x85u8, 0x09u8, 0x6Cu8, 0xFFu8]
            } else if bits == 0b0101 {
                seq![0x75u8, 0x73u8, 0x76u8, 0xFFu8]
            } else if bits == 0b0110 {
                seq![0xAFu8, 0x36u8, 0xFFu8, 0xFFu8]
            } else if bits == 0b0111 {
                seq![0x9Bu8, 0xA9u8, 0xFFu8, 0xFFu8]
            } else if bits == 0b1000 {
                seq![0x51u8, 0x47u8, 0x00u8, 0xFFu8]
            } else if bits == 0b1001 {
                seq![0x42u8, 0xBDu8, 0x00u8, 0xFFu8]
            } else if bits == 0b1010 {
                seq![0x51u8, 0x53u8, 0x51u8, 0xFFu8]
            } else if bits == 0b1011 {
                seq![0x5Du8, 0xF4u8, 0x7Au8, 0xFFu8]
            } else if bits == 0b1100 {
                seq![0xE5u8, 0x54u8, 0x1Du8, 0xFFu8]
            } else if bits == 0b1101 {
                seq![0xD7u8, 0xCBu8, 0x19u8, 0xFFu8]
            } else if bits == 0b1110 {
                seq![0xFFu8, 0x81u8, 0xF2u8, 0xFFu8]
            } else if bits == 0b1111 {
                seq![0xFDu8, 0xFFu8, 0xFCu8, 0xFFu8]
            } else {
                seq![0x00u8, 0x00u8, 0x00u8, 0xFFu8]
            }
        },
        CGAPalette::MagentaCyanWhite(_) => {
            if bits == 0b0000 {
                seq![0x00u8, 0x00u8, 0x00u8, 0xFFu8]
            } else if bits == 0b0001 {
                seq![0x00u8, 0x9Au8, 0xFFu8, 0xFFu8]
            } else if bits == 0b0010 {
                seq![0x00u8, 0x42u8, 0xFFu8, 0xFFu8]
            } else if bits == 0b0011 {
                seq![0x00u8, 0x90u8, 0xFFu8, 0xFFu8]
            } else if bits == 0b0100 {
                seq![0xAAu8, 0x4Cu8, 0x00u8, 0xFFu8]
            } else if bits == 0b0101 {
                seq![0x84u8, 0xFAu8, 0xD2u8, 0xFFu8]
            } else if bits == 0b0110 {
                seq![0xB9u8, 0xA2u8, 0xADu8, 0xFFu8]
            } else if bits == 0b0111 {
                seq![0x96u8, 0xF0u8, 0xFFu8, 0xFFu8]
            } else if bits == 0b1000 {
                seq![0xCDu8, 0x1Fu8, 0x00u8, 0xFFu8]
            } else if bits == 0b1001 {
                seq![0xA7u8, 0xCDu8, 0xFFu8, 0xFFu8]
            } else if bits == 0b1010 {
                seq![0xDCu8, 0x75u8, 0xFFu8, 0xFFu8]
            } else if bits == 0b1011 {
                seq![0xB9u8, 0xC3u8, 0xFFu8, 0xFFu8]
            } else if bits == 0b1100 {
                seq![0xFFu8, 0x5Cu8, 0x00u8, 0xFFu8]
            } else if bits == 0b1101 {
                seq![0xEDu8, 0xFFu8, 0xCCu8, 0xFFu8]
            } else if bits == 0b1110 {
                seq![0xFFu8, 0xB2u8, 0xA6u8, 0xFFu8]
            } else if bits == 0b1111 {
                seq![0xFFu8, 0xFFu8, 0xFFu8, 0xFFu8]
            } else {
                seq![0x00u8, 0x00u8, 0x00u8, 0xFFu8]
            }
        },
        _ => seq![0x00u8, 0x00u8, 0x00u8, 0xFFu8],
    }
}

/// Return the RGBA bytes of a composite artifact colour.
pub fn get_cga_composite_color(bits: u8, palette: &CGAPalette) -> (r: [u8; 4])
    ensures
        r@ == spec_composite_color(bits, *palette),
{
    match palette {
        CGAPalette::Monochrome(_) => {
            let arr: [u8; 4] = match bits {
                0b0000 => [0x00, 0x00, 0x00, 0xFF],
                0b0001 => [0x00, 0x68, 0x0C, 0xFF],
                0b0010 => [0x21, 0x2B, 0xBD, 0xFF],
                0b0011 => [0x0D, 0x9E, 0xD5, 0xFF],
                0b0100 => [0x85, 0x09, 0x6C, 0xFF],
                0b0101 => [0x75, 0x73, 0x76, 0xFF],
                0b0110 => [0xAF, 0x36, 0xFF, 0xFF],
                0b0111 => [0x9B, 0xA9, 0xFF, 0xFF],
                0b1000 => [0x51, 0x47, 0x00, 0xFF],
                0b1001 => [0x42, 0xBD, 0x00, 0xFF],
                0b1010 => [0x51, 0x53, 0x51, 0xFF],
                0b1011 => [0x5D, 0xF4, 0x7A, 0xFF],
                0b1100 => [0xE5, 0x54, 0x1D, 0xFF],
                0b1101 => [0xD7, 0xCB, 0x19, 0xFF],
                0b1110 => [0xFF, 0x81, 0xF2, 0xFF],
                0b1111 => [0xFD, 0xFF, 0xFC, 0xFF],
                _ => [0x00, 0x00, 0x00, 0xFF],
            };
            arr
        },
        CGAPalette::MagentaCyanWhite(_) => {
            let arr: [u8; 4] = match bits {
                0b0000 => [0x00, 0x00, 0x00, 0xFF],
                0b0001 => [0x00, 0x9A, 0xFF, 0xFF],
                0b0010 => [0x00, 0x42, 0xFF, 0xFF],
                0b0011 => [0x00, 0x90, 0xFF, 0xFF],
                0b0100 => [0xAA, 0x4C, 0x00, 0xFF],
                0b0101 => [0x84, 0xFA, 0xD2, 0xFF],
                0b0110 => [0xB9, 0xA2, 0xAD, 0xFF],
                0b0111 => [0x96, 0xF0, 0xFF, 0xFF],
                0b1000 => [0xCD, 0x1F, 0x00, 0xFF],
                0b1001 => [0xA7, 0xCD, 0xFF, 0xFF],
                0b1010 => [0xDC, 0x75, 0xFF, 0xFF],
                0b1011 => [0xB9, 0xC3, 0xFF, 0xFF],
                0b1100 => [0xFF, 0x5C, 0x00, 0xFF],
                0b1101 => [0xED, 0xFF, 0xCC, 0xFF],
                0b1110 => [0xFF, 0xB2, 0xA6, 0xFF],
                0b1111 => [0xFF, 0xFF, 0xFF, 0xFF],
                _ => [0x00, 0x00, 0x00, 0xFF],
            };
            arr
        },
        _ => [0x00, 0x00, 0x00, 0xFF],
    }
}

/// The RGBA bytes of a two-bit graphics pixel under a palette: pixel value
/// zero paints the palette's background colour, the others the palette's
/// three fixed colours, brightened under intensity. The monochrome rows
/// exist only without intensity; every combination outside the table is
/// opaque black.
pub open spec fn spec_gfx_color(bits: u8, palette: CGAPalette, intensity: bool) -> Seq<u8> {
    match palette {
        CGAPalette::Monochrome(fg) => {
            if bits == 0b00 && !intensity {
                seq![0x00u8, 0x00u8, 0x00u8, 0x00u8]
            } else if bits == 0b01 && !intensity {
                spec_rgba(fg)
            } else {
                seq![0x00u8, 0x00u8, 0x00u8, 0xFFu8]
            }
        },
        CGAPalette::RedGreenYellow(bg) => {
            if bits == 0b00 {
                spec_rgba(bg)
            } else if bits == 0b01 {
                if intensity {
                    spec_rgba(CGAColor::GreenBright)
                } else {
                    spec_rgba(CGAColor::Green)
                }
            } else if bits == 0b10 {
                if intensity {
                    spec_rgba(CGAColor::RedBright)
                } else {
                    spec_rgba(CGAColor::Red)
                }
            } else if bits == 0b11 {
                if intensity {
                    spec_rgba(CGAColor::Yellow)
                } else {
                    spec_rgba(CGAColor::Brown)
                }
            } else {
                seq![0x00u8, 0x00u8, 0x00u8, 0xFFu8]
            }
        },
        CGAPalette::MagentaCyanWhite(bg) => {
            if bits == 0b00 {
                spec_rgba(bg)
            } else if bits == 0b01 {
                if intensity {
                    spec_rgba(CGAColor::CyanBright)
                } else {
                    spec_rgba(CGAColor::Cyan)
                }
            } else if bits == 0b10 {
                if intensity {
                    spec_rgba(CGAColor::MagentaBright)
                } else {
                    spec_rgba(CGAColor::Magenta)
                }
            } else if bits == 0b11 {
                if intensity {
                    spec_rgba(CGAColor::WhiteBright)
                } else {
                    spec_rgba(CGAColor::White)
                }
            } else {
                seq![0x00u8, 0x00u8, 0x00u8, 0xFFu8]
            }
        },
        CGAPalette::RedCyanWhite(bg) => {
            if bits == 0b00 {
                spec_rgba(bg)
            } else if bits == 0b01 {
                if intensity {
                    spec_rgba(CGAColor::CyanBright)
                } else {
                    spec_rgba(CGAColor::Cyan)
                }
            } else if bits == 0b10 {
                if intensity {
                    spec_rgba(CGAColor::RedBright)
                } else {
                    spec_rgba(CGAColor::Red)
                }
            } else if bits == 0b11 {
                if intensity {
                    spec_rgba(CGAColor::WhiteBright)
                } else {
                    spec_rgba(CGAColor::Brown)
                }
            } else {
                seq![0x00u8, 0x00u8, 0x00u8, 0xFFu8]
            }
        },
    }
}

/// Return the RGBA bytes of a two-bit graphics pixel.
pub fn get_cga_gfx_color(bits: u8, palette: &CGAPalette, intensity: bool) -> (r: [u8; 4])
    ensures
        r@ == spec_gfx_color(bits, *palette, intensity),
{
    match palette {
        CGAPalette::Monochrome(fg) => {
            if bits == 0b00 && !intensity {
                [0x00u8, 0x00u8, 0x00u8, 0x00u8]
            } else if bits == 0b01 && !intensity {
                color_enum_to_rgba(fg)
            } else {
                [0x00u8, 0x00u8, 0x00u8, 0xFFu8]
            }
        },
        CGAPalette::RedGreenYellow(bg) => {
            if bits == 0b00 {
                color_enum_to_rgba(bg)
            } else if bits == 0b01 {
                if intensity {
                    [0x55u8, 0xFFu8, 0x55u8, 0xFFu8]
                } else {
                    [0x00u8, 0xAAu8, 0x00u8, 0xFFu8]
                }
            } else if bits == 0b10 {
                if intensity {
                    [0xFFu8, 0x55u8, 0x55u8, 0xFFu8]
                } else {
                    [0xAAu8, 0x00u8, 0x00u8, 0xFFu8]
                }
            } else if bits == 0b11 {
                if intensity {
                    [0xFFu8, 0xFFu8, 0x55u8, 0xFFu8]
                } else {
                    [0xAAu8, 0x55u8, 0x00u8, 0xFFu8]
                }
            } else {
                [0x00u8, 0x00u8, 0x00u8, 0xFFu8]
            }
        },
        CGAPalette::MagentaCyanWhite(bg) => {
            if bits == 0b00 {
                color_enum_to_rgba(bg)
            } else if bits == 0b01 {
                if intensity {
                    [0x55u8, 0xFFu8, 0xFFu8, 0xFFu8]
                } else {
                    [0x00u8, 0xAAu8, 0xAAu8, 0xFFu8]
                }
            } else if bits == 0b10 {
                if intensity {
                    [0xFFu8, 0x55u8, 0xFFu8, 0xFFu8]
                } else {
                    [0xAAu8, 0x00u8, 0xAAu8, 0xFFu8]
                }
            } else if bits == 0b11 {
                if intensity {
                    [0xFFu8, 0xFFu8, 0xFFu8, 0xFFu8]
                } else {
                    [0xAAu8, 0xAAu8, 0xAAu8, 0xFFu8]
                }
            } else {
                [0x00u8, 0x00u8, 0x00u8, 0xFFu8]
            }
        },
        CGAPalette::RedCyanWhite(bg) => {
            if bits == 0b00 {
                color_enum_to_rgba(bg)
            } else if bits == 0b01 {
                if intensity {
                    [0x55u8, 0xFFu8, 0xFFu8, 0xFFu8]
                } else {
                    [0x00u8, 0xAAu8, 0xAAu8, 0xFFu8]
                }
            } else if bits == 0b10 {
                if intensity {
                    [0xFFu8, 0x55u8, 0x55u8, 0xFFu8]
                } else {
                    [0xAAu8, 0x00u8, 0x00u8, 0xFFu8]
                }
            } else if bits == 0b11 {
                if intensity {
                    [0xFFu8, 0xFFu8, 0xFFu8, 0xFFu8]
                } else {
                    [0xAAu8, 0x55u8, 0x00u8, 0xFFu8]
                }
            } else {
                [0x00u8, 0x00u8, 0x00u8, 0xFFu8]
            }
        },
    }
}

/// The column of the pixel that frame byte `i` belongs to.
pub open spec fn px_of(i: int, frame_w: int) -> int {
    (i / 4) % frame_w
}

/// The row of the pixel that frame byte `i` belongs to.
pub open spec fn py_of(i: int, frame_w: int) -> int {
    (i / 4) / frame_w
}

/// The colour channel of frame byte `i`.
pub open spec fn chan_of(i: int) -> int {
    i % 4
}

/// Writing a pixel at column `px` of row `py` lands on the frame bytes
/// whose pixel coordinates are exactly `(px, py)`.
proof fn lemma_cell_coords(w: int, px: int, py: int, i: int)
    requires
        w >= 1,
        0 <= px < w,
        0 <= py,
        0 <= i,
    ensures
        i / 4 == py * w + px <==> (px_of(i, w) == px && py_of(i, w) == py),
{
    lemma_fundamental_div_mod(i / 4, w);
    vstd::arithmetic::div_mod::lemma_mod_bound(i / 4, w);
    let q = (py * w + px) / w;
    let m = (py * w + px) % w;
    lemma_fundamental_div_mod(py * w + px, w);
    vstd::arithmetic::div_mod::lemma_mod_bound(py * w + px, w);
    assert(q == py && m == px) by (nonlinear_arith)
        requires
            py * w + px == w * q + m,
            0 <= m < w,
            0 <= px < w,
            w >= 1,
            0 <= py,
    ;
}

/// Writes one RGBA pixel. The contract speaks in pixel coordinates: the
/// four bytes of the pixel at `(px, py)` take the colour, every other byte
/// keeps its value.
fn put_cell(frame: &mut [u8], frame_w: u32, px: u32, py: u32, color: [u8; 4])
    requires
        frame_w >= 1,
        px < frame_w,
        (py * frame_w + px) * 4 + 4 <= old(frame)@.len(),
    ensures
        final(frame)@.len() == old(frame)@.len(),
        forall|i: int|
            0 <= i < final(frame)@.len() ==> final(frame)@[i] == (if px_of(i, frame_w as int)
                == px && py_of(i, frame_w as int) == py {
                color@[chan_of(i)]
            } else {
                old(frame)@[i]
            }),
{
    let n = frame.len();
    let base: usize = (py as usize * frame_w as usize + px as usize) * 4;
    proof {
        assert(base + 4 <= n);
    }
    frame[base] = color[0];
    frame[base + 1] = color[1];
    frame[base + 2] = color[2];
    frame[base + 3] = color[3];
    proof {
        let w = frame_w as int;
        assert forall|i: int|
            0 <= i < frame@.len() implies frame@[i] == (if px_of(i, w) == px && py_of(i, w)
                == py {
                color@[chan_of(i)]
            } else {
                old(frame)@[i]
            }) by {
            lemma_cell_coords(w, px as int, py as int, i);
            lemma_fundamental_div_mod(i, 4);
            if px_of(i, w) == px as int && py_of(i, w) == py as int {
                assert(i / 4 == py * frame_w + px);
                assert(i == 4 * (i / 4) + i % 4);
            } else {
                assert(i / 4 != py * frame_w + px);
                assert(!(base <= i < base + 4)) by {
                    if base <= i < base + 4 {
                        assert(i / 4 == py * frame_w + px);
                    }
                }
            }
        }
    }
}

/// Whether the font paints the pixel at `(row, col)` of a glyph in the
/// foreground colour.
pub open spec fn spec_glyph_pixel(font: Seq<u8>, glyph: u8, row: int, col: int) -> bool {
    (0x80u8 >> (col as u8)) & font[(glyph as int / 32) * 256 + row * 32 + glyph as int % 32] > 0
}

/// The colour of the pixel at `(row, col)` of a glyph.
pub open spec fn spec_glyph_cell_color(
    font: Seq<u8>,
    glyph: u8,
    fg: CGAColor,
    bg: CGAColor,
    row: int,
    col: int,
) -> Seq<u8> {
    if spec_glyph_pixel(font, glyph, row, col) {
        spec_rgba(fg)
    } else {
        spec_rgba(bg)
    }
}

/// The byte of the glyph row `row`.
fn glyph_row_byte(font: &[u8], glyph: u8, row: u32) -> (b: u8)
    requires
        font@.len() == FONT_SIZE,
        row < 8,
    ensures
        b == font@[(glyph as int / 32) * 256 + row * 32 + glyph as int % 32],
{
    let glyph_offset_src_x = glyph as usize % 32;
    let glyph_offset_src_y = (glyph as usize / 32) * 256;
    *vstd::slice::slice_index_get(font, glyph_offset_src_y + row as usize * 32 + glyph_offset_src_x)
}

/// The frame with one glyph drawn at pixel `(pos_x, pos_y)`, one frame
/// pixel per glyph pixel.
pub open spec fn spec_glyph_frame(
    frame: Seq<u8>,
    frame_w: int,
    font: Seq<u8>,
    glyph: u8,
    fg: CGAColor,
    bg: CGAColor,
    pos_x: int,
    pos_y: int,
) -> Seq<u8> {
    Seq::new(
        frame.len(),
        |i: int|
            if pos_y <= py_of(i, frame_w) < pos_y + 8 && pos_x <= px_of(i, frame_w) < pos_x
                + 8 {
                spec_glyph_cell_color(
                    font,
                    glyph,
                    fg,
                    bg,
                    py_of(i, frame_w) - pos_y,
                    px_of(i, frame_w) - pos_x,
                )[chan_of(i)]
            } else {
                frame[i]
            },
    )
}

/// Draw a font glyph at an arbitrary pixel location. A glyph that would
/// run off the frame is not drawn. The character-height argument is not
/// used at single scale; the glyph is its fixed eight rows.
pub fn draw_glyph(
    glyph: u8,
    fg_color: CGAColor,
    bg_color: CGAColor,
    frame: &mut [u8],
    frame_w: u32,
    frame_h: u32,
    char_height: u32,
    pos_x: u32,
    pos_y: u32,
    font: &[u8],
)
    requires
        font@.len() == FONT_SIZE,
        old(frame)@.len() >= frame_w * frame_h * 4,
        1 <= frame_w <= 8192,
        frame_h <= 8192,
    ensures
        final(frame)@.len() == old(frame)@.len(),
        pos_x + FONT_W > frame_w || pos_y + FONT_H > frame_h ==> final(frame)@ == old(frame)@,
        pos_x + FONT_W <= frame_w && pos_y + FONT_H <= frame_h ==> final(frame)@
            == spec_glyph_frame(
            old(frame)@,
            frame_w as int,
            font@,
            glyph,
            fg_color,
            bg_color,
            pos_x as int,
            pos_y as int,
        ),
{
    // Do not draw a glyph off screen
    if pos_x as u64 + FONT_W as u64 > frame_w as u64 {
        return ;
    }
    if pos_y as u64 + FONT_H as u64 > frame_h as u64 {
        return ;
    }
    let fg = color_enum_to_rgba(&fg_color);
    let bg = color_enum_to_rgba(&bg_color);
    let w = frame_w;
    let ghost frame0 = frame@;
    let mut r: u32 = 0;
    while r < 8
        invariant
            font@.len() == FONT_SIZE,
            frame@.len() == frame0.len(),
            frame0.len() >= frame_w * frame_h * 4,
            1 <= frame_w <= 8192,
            frame_h <= 8192,
            w == frame_w,
            pos_x + 8 <= frame_w,
            pos_y + 8 <= frame_h,
            r <= 8,
            fg@ == spec_rgba(fg_color),
            bg@ == spec_rgba(bg_color),
            forall|i: int|
                0 <= i < frame@.len() ==> frame@[i] == (if pos_y <= py_of(i, frame_w as int)
                    < pos_y + r && pos_x <= px_of(i, frame_w as int) < pos_x + 8 {
                    spec_glyph_cell_color(
                        font@,
                        glyph,
                        fg_color,
                        bg_color,
                        py_of(i, frame_w as int) - pos_y,
                        px_of(i, frame_w as int) - pos_x,
                    )[chan_of(i)]
                } else {
                    frame0[i]
                }),
        decreases 8 - r,
    {
        let row_byte = glyph_row_byte(font, glyph, r);
        let mut c: u32 = 0;
        while c < 8
            invariant
                font@.len() == FONT_SIZE,
                frame@.len() == frame0.len(),
                frame0.len() >= frame_w * frame_h * 4,
                    1 <= frame_w <= 8192,
                frame_h <= 8192,
                w == frame_w,
                pos_x + 8 <= frame_w,
                pos_y + 8 <= frame_h,
                r < 8,
                c <= 8,
                fg@ == spec_rgba(fg_color),
                bg@ == spec_rgba(bg_color),
                row_byte == font@[(glyph as int / 32) * 256 + r * 32 + glyph as int % 32],
                forall|i: int|
                    0 <= i < frame@.len() ==> frame@[i] == (if pos_y <= py_of(i, frame_w as int)
                        < pos_y + r && pos_x <= px_of(i, frame_w as int) < pos_x + 8 {
                        spec_glyph_cell_color(
                            font@,
                            glyph,
                            fg_color,
                            bg_color,
                            py_of(i, frame_w as int) - pos_y,
                            px_of(i, frame_w as int) - pos_x,
                        )[chan_of(i)]
                    } else if py_of(i, frame_w as int) == pos_y + r && pos_x <= px_of(
                        i,
                        frame_w as int,
                    ) < pos_x + c {
                        spec_glyph_cell_color(
                            font@,
                            glyph,
                            fg_color,
                            bg_color,
                            r as int,
                            px_of(i, frame_w as int) - pos_x,
                        )[chan_of(i)]
                    } else {
                        frame0[i]
                    }),
            decreases 8 - c,
        {
            let test_bit: u8 = 0x80u8 >> (c as u8);
            let color = if test_bit & row_byte > 0 {
                fg
            } else {
                bg
            };
            proof {
                assert((pos_y + r) * frame_w + (pos_x + c) < frame_w * frame_h)
                    by (nonlinear_arith)
                    requires
                        pos_y + r < frame_h,
                        pos_x + c < frame_w,
                        frame_w >= 1,
                ;
            }
            put_cell(frame, w, pos_x + c, pos_y + r, color);
            c = c + 1;
        }
        r = r + 1;
    }
    proof {
        assert(frame@ =~= spec_glyph_frame(
            frame0,
            frame_w as int,
            font@,
            glyph,
            fg_color,
            bg_color,
            pos_x as int,
            pos_y as int,
        ));
    }
}

/// The frame with a rectangle of pixels filled in one colour.
pub open spec fn spec_fill_rect(
    frame: Seq<u8>,
    frame_w: int,
    x0: int,
    y0: int,
    w_px: int,
    h_px: int,
    color: Seq<u8>,
) -> Seq<u8> {
    Seq::new(
        frame.len(),
        |i: int|
            if y0 <= py_of(i, frame_w) < y0 + h_px && x0 <= px_of(i, frame_w) < x0 + w_px {
                color[chan_of(i)]
            } else {
                frame[i]
            },
    )
}

/// Fills a rectangle of pixels with one colour.
fn fill_rect(frame: &mut [u8], frame_w: u32, x0: u32, y0: u32, w_px: u32, h_px: u32, color: [u8; 4])
    requires
        1 <= frame_w <= 8192,
        x0 + w_px <= frame_w,
        y0 + h_px <= 8192,
        (y0 + h_px) * frame_w * 4 <= old(frame)@.len(),
    ensures
        final(frame)@.len() == old(frame)@.len(),
        final(frame)@ == spec_fill_rect(
            old(frame)@,
            frame_w as int,
            x0 as int,
            y0 as int,
            w_px as int,
            h_px as int,
            color@,
        ),
{
    let ghost frame0 = frame@;
    let mut r: u32 = 0;
    while r < h_px
        invariant
            frame@.len() == frame0.len(),
            1 <= frame_w <= 8192,
            x0 + w_px <= frame_w,
            y0 + h_px <= 8192,
            (y0 + h_px) * frame_w * 4 <= frame0.len(),
            r <= h_px,
            forall|i: int|
                0 <= i < frame@.len() ==> frame@[i] == (if y0 <= py_of(i, frame_w as int) < y0
                    + r && x0 <= px_of(i, frame_w as int) < x0 + w_px {
                    color@[chan_of(i)]
                } else {
                    frame0[i]
                }),
        decreases h_px - r,
    {
        let mut c: u32 = 0;
        while c < w_px
            invariant
                frame@.len() == frame0.len(),
                    1 <= frame_w <= 8192,
                x0 + w_px <= frame_w,
                y0 + h_px <= 8192,
                (y0 + h_px) * frame_w * 4 <= frame0.len(),
                r < h_px,
                c <= w_px,
                forall|i: int|
                    0 <= i < frame@.len() ==> frame@[i] == (if y0 <= py_of(i, frame_w as int)
                        < y0 + r && x0 <= px_of(i, frame_w as int) < x0 + w_px {
                        color@[chan_of(i)]
                    } else if py_of(i, frame_w as int) == y0 + r && x0 <= px_of(i, frame_w as int)
                        < x0 + c {
                        color@[chan_of(i)]
                    } else {
                        frame0[i]
                    }),
            decreases w_px - c,
        {
            proof {
                assert(((y0 + r) * frame_w + (x0 + c)) * 4 + 4 <= (y0 + h_px) * frame_w * 4)
                    by (nonlinear_arith)
                    requires
                        y0 + r < y0 + h_px,
                        x0 + c < frame_w,
                        frame_w >= 1,
                ;
            }
            put_cell(frame, frame_w, x0 + c, y0 + r, color);
            c = c + 1;
        }
        r = r + 1;
    }
    proof {
        assert(frame@ =~= spec_fill_rect(
            frame0,
            frame_w as int,
            x0 as int,
            y0 as int,
            w_px as int,
            h_px as int,
            color@,
        ));
    }
}

/// The frame with one glyph drawn at double height: the character cell sits
/// at pixel `(pos_x, 2 * pos_y)` and every glyph row paints two frame rows.
pub open spec fn spec_glyph2x_frame(
    frame: Seq<u8>,
    frame_w: int,
    font: Seq<u8>,
    glyph: u8,
    fg: CGAColor,
    bg: CGAColor,
    char_height: int,
    pos_x: int,
    pos_y: int,
) -> Seq<u8> {
    Seq::new(
        frame.len(),
        |i: int|
            if 2 * pos_y <= py_of(i, frame_w) < 2 * pos_y + 2 * char_height && pos_x <= px_of(
                i,
                frame_w,
            ) < pos_x + 8 {
                spec_glyph_cell_color(
                    font,
                    glyph,
                    fg,
                    bg,
                    (py_of(i, frame_w) - 2 * pos_y) / 2,
                    px_of(i, frame_w) - pos_x,
                )[chan_of(i)]
            } else {
                frame[i]
            },
    )
}

/// Draw a font glyph in the eighty-column mode: single width, doubled
/// height, `char_height` glyph rows.
pub fn draw_glyph2x(
    glyph: u8,
    fg_color: CGAColor,
    bg_color: CGAColor,
    frame: &mut [u8],
    frame_w: u32,
    frame_h: u32,
    char_height: u32,
    pos_x: u32,
    pos_y: u32,
    font: &[u8],
)
    requires
        font@.len() == FONT_SIZE,
        old(frame)@.len() >= frame_w * frame_h * 4,
        1 <= frame_w <= 8192,
        frame_h <= 8192,
        char_height <= 8,
    ensures
        final(frame)@.len() == old(frame)@.len(),
        pos_x + FONT_W > frame_w || pos_y * 2 + FONT_H * 2 > frame_h ==> final(frame)@ == old(
            frame,
        )@,
        pos_x + FONT_W <= frame_w && pos_y * 2 + FONT_H * 2 <= frame_h ==> final(frame)@
            == spec_glyph2x_frame(
            old(frame)@,
            frame_w as int,
            font@,
            glyph,
            fg_color,
            bg_color,
            char_height as int,
            pos_x as int,
            pos_y as int,
        ),
{
    // Do not draw a glyph off screen
    if pos_x as u64 + FONT_W as u64 > frame_w as u64 {
        return ;
    }
    if pos_y as u64 * 2 + (FONT_H as u64 * 2) > frame_h as u64 {
        return ;
    }
    let fg = color_enum_to_rgba(&fg_color);
    let bg = color_enum_to_rgba(&bg_color);
    let ghost frame0 = frame@;
    let mut rr: u32 = 0;
    while rr < 2 * char_height
        invariant
            font@.len() == FONT_SIZE,
            frame@.len() == frame0.len(),
            frame0.len() >= frame_w * frame_h * 4,
            1 <= frame_w <= 8192,
            frame_h <= 8192,
            char_height <= 8,
            pos_x + 8 <= frame_w,
            pos_y * 2 + 16 <= frame_h,
            rr <= 2 * char_height,
            fg@ == spec_rgba(fg_color),
            bg@ == spec_rgba(bg_color),
            forall|i: int|
                0 <= i < frame@.len() ==> frame@[i] == (if 2 * pos_y <= py_of(i, frame_w as int)
                    < 2 * pos_y + rr && pos_x <= px_of(i, frame_w as int) < pos_x + 8 {
                    spec_glyph_cell_color(
                        font@,
                        glyph,
                        fg_color,
                        bg_color,
                        (py_of(i, frame_w as int) - 2 * pos_y) / 2,
                        px_of(i, frame_w as int) - pos_x,
                    )[chan_of(i)]
                } else {
                    frame0[i]
                }),
        decreases 2 * char_height - rr,
    {
        let row_byte = glyph_row_byte(font, glyph, rr / 2);
        let mut c: u32 = 0;
        while c < 8
            invariant
                font@.len() == FONT_SIZE,
                frame@.len() == frame0.len(),
                frame0.len() >= frame_w * frame_h * 4,
                    1 <= frame_w <= 8192,
                frame_h <= 8192,
                char_height <= 8,
                pos_x + 8 <= frame_w,
                pos_y * 2 + 16 <= frame_h,
                rr < 2 * char_height,
                c <= 8,
                fg@ == spec_rgba(fg_color),
                bg@ == spec_rgba(bg_color),
                row_byte == font@[(glyph as int / 32) * 256 + (rr as int / 2) * 32 + glyph as int
                    % 32],
                forall|i: int|
                    0 <= i < frame@.len() ==> frame@[i] == (if 2 * pos_y <= py_of(
                        i,
                        frame_w as int,
                    ) < 2 * pos_y + rr && pos_x <= px_of(i, frame_w as int) < pos_x + 8 {
                        spec_glyph_cell_color(
                            font@,
                            glyph,
                            fg_color,
                            bg_color,
                            (py_of(i, frame_w as int) - 2 * pos_y) / 2,
                            px_of(i, frame_w as int) - pos_x,
                        )[chan_of(i)]
                    } else if py_of(i, frame_w as int) == 2 * pos_y + rr && pos_x <= px_of(
                        i,
                        frame_w as int,
                    ) < pos_x + c {
                        spec_glyph_cell_color(
                            font@,
                            glyph,
                            fg_color,
                            bg_color,
                            rr as int / 2,
                            px_of(i, frame_w as int) - pos_x,
                        )[chan_of(i)]
                    } else {
                        frame0[i]
                    }),
            decreases 8 - c,
        {
            let test_bit: u8 = 0x80u8 >> (c as u8);
            let color = if test_bit & row_byte > 0 {
                fg
            } else {
                bg
            };
            proof {
                assert(((2 * pos_y + rr) * frame_w + (pos_x + c)) * 4 + 4 <= frame_w * frame_h
                    * 4) by (nonlinear_arith)
                    requires
                        2 * pos_y + rr < frame_h,
                        pos_x + c < frame_w,
                        frame_w >= 1,
                ;
            }
            put_cell(frame, frame_w, pos_x + c, 2 * pos_y + rr, color);
            c = c + 1;
        }
        rr = rr + 1;
    }
    proof {
        assert(frame@ =~= spec_glyph2x_frame(
            frame0,
            frame_w as int,
            font@,
            glyph,
            fg_color,
            bg_color,
            char_height as int,
            pos_x as int,
            pos_y as int,
        ));
    }
}

/// The frame with one glyph drawn at double width and height: the cell sits
/// at pixel `(2 * pos_x, 2 * pos_y)` and every glyph pixel paints a
/// two-by-two block.
pub open spec fn spec_glyph4x_frame(
    frame: Seq<u8>,
    frame_w: int,
    font: Seq<u8>,
    glyph: u8,
    fg: CGAColor,
    bg: CGAColor,
    char_height: int,
    pos_x: int,
    pos_y: int,
) -> Seq<u8> {
    Seq::new(
        frame.len(),
        |i: int|
            if 2 * pos_y <= py_of(i, frame_w) < 2 * pos_y + 2 * char_height && 2 * pos_x <= px_of(
                i,
                frame_w,
            ) < 2 * pos_x + 16 {
                spec_glyph_cell_color(
                    font,
                    glyph,
                    fg,
                    bg,
                    (py_of(i, frame_w) - 2 * pos_y) / 2,
                    (px_of(i, frame_w) - 2 * pos_x) / 2,
                )[chan_of(i)]
            } else {
                frame[i]
            },
    )
}

/// Draw a font glyph in the forty-column mode: doubled width and height,
/// `char_height` glyph rows.
pub fn draw_glyph4x(
    glyph: u8,
    fg_color: CGAColor,
    bg_color: CGAColor,
    frame: &mut [u8],
    frame_w: u32,
    frame_h: u32,
    char_height: u32,
    pos_x: u32,
    pos_y: u32,
    font: &[u8],
)
    requires
        font@.len() == FONT_SIZE,
        old(frame)@.len() >= frame_w * frame_h * 4,
        1 <= frame_w <= 8192,
        frame_h <= 8192,
        char_height <= 8,
    ensures
        final(frame)@.len() == old(frame)@.len(),
        pos_x * 2 + FONT_W * 2 > frame_w || pos_y * 2 + FONT_H * 2 > frame_h ==> final(frame)@
            == old(frame)@,
        pos_x * 2 + FONT_W * 2 <= frame_w && pos_y * 2 + FONT_H * 2 <= frame_h ==> final(frame)@
            == spec_glyph4x_frame(
            old(frame)@,
            frame_w as int,
            font@,
            glyph,
            fg_color,
            bg_color,
            char_height as int,
            pos_x as int,
            pos_y as int,
        ),
{
    // Do not draw a glyph off screen
    if pos_x as u64 * 2 + (FONT_W as u64 * 2) > frame_w as u64 {
        return ;
    }
    if pos_y as u64 * 2 + (FONT_H as u64 * 2) > frame_h as u64 {
        return ;
    }
    let fg = color_enum_to_rgba(&fg_color);
    let bg = color_enum_to_rgba(&bg_color);
    let ghost frame0 = frame@;
    let mut rr: u32 = 0;
    while rr < 2 * char_height
        invariant
            font@.len() == FONT_SIZE,
            frame@.len() == frame0.len(),
            frame0.len() >= frame_w * frame_h * 4,
            1 <= frame_w <= 8192,
            frame_h <= 8192,
            char_height <= 8,
            pos_x * 2 + 16 <= frame_w,
            pos_y * 2 + 16 <= frame_h,
            rr <= 2 * char_height,
            fg@ == spec_rgba(fg_color),
            bg@ == spec_rgba(bg_color),
            forall|i: int|
                0 <= i < frame@.len() ==> frame@[i] == (if 2 * pos_y <= py_of(i, frame_w as int)
                    < 2 * pos_y + rr && 2 * pos_x <= px_of(i, frame_w as int) < 2 * pos_x + 16 {
                    spec_glyph_cell_color(
                        font@,
                        glyph,
                        fg_color,
                        bg_color,
                        (py_of(i, frame_w as int) - 2 * pos_y) / 2,
                        (px_of(i, frame_w as int) - 2 * pos_x) / 2,
                    )[chan_of(i)]
                } else {
                    frame0[i]
                }),
        decreases 2 * char_height - rr,
    {
        let row_byte = glyph_row_byte(font, glyph, rr / 2);
        let mut cc: u32 = 0;
        while cc < 16
            invariant
                font@.len() == FONT_SIZE,
                frame@.len() == frame0.len(),
                frame0.len() >= frame_w * frame_h * 4,
                    1 <= frame_w <= 8192,
                frame_h <= 8192,
                char_height <= 8,
                pos_x * 2 + 16 <= frame_w,
                pos_y * 2 + 16 <= frame_h,
                rr < 2 * char_height,
                cc <= 16,
                fg@ == spec_rgba(fg_color),
                bg@ == spec_rgba(bg_color),
                row_byte == font@[(glyph as int / 32) * 256 + (rr as int / 2) * 32 + glyph as int
                    % 32],
                forall|i: int|
                    0 <= i < frame@.len() ==> frame@[i] == (if 2 * pos_y <= py_of(
                        i,
                        frame_w as int,
                    ) < 2 * pos_y + rr && 2 * pos_x <= px_of(i, frame_w as int) < 2 * pos_x
                        + 16 {
                        spec_glyph_cell_color(
                            font@,
                            glyph,
                            fg_color,
                            bg_color,
                            (py_of(i, frame_w as int) - 2 * pos_y) / 2,
                            (px_of(i, frame_w as int) - 2 * pos_x) / 2,
                        )[chan_of(i)]
                    } else if py_of(i, frame_w as int) == 2 * pos_y + rr && 2 * pos_x <= px_of(
                        i,
                        frame_w as int,
                    ) < 2 * pos_x + cc {
                        spec_glyph_cell_color(
                            font@,
                            glyph,
                            fg_color,
                            bg_color,
                            rr as int / 2,
                            (px_of(i, frame_w as int) - 2 * pos_x) / 2,
                        )[chan_of(i)]
                    } else {
                        frame0[i]
                    }),
            decreases 16 - cc,
        {
            let test_bit: u8 = 0x80u8 >> ((cc / 2) as u8);
            let color = if test_bit & row_byte > 0 {
                fg
            } else {
                bg
            };
            proof {
                assert(((2 * pos_y + rr) * frame_w + (2 * pos_x + cc)) * 4 + 4 <= frame_w
                    * frame_h * 4) by (nonlinear_arith)
                    requires
                        2 * pos_y + rr < frame_h,
                        2 * pos_x + cc < frame_w,
                        frame_w >= 1,
                ;
            }
            put_cell(frame, frame_w, 2 * pos_x + cc, 2 * pos_y + rr, color);
            cc = cc + 1;
        }
        rr = rr + 1;
    }
    proof {
        assert(frame@ =~= spec_glyph4x_frame(
            frame0,
            frame_w as int,
            font@,
            glyph,
            fg_color,
            bg_color,
            char_height as int,
            pos_x as int,
            pos_y as int,
        ));
    }
}

/// Whether a cursor is drawn at all: it must be visible, on screen for the
/// given cell width, with its start line no later than its end line, and
/// its attribute byte inside the frame-buffer window.
pub open spec fn spec_cursor_drawn(
    cursor: CursorInfo,
    frame_w: int,
    frame_h: int,
    mem_len: int,
    double_wide: bool,
) -> bool {
    &&& cursor.visible
    &&& (if double_wide {
        cursor.pos_x * 16 + 16 <= frame_w
    } else {
        cursor.pos_x * 8 + 8 <= frame_w
    })
    &&& cursor.pos_y * 16 + 16 <= frame_h
    &&& cursor.line_start <= cursor.line_end
    &&& cursor.addr * 2 + 1 < mem_len
}

/// The cursor's end line after clipping at the bottom of the frame.
pub open spec fn spec_cursor_end_line(cursor: CursorInfo, frame_h: int) -> int {
    if cursor.pos_y * 16 + cursor.line_end * 2 >= frame_h {
        cursor.line_end - 1
    } else {
        cursor.line_end as int
    }
}

/// The foreground colour of the character cell under the cursor.
pub open spec fn spec_cursor_color(cursor: CursorInfo, mem: Seq<u8>) -> CGAColor {
    spec_nibble_color((mem[cursor.addr * 2 + 1] % 16) as u8)
}

/// Draw the cursor as a filled run of scan lines in the forty-column mode:
/// doubled width and height. The scan lines between the start register and
/// the end register (exclusive, as on the adapter's doubled field) fill
/// with the cell's foreground colour.
pub fn draw_cursor4x(cursor: CursorInfo, frame: &mut [u8], frame_w: u32, frame_h: u32, mem: &[u8])
    requires
        old(frame)@.len() >= frame_w * frame_h * 4,
        1 <= frame_w <= 8192,
        frame_h <= 8192,
        cursor.line_end <= 8,
        cursor.addr < 16384,
    ensures
        final(frame)@.len() == old(frame)@.len(),
        !spec_cursor_drawn(cursor, frame_w as int, frame_h as int, mem@.len() as int, true)
            ==> final(frame)@ == old(frame)@,
        spec_cursor_drawn(cursor, frame_w as int, frame_h as int, mem@.len() as int, true)
            ==> final(frame)@ == spec_fill_rect(
            old(frame)@,
            frame_w as int,
            cursor.pos_x * 16,
            cursor.pos_y * 16 + cursor.line_start * 2,
            16,
            2 * (spec_cursor_end_line(cursor, frame_h as int) - cursor.line_start),
            spec_rgba(spec_cursor_color(cursor, mem@)),
        ),
{
    // First off, is the cursor even visible?
    if !cursor.visible {
        return ;
    }
    // Do not draw the cursor off screen
    if cursor.pos_x as u64 * 16 + (FONT_W as u64 * 2) > frame_w as u64 {
        return ;
    }
    if cursor.pos_y as u64 * 16 + (FONT_H as u64 * 2) > frame_h as u64 {
        return ;
    }
    let pos_x: u32 = cursor.pos_x * 8;
    let pos_y: u32 = cursor.pos_y * 8;
    // The start register past the end register shows no cursor
    if cursor.line_start > cursor.line_end {
        return ;
    }
    let line_start: u32 = cursor.line_start as u32;
    let mut line_end: u32 = cursor.line_end as u32;
    // Clip the cursor at the bottom of the frame
    if pos_y * 2 + line_end * 2 >= frame_h {
        line_end = line_end - 1;
    }
    // Is the character attribute inside the frame-buffer window?
    let attr_addr = cursor.addr * 2 + 1;
    if attr_addr >= mem.len() {
        return ;
    }
    let cursor_attr: u8 = *vstd::slice::slice_index_get(mem, attr_addr);
    let (fg_color, _bg_color) = get_colors_from_attr_byte(cursor_attr);
    let color = color_enum_to_rgba(&fg_color);
    let h_px: u32 = if line_end >= line_start {
        2 * (line_end - line_start)
    } else {
        0
    };
    proof {
        assert((pos_y * 2 + line_start * 2 + h_px) * frame_w * 4 <= frame_w * frame_h * 4)
            by (nonlinear_arith)
            requires
                pos_y * 2 + line_start * 2 + h_px <= frame_h,
                frame_w >= 1,
        ;
    }
    fill_rect(frame, frame_w, pos_x * 2, pos_y * 2 + line_start * 2, 16, h_px, color);
    proof {
        assert(frame@ =~= spec_fill_rect(
            old(frame)@,
            frame_w as int,
            cursor.pos_x * 16,
            cursor.pos_y * 16 + cursor.line_start * 2,
            16,
            2 * (spec_cursor_end_line(cursor, frame_h as int) - cursor.line_start),
            spec_rgba(spec_cursor_color(cursor, mem@)),
        ));
    }
}

/// Draw the cursor as a filled run of scan lines in the eighty-column
/// mode: single width, doubled height. The run includes the end line, as
/// on the adapter's single field.
pub fn draw_cursor2x(cursor: CursorInfo, frame: &mut [u8], frame_w: u32, frame_h: u32, mem: &[u8])
    requires
        old(frame)@.len() >= frame_w * frame_h * 4,
        1 <= frame_w <= 8192,
        frame_h <= 8192,
        frame_h % 2 == 0,
        cursor.line_end <= 8,
        cursor.addr < 16384,
    ensures
        final(frame)@.len() == old(frame)@.len(),
        !spec_cursor_drawn(cursor, frame_w as int, frame_h as int, mem@.len() as int, false)
            ==> final(frame)@ == old(frame)@,
        spec_cursor_drawn(cursor, frame_w as int, frame_h as int, mem@.len() as int, false)
            ==> final(frame)@ == spec_fill_rect(
            old(frame)@,
            frame_w as int,
            cursor.pos_x * 8,
            cursor.pos_y * 16 + cursor.line_start * 2,
            8,
            2 * (spec_cursor_end_line(cursor, frame_h as int) - cursor.line_start) + 2,
            spec_rgba(spec_cursor_color(cursor, mem@)),
        ),
{
    // First off, is the cursor even visible?
    if !cursor.visible {
        return ;
    }
    // Do not draw the cursor off screen
    if cursor.pos_x as u64 * 8 + FONT_W as u64 > frame_w as u64 {
        return ;
    }
    if cursor.pos_y as u64 * 16 + (FONT_H as u64 * 2) > frame_h as u64 {
        return ;
    }
    let pos_x: u32 = cursor.pos_x * 8;
    let pos_y: u32 = cursor.pos_y * 8;
    // The start register past the end register shows no cursor
    if cursor.line_start > cursor.line_end {
        return ;
    }
    let line_start: u32 = cursor.line_start as u32;
    let mut line_end: u32 = cursor.line_end as u32;
    // Clip the cursor at the bottom of the frame
    if pos_y * 2 + line_end * 2 >= frame_h {
        line_end = line_end - 1;
    }
    // Is the character attribute inside the frame-buffer window?
    let attr_addr = cursor.addr * 2 + 1;
    if attr_addr >= mem.len() {
        return ;
    }
    let cursor_attr: u8 = *vstd::slice::slice_index_get(mem, attr_addr);
    let (fg_color, _bg_color) = get_colors_from_attr_byte(cursor_attr);
    let color = color_enum_to_rgba(&fg_color);
    let h_px: u32 = if line_end >= line_start {
        2 * (line_end - line_start) + 2
    } else {
        0
    };
    proof {
        assert((pos_y * 2 + line_start * 2 + h_px) * frame_w * 4 <= frame_w * frame_h * 4)
            by (nonlinear_arith)
            requires
                pos_y * 2 + line_start * 2 + h_px <= frame_h,
                frame_w >= 1,
        ;
    }
    fill_rect(frame, frame_w, pos_x, pos_y * 2 + line_start * 2, 8, h_px, color);
    proof {
        assert(frame@ =~= spec_fill_rect(
            old(frame)@,
            frame_w as int,
            cursor.pos_x * 8,
            cursor.pos_y * 16 + cursor.line_start * 2,
            8,
            2 * (spec_cursor_end_line(cursor, frame_h as int) - cursor.line_start) + 2,
            spec_rgba(spec_cursor_color(cursor, mem@)),
        ));
    }
}

/// The two-bit pixel value of the low-resolution graphics frame buffer at
/// pixel `(px, py)`: even scan-line pairs come from the first memory field,
/// odd pairs from the second, four pixels to a byte, leftmost first.
pub open spec fn spec_gfx2x_bits(mem: Seq<u8>, px: int, py: int) -> u8 {
    let field = (py % 4) / 2;
    let dy = py / 4;
    let byte = mem[field * 8192 + dy * 80 + px / 8];
    let pix_n = (px % 8) / 2;
    (byte >> ((6 - 2 * pix_n) as u8)) & 3
}

/// The one-bit pixel value of the high-resolution graphics frame buffer at
/// pixel `(px, py)`, eight pixels to a byte.
pub open spec fn spec_gfx_hires_bits(mem: Seq<u8>, px: int, py: int) -> u8 {
    let field = (py % 4) / 2;
    let dy = py / 4;
    let byte = mem[field * 8192 + dy * 80 + px / 8];
    (byte >> ((7 - px % 8) as u8)) & 1
}

/// The four-bit composite artifact value at pixel `(px, py)`, two artifact
/// cells to a byte.
pub open spec fn spec_gfx_composite_bits(mem: Seq<u8>, px: int, py: int) -> u8 {
    let field = (py % 4) / 2;
    let dy = py / 4;
    let byte = mem[field * 8192 + dy * 80 + px / 8];
    let pix_n = (px % 8) / 4;
    (byte >> ((4 - 4 * pix_n) as u8)) & 0xF
}

/// The full frame the low-resolution mode paints; bytes past the fixed
/// frame keep their values.
pub open spec fn spec_gfx2x_frame(
    frame: Seq<u8>,
    mem: Seq<u8>,
    pal: CGAPalette,
    intensity: bool,
) -> Seq<u8> {
    Seq::new(
        frame.len(),
        |i: int|
            if py_of(i, FRAME_W as int) < FRAME_H {
                spec_gfx_color(
                    spec_gfx2x_bits(mem, px_of(i, FRAME_W as int), py_of(i, FRAME_W as int)),
                    pal,
                    intensity,
                )[chan_of(i)]
            } else {
                frame[i]
            },
    )
}

/// The full frame the high-resolution mode paints; bytes past the fixed
/// frame keep their values.
pub open spec fn spec_gfx_hires_frame(frame: Seq<u8>, mem: Seq<u8>, pal: CGAPalette) -> Seq<u8> {
    Seq::new(
        frame.len(),
        |i: int|
            if py_of(i, FRAME_W as int) < FRAME_H {
                spec_gfx_color(
                    spec_gfx_hires_bits(
                        mem,
                        px_of(i, FRAME_W as int),
                        py_of(i, FRAME_W as int),
                    ),
                    pal,
                    false,
                )[chan_of(i)]
            } else {
                frame[i]
            },
    )
}

/// The full frame the composite rendering paints; bytes past the fixed
/// frame keep their values.
pub open spec fn spec_gfx_composite_frame(frame: Seq<u8>, mem: Seq<u8>, pal: CGAPalette) -> Seq<
    u8,
> {
    Seq::new(
        frame.len(),
        |i: int|
            if py_of(i, FRAME_W as int) < FRAME_H {
                spec_composite_color(
                    spec_gfx_composite_bits(
                        mem,
                        px_of(i, FRAME_W as int),
                        py_of(i, FRAME_W as int),
                    ),
                    pal,
                )[chan_of(i)]
            } else {
                frame[i]
            },
    )
}

/// The colour of one low-resolution graphics pixel.
fn gfx2x_color(mem: &[u8], px: u32, py: u32, pal: &CGAPalette, intensity: bool) -> (c: [u8; 4])
    requires
        mem@.len() >= CGA_MEM_SIZE,
        px < FRAME_W,
        py < FRAME_H,
    ensures
        c@ == spec_gfx_color(spec_gfx2x_bits(mem@, px as int, py as int), *pal, intensity),
{
    let field = (py % 4) / 2;
    let dy = py / 4;
    let byte = *vstd::slice::slice_index_get(
        mem,
        (field * 8192 + dy * 80 + px / 8) as usize,
    );
    let pix_n = (px % 8) / 2;
    let bits = (byte >> ((6 - 2 * pix_n) as u8)) & 3;
    get_cga_gfx_color(bits, pal, intensity)
}

/// The colour of one high-resolution graphics pixel.
fn gfx_hires_color(mem: &[u8], px: u32, py: u32, pal: &CGAPalette) -> (c: [u8; 4])
    requires
        mem@.len() >= CGA_MEM_SIZE,
        px < FRAME_W,
        py < FRAME_H,
    ensures
        c@ == spec_gfx_color(spec_gfx_hires_bits(mem@, px as int, py as int), *pal, false),
{
    let field = (py % 4) / 2;
    let dy = py / 4;
    let byte = *vstd::slice::slice_index_get(
        mem,
        (field * 8192 + dy * 80 + px / 8) as usize,
    );
    let bits = (byte >> ((7 - px % 8) as u8)) & 1;
    get_cga_gfx_color(bits, pal, false)
}

/// The colour of one composite artifact cell.
fn gfx_composite_color(mem: &[u8], px: u32, py: u32, pal: &CGAPalette) -> (c: [u8; 4])
    requires
        mem@.len() >= CGA_MEM_SIZE,
        px < FRAME_W,
        py < FRAME_H,
    ensures
        c@ == spec_composite_color(spec_gfx_composite_bits(mem@, px as int, py as int), *pal),
{
    let field = (py % 4) / 2;
    let dy = py / 4;
    let byte = *vstd::slice::slice_index_get(
        mem,
        (field * 8192 + dy * 80 + px / 8) as usize,
    );
    let pix_n = (px % 8) / 4;
    let bits = (byte >> ((4 - 4 * pix_n) as u8)) & 0xF;
    get_cga_composite_color(bits, pal)
}

/// Draw the low-resolution graphics mode, each source pixel doubled in
/// both directions, the two interlaced memory fields woven into scan-line
/// pairs.
pub fn draw_gfx_mode2x(
    frame: &mut [u8],
    frame_w: u32,
    frame_h: u32,
    mem: &[u8],
    pal: CGAPalette,
    intensity: bool,
)
    requires
        frame_w == FRAME_W,
        frame_h == FRAME_H,
        old(frame)@.len() >= FRAME_W * FRAME_H * 4,
        mem@.len() >= CGA_MEM_SIZE,
    ensures
        final(frame)@ == spec_gfx2x_frame(old(frame)@, mem@, pal, intensity),
{
    let ghost frame0 = frame@;
    let mut py: u32 = 0;
    while py < FRAME_H
        invariant
            frame@.len() == frame0.len(),
            frame0.len() >= FRAME_W * FRAME_H * 4,
            mem@.len() >= CGA_MEM_SIZE,
            py <= FRAME_H,
            forall|i: int|
                0 <= i < frame@.len() ==> frame@[i] == (if py_of(i, FRAME_W as int) < py {
                    spec_gfx_color(
                        spec_gfx2x_bits(
                            mem@,
                            px_of(i, FRAME_W as int),
                            py_of(i, FRAME_W as int),
                        ),
                        pal,
                        intensity,
                    )[chan_of(i)]
                } else {
                    frame0[i]
                }),
        decreases FRAME_H - py,
    {
        let mut px: u32 = 0;
        while px < FRAME_W
            invariant
                frame@.len() == frame0.len(),
                frame0.len() >= FRAME_W * FRAME_H * 4,
                mem@.len() >= CGA_MEM_SIZE,
                py < FRAME_H,
                px <= FRAME_W,
                forall|i: int|
                    0 <= i < frame@.len() ==> frame@[i] == (if py_of(i, FRAME_W as int) < py || (
                    py_of(i, FRAME_W as int) == py && px_of(i, FRAME_W as int) < px) {
                        spec_gfx_color(
                            spec_gfx2x_bits(
                                mem@,
                                px_of(i, FRAME_W as int),
                                py_of(i, FRAME_W as int),
                            ),
                            pal,
                            intensity,
                        )[chan_of(i)]
                    } else {
                        frame0[i]
                    }),
            decreases FRAME_W - px,
        {
            let color = gfx2x_color(mem, px, py, &pal, intensity);
            put_cell(frame, FRAME_W, px, py, color);
            px = px + 1;
        }
        py = py + 1;
    }
    proof {
        assert(frame@ =~= spec_gfx2x_frame(frame0, mem@, pal, intensity));
    }
}

/// Draw the high-resolution graphics mode, one source pixel per frame
/// column and doubled scan lines, the two memory fields interlaced.
pub fn draw_gfx_mode_highres2x(
    frame: &mut [u8],
    frame_w: u32,
    frame_h: u32,
    mem: &[u8],
    pal: CGAPalette,
)
    requires
        frame_w == FRAME_W,
        frame_h == FRAME_H,
        old(frame)@.len() >= FRAME_W * FRAME_H * 4,
        mem@.len() >= CGA_MEM_SIZE,
    ensures
        final(frame)@ == spec_gfx_hires_frame(old(frame)@, mem@, pal),
{
    let ghost frame0 = frame@;
    let mut py: u32 = 0;
    while py < FRAME_H
        invariant
            frame@.len() == frame0.len(),
            frame0.len() >= FRAME_W * FRAME_H * 4,
            mem@.len() >= CGA_MEM_SIZE,
            py <= FRAME_H,
            forall|i: int|
                0 <= i < frame@.len() ==> frame@[i] == (if py_of(i, FRAME_W as int) < py {
                    spec_gfx_color(
                        spec_gfx_hires_bits(
                            mem@,
                            px_of(i, FRAME_W as int),
                            py_of(i, FRAME_W as int),
                        ),
                        pal,
                        false,
                    )[chan_of(i)]
                } else {
                    frame0[i]
                }),
        decreases FRAME_H - py,
    {
        let mut px: u32 = 0;
        while px < FRAME_W
            invariant
                frame@.len() == frame0.len(),
                frame0.len() >= FRAME_W * FRAME_H * 4,
                mem@.len() >= CGA_MEM_SIZE,
                py < FRAME_H,
                px <= FRAME_W,
                forall|i: int|
                    0 <= i < frame@.len() ==> frame@[i] == (if py_of(i, FRAME_W as int) < py || (
                    py_of(i, FRAME_W as int) == py && px_of(i, FRAME_W as int) < px) {
                        spec_gfx_color(
                            spec_gfx_hires_bits(
                                mem@,
                                px_of(i, FRAME_W as int),
                                py_of(i, FRAME_W as int),
                            ),
                            pal,
                            false,
                        )[chan_of(i)]
                    } else {
                        frame0[i]
                    }),
            decreases FRAME_W - px,
        {
            let color = gfx_hires_color(mem, px, py, &pal);
            put_cell(frame, FRAME_W, px, py, color);
            px = px + 1;
        }
        py = py + 1;
    }
    proof {
        assert(frame@ =~= spec_gfx_hires_frame(frame0, mem@, pal));
    }
}

/// Draw the low-resolution mode as a composite monitor shows it: the pixel
/// pairs blend into four-bit artifact colours, four frame columns per
/// artifact cell.
pub fn draw_gfx_mode2x_composite(
    frame: &mut [u8],
    frame_w: u32,
    frame_h: u32,
    mem: &[u8],
    pal: CGAPalette,
    intensity: bool,
)
    requires
        frame_w == FRAME_W,
        frame_h == FRAME_H,
        old(frame)@.len() >= FRAME_W * FRAME_H * 4,
        mem@.len() >= CGA_MEM_SIZE,
    ensures
        final(frame)@ == spec_gfx_composite_frame(old(frame)@, mem@, pal),
{
    let ghost frame0 = frame@;
    let mut py: u32 = 0;
    while py < FRAME_H
        invariant
            frame@.len() == frame0.len(),
            frame0.len() >= FRAME_W * FRAME_H * 4,
            mem@.len() >= CGA_MEM_SIZE,
            py <= FRAME_H,
            forall|i: int|
                0 <= i < frame@.len() ==> frame@[i] == (if py_of(i, FRAME_W as int) < py {
                    spec_composite_color(
                        spec_gfx_composite_bits(
                            mem@,
                            px_of(i, FRAME_W as int),
                            py_of(i, FRAME_W as int),
                        ),
                        pal,
                    )[chan_of(i)]
                } else {
                    frame0[i]
                }),
        decreases FRAME_H - py,
    {
        let mut px: u32 = 0;
        while px < FRAME_W
            invariant
                frame@.len() == frame0.len(),
                frame0.len() >= FRAME_W * FRAME_H * 4,
                mem@.len() >= CGA_MEM_SIZE,
                py < FRAME_H,
                px <= FRAME_W,
                forall|i: int|
                    0 <= i < frame@.len() ==> frame@[i] == (if py_of(i, FRAME_W as int) < py || (
                    py_of(i, FRAME_W as int) == py && px_of(i, FRAME_W as int) < px) {
                        spec_composite_color(
                            spec_gfx_composite_bits(
                                mem@,
                                px_of(i, FRAME_W as int),
                                py_of(i, FRAME_W as int),
                            ),
                            pal,
                        )[chan_of(i)]
                    } else {
                        frame0[i]
                    }),
            decreases FRAME_W - px,
        {
            let color = gfx_composite_color(mem, px, py, &pal);
            put_cell(frame, FRAME_W, px, py, color);
            px = px + 1;
        }
        py = py + 1;
    }
    proof {
        assert(frame@ =~= spec_gfx_composite_frame(frame0, mem@, pal));
    }
}

/// The colour a four-bit text attribute nibble selects.
pub open spec fn spec_nibble_color(byte: u8) -> CGAColor {
    if byte == 0b0000 {
        CGAColor::Black
    } else if byte == 0b0001 {
        CGAColor::Blue
    } else if byte == 0b0010 {
        CGAColor::Green
    } else if byte == 0b0100 {
        CGAColor::Red
    } else if byte == 0b0011 {
        CGAColor::Cyan
    } else if byte == 0b0101 {
        CGAColor::Magenta
    } else if byte == 0b0110 {
        CGAColor::Brown
    } else if byte == 0b0111 {
        CGAColor::White
    } else if byte == 0b1000 {
        CGAColor::BlackBright
    } else if byte == 0b1001 {
        CGAColor::BlueBright
    } else if byte == 0b1010 {
        CGAColor::GreenBright
    } else if byte == 0b1100 {
        CGAColor::RedBright
    } else if byte == 0b1011 {
        CGAColor::CyanBright
    } else if byte == 0b1101 {
        CGAColor::MagentaBright
    } else if byte == 0b1110 {
        CGAColor::Yellow
    } else if byte == 0b1111 {
        CGAColor::WhiteBright
    } else {
        CGAColor::Black
    }
}

/// Return the colour a text attribute nibble selects.
pub fn get_colors_from_attr_nibble(byte: u8) -> (r: CGAColor)
    ensures
        r == spec_nibble_color(byte),
{
    match byte {
        0b0000 => CGAColor::Black,
        0b0001 => CGAColor::Blue,
        0b0010 => CGAColor::Green,
        0b0100 => CGAColor::Red,
        0b0011 => CGAColor::Cyan,
        0b0101 => CGAColor::Magenta,
        0b0110 => CGAColor::Brown,
        0b0111 => CGAColor::White,
        0b1000 => CGAColor::BlackBright,
        0b1001 => CGAColor::BlueBright,
        0b1010 => CGAColor::GreenBright,
        0b1100 => CGAColor::RedBright,
        0b1011 => CGAColor::CyanBright,
        0b1101 => CGAColor::MagentaBright,
        0b1110 => CGAColor::Yellow,
        0b1111 => CGAColor::WhiteBright,
        _ => CGAColor::Black,
    }
}

/// Return the foreground and background colours a text attribute byte
/// selects: the low nibble is the foreground, the high nibble the
/// background.
pub fn get_colors_from_attr_byte(byte: u8) -> (r: (CGAColor, CGAColor))
    ensures
        r.0 == spec_nibble_color((byte % 16) as u8),
        r.1 == spec_nibble_color((byte / 16) as u8),
{
    let fg_nibble = byte % 16;
    let bg_nibble = byte / 16;
    let bg_color = get_colors_from_attr_nibble(bg_nibble);
    let fg_color = get_colors_from_attr_nibble(fg_nibble);
    (fg_color, bg_color)
}

/// The frame after the first `n` character cells of the text frame buffer
/// are drawn: each cell holds a glyph byte and an attribute byte, laid out
/// forty or eighty cells to a text row; rows past the frame are not drawn.
pub open spec fn spec_text_cells(
    frame: Seq<u8>,
    frame_w: int,
    frame_h: int,
    font: Seq<u8>,
    mem: Seq<u8>,
    char_height: int,
    lowres: bool,
    n: int,
) -> Seq<u8>
    decreases n,
{
    if n <= 0 {
        frame
    } else {
        let prev = spec_text_cells(frame, frame_w, frame_h, font, mem, char_height, lowres, n - 1);
        let idx = n - 1;
        let span: int = if lowres {
            40
        } else {
            80
        };
        let x = idx % span;
        let y = idx / span;
        let max_y = frame_h / char_height - 1;
        if y > max_y {
            prev
        } else {
            let glyph = mem[2 * idx];
            let attr = mem[2 * idx + 1];
            let fg = spec_nibble_color((attr % 16) as u8);
            let bg = spec_nibble_color((attr / 16) as u8);
            if lowres {
                if x * 8 * 2 + 16 <= frame_w && y * char_height * 2 + 16 <= frame_h {
                    spec_glyph4x_frame(
                        prev,
                        frame_w,
                        font,
                        glyph,
                        fg,
                        bg,
                        char_height,
                        x * 8,
                        y * char_height,
                    )
                } else {
                    prev
                }
            } else {
                if x * 8 + 8 <= frame_w && y * char_height * 2 + 16 <= frame_h {
                    spec_glyph2x_frame(
                        prev,
                        frame_w,
                        font,
                        glyph,
                        fg,
                        bg,
                        char_height,
                        x * 8,
                        y * char_height,
                    )
                } else {
                    prev
                }
            }
        }
    }
}

/// The frame with the text cursor laid over it, when the cursor is drawn
/// at all.
pub open spec fn spec_cursor_overlay(
    frame: Seq<u8>,
    frame_w: int,
    frame_h: int,
    cursor: CursorInfo,
    mem: Seq<u8>,
    lowres: bool,
) -> Seq<u8> {
    if spec_cursor_drawn(cursor, frame_w, frame_h, mem.len() as int, lowres) {
        if lowres {
            spec_fill_rect(
                frame,
                frame_w,
                cursor.pos_x * 16,
                cursor.pos_y * 16 + cursor.line_start * 2,
                16,
                2 * (spec_cursor_end_line(cursor, frame_h) - cursor.line_start),
                spec_rgba(spec_cursor_color(cursor, mem)),
            )
        } else {
            spec_fill_rect(
                frame,
                frame_w,
                cursor.pos_x * 8,
                cursor.pos_y * 16 + cursor.line_start * 2,
                8,
                2 * (spec_cursor_end_line(cursor, frame_h) - cursor.line_start) + 2,
                spec_rgba(spec_cursor_color(cursor, mem)),
            )
        }
    } else {
        frame
    }
}

/// The renderer: the display mode it believes the adapter is in, and the
/// text geometry.
pub struct Video {
    pub mode: DisplayMode,
    pub cols: u32,
    pub rows: u32,
}

impl Video {
    pub fn new() -> (v: Video)
        ensures
            v.mode == DisplayMode::Mode3TextCo80,
            v.cols == 80,
            v.rows == 25,
    {
        Video { mode: DisplayMode::Mode3TextCo80, cols: 80, rows: 25 }
    }

    /// Draw one whole frame as the adapter's current mode prescribes: a
    /// blank return when the display is disabled, glyph cells and the
    /// cursor in the text modes, and the graphics rasterisers otherwise,
    /// with the composite rendering on request.
    pub fn draw(
        &self,
        frame: &mut [u8],
        cga: &CGACard,
        bus: &BusInterface,
        composite: bool,
        font: &[u8],
    )
        requires
            bus.wf(),
            font@.len() == FONT_SIZE,
            old(frame)@.len() >= FRAME_W * FRAME_H * 4,
            spec_cursor_info(*cga).line_end <= 8,
        ensures
            final(frame)@.len() == old(frame)@.len(),
            ({
                let vm = bus.mem().subrange(
                    CGA_MEM_ADDRESS as int,
                    CGA_MEM_ADDRESS + CGA_MEM_SIZE,
                );
                let mode = spec_display_mode(cga.mode_byte);
                let lowres = cga.mode_byte & crate::cga::MODE_HIRES_TEXT == 0;
                let pal = spec_palette(*cga);
                &&& (mode == DisplayMode::Disabled ==> final(frame)@ == old(frame)@)
                &&& ((mode == DisplayMode::Mode0TextBw40 || mode == DisplayMode::Mode1TextCo40
                    || mode == DisplayMode::Mode2TextBw80 || mode == DisplayMode::Mode3TextCo80)
                    ==> final(frame)@ == spec_cursor_overlay(
                    spec_text_cells(
                        old(frame)@,
                        FRAME_W as int,
                        FRAME_H as int,
                        font@,
                        vm,
                        8,
                        lowres,
                        (CGA_MEM_SIZE / 2) as int,
                    ),
                    FRAME_W as int,
                    FRAME_H as int,
                    spec_cursor_info(*cga),
                    vm,
                    lowres,
                ))
                &&& ((mode == DisplayMode::Mode4LowResGraphics || mode
                    == DisplayMode::Mode5LowResAltPalette) && !composite ==> final(frame)@
                    == spec_gfx2x_frame(old(frame)@, vm, pal.0, pal.1))
                &&& ((mode == DisplayMode::Mode6HiResGraphics || mode
                    == DisplayMode::Mode7LowResComposite) && !composite ==> final(frame)@
                    == spec_gfx_hires_frame(old(frame)@, vm, pal.0))
                &&& ((mode == DisplayMode::Mode4LowResGraphics || mode
                    == DisplayMode::Mode5LowResAltPalette || mode
                    == DisplayMode::Mode6HiResGraphics || mode
                    == DisplayMode::Mode7LowResComposite) && composite ==> final(frame)@
                    == spec_gfx_composite_frame(old(frame)@, vm, pal.0))
            }),
    {
        let video_mem = bus.get_slice_at(CGA_MEM_ADDRESS, CGA_MEM_SIZE);
        let mode_40_cols = cga.is_40_columns();
        match cga.get_display_mode() {
            DisplayMode::Disabled => {
                // Nothing to rasterise while the display is off
                return ;
            },
            DisplayMode::Mode0TextBw40 | DisplayMode::Mode1TextCo40 | DisplayMode::Mode2TextBw80
                | DisplayMode::Mode3TextCo80 => {
                let cursor = cga.get_cursor_info();
                let char_height = cga.get_character_height();
                self.draw_text_mode(
                    cursor,
                    frame,
                    FRAME_W,
                    FRAME_H,
                    video_mem,
                    char_height,
                    mode_40_cols,
                    font,
                );
            },
            DisplayMode::Mode4LowResGraphics | DisplayMode::Mode5LowResAltPalette => {
                let (palette, intensity) = cga.get_palette();
                if !composite {
                    draw_gfx_mode2x(frame, FRAME_W, FRAME_H, video_mem, palette, intensity);
                } else {
                    draw_gfx_mode2x_composite(
                        frame,
                        FRAME_W,
                        FRAME_H,
                        video_mem,
                        palette,
                        intensity,
                    );
                }
            },
            DisplayMode::Mode6HiResGraphics => {
                let (palette, intensity) = cga.get_palette();
                if !composite {
                    draw_gfx_mode_highres2x(frame, FRAME_W, FRAME_H, video_mem, palette);
                } else {
                    draw_gfx_mode2x_composite(
                        frame,
                        FRAME_W,
                        FRAME_H,
                        video_mem,
                        palette,
                        intensity,
                    );
                }
            },
            DisplayMode::Mode7LowResComposite => {
                let (palette, intensity) = cga.get_palette();
                if !composite {
                    draw_gfx_mode_highres2x(frame, FRAME_W, FRAME_H, video_mem, palette);
                } else {
                    draw_gfx_mode2x_composite(
                        frame,
                        FRAME_W,
                        FRAME_H,
                        video_mem,
                        palette,
                        intensity,
                    );
                }
            },
        }
    }

    /// Draw a whole text-mode frame: every character cell of the frame
    /// buffer, then the cursor.
    pub fn draw_text_mode(
        &self,
        cursor: CursorInfo,
        frame: &mut [u8],
        frame_w: u32,
        frame_h: u32,
        mem: &[u8],
        char_height: u8,
        lowres: bool,
        font: &[u8],
    )
        requires
            font@.len() == FONT_SIZE,
            old(frame)@.len() >= frame_w * frame_h * 4,
            1 <= frame_w <= 8192,
            frame_h <= 8192,
            frame_h % 2 == 0,
            char_height <= 8,
            char_height >= 2 ==> frame_h >= char_height,
            cursor.line_end <= 8,
            cursor.addr < 16384,
            mem@.len() <= 0x10000000,
        ensures
            final(frame)@.len() == old(frame)@.len(),
            char_height < 2 ==> final(frame)@ == old(frame)@,
            char_height >= 2 ==> final(frame)@ == spec_cursor_overlay(
                spec_text_cells(
                    old(frame)@,
                    frame_w as int,
                    frame_h as int,
                    font@,
                    mem@,
                    char_height as int,
                    lowres,
                    mem@.len() as int / 2,
                ),
                frame_w as int,
                frame_h as int,
                cursor,
                mem@,
                lowres,
            ),
    {
        if char_height < 2 {
            return ;
        }
        let char_height_32 = char_height as u32;
        proof {
            assert(frame_h / char_height_32 >= 1) by (nonlinear_arith)
                requires
                    frame_h >= char_height_32,
                    char_height_32 >= 2,
            ;
        }
        let max_y = frame_h / char_height_32 - 1;
        let span: usize = if lowres {
            40
        } else {
            80
        };
        let ghost frame0 = frame@;
        let n_total = mem.len() / 2;
        let mut i: usize = 0;
        while i < n_total
            invariant
                font@.len() == FONT_SIZE,
                frame@.len() == frame0.len(),
                frame0.len() >= frame_w * frame_h * 4,
                1 <= frame_w <= 8192,
                frame_h <= 8192,
                2 <= char_height <= 8,
                frame_h >= char_height,
                char_height_32 == char_height,
                max_y == frame_h as int / char_height as int - 1,
                span == (if lowres {
                    40int
                } else {
                    80int
                }),
                n_total == mem@.len() / 2,
                mem@.len() <= 0x10000000,
                i <= n_total,
                frame@ == spec_text_cells(
                    frame0,
                    frame_w as int,
                    frame_h as int,
                    font@,
                    mem@,
                    char_height as int,
                    lowres,
                    i as int,
                ),
            decreases n_total - i,
        {
            proof {
                assert(2 * i + 1 < mem@.len()) by (nonlinear_arith)
                    requires
                        0 <= i,
                        i < mem@.len() / 2,
                ;
            }
            let glyph = *vstd::slice::slice_index_get(mem, 2 * i);
            let attr = *vstd::slice::slice_index_get(mem, 2 * i + 1);
            let (fg_color, bg_color) = get_colors_from_attr_byte(attr);
            let x = (i % span) as u32;
            let y = (i / span) as u32;
            if y <= max_y {
                proof {
                    assert(y * char_height_32 <= frame_h - char_height_32) by (nonlinear_arith)
                        requires
                            y <= frame_h / char_height_32 - 1,
                            2 <= char_height_32 <= frame_h,
                    ;
                }
                if lowres {
                    draw_glyph4x(
                        glyph,
                        fg_color,
                        bg_color,
                        frame,
                        frame_w,
                        frame_h,
                        char_height_32,
                        x * 8,
                        y * char_height_32,
                        font,
                    );
                } else {
                    draw_glyph2x(
                        glyph,
                        fg_color,
                        bg_color,
                        frame,
                        frame_w,
                        frame_h,
                        char_height_32,
                        x * 8,
                        y * char_height_32,
                        font,
                    );
                }
            }
            i = i + 1;
        }
        if lowres {
            draw_cursor4x(cursor, frame, frame_w, frame_h, mem);
        } else {
            draw_cursor2x(cursor, frame, frame_w, frame_h, mem);
        }
    }
}

} // verus!
