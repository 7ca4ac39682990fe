//! Model of the colour graphics adapter. The model keeps the mode and
//! colour control registers and the cursor-related CRTC registers — what the
//! renderer and the core read — and accepts the remaining timing registers
//! without storing them. The status register reports the display as always
//! in retrace, so software never waits on it.

use crate::video::{get_colors_from_attr_nibble, spec_nibble_color};
use vstd::prelude::*;

verus! {

pub const CRTC_REGISTER_SELECT: u16 = 0x3D4;

pub const CRTC_REGISTER: u16 = 0x3D5;

pub const CGA_MODE_CONTROL_REGISTER: u16 = 0x3D8;

pub const CGA_COLOR_CONTROL_REGISTER: u16 = 0x3D9;

pub const CGA_STATUS_REGISTER: u16 = 0x3DA;

pub const CGA_LIGHTPEN_REGISTER: u16 = 0x3DB;

/// Start of the adapter's frame buffer in physical memory.
pub const CGA_MEM_ADDRESS: usize = 0xB8000;

/// Size of the adapter's frame buffer.
pub const CGA_MEM_SIZE: usize = 16384;

/// CRTC register indices for the cursor.
pub const CRTC_CURSOR_START: u8 = 10;

pub const CRTC_CURSOR_END: u8 = 11;

pub const CRTC_CURSOR_ADDR_H: u8 = 14;

pub const CRTC_CURSOR_ADDR_L: u8 = 15;

/// Status byte the model reports: display enable and vertical retrace.
pub const CGA_STATUS_RETRACE: u8 = 0x09;

/// Mode control register bits.
pub const MODE_HIRES_TEXT: u8 = 0x01;

pub const MODE_GRAPHICS: u8 = 0x02;

pub const MODE_BW: u8 = 0x04;

pub const MODE_ENABLE: u8 = 0x08;

pub const MODE_HIRES_GRAPHICS: u8 = 0x10;

pub const MODE_BLINKING: u8 = 0x20;

/// The sixteen colours of the adapter.
#[derive(Copy, Clone, Debug, PartialEq, Eq, Structural)]
pub enum CGAColor {
    Black,
    Blue,
    Green,
    Cyan,
    Red,
    Magenta,
    Brown,
    White,
    BlackBright,
    BlueBright,
    GreenBright,
    CyanBright,
    RedBright,
    MagentaBright,
    Yellow,
    WhiteBright,
}

/// A graphics-mode palette, carrying its background (or, for the
/// high-resolution monochrome palette, foreground) colour.
#[derive(Copy, Clone, Debug, PartialEq, Eq, Structural)]
pub enum CGAPalette {
    Monochrome(CGAColor),
    RedGreenYellow(CGAColor),
    MagentaCyanWhite(CGAColor),
    RedCyanWhite(CGAColor),
}

#[derive(Copy, Clone, Debug, PartialEq, Eq, Structural)]
pub enum DisplayMode {
    Disabled,
    Mode0TextBw40,
    Mode1TextCo40,
    Mode2TextBw80,
    Mode3TextCo80,
    Mode4LowResGraphics,
    Mode5LowResAltPalette,
    Mode6HiResGraphics,
    Mode7LowResComposite,
}

/// Where and how the text-mode cursor is drawn.
#[derive(Copy, Clone, Debug, PartialEq, Eq, Structural)]
pub struct CursorInfo {
    pub addr: usize,
    pub pos_x: u32,
    pub pos_y: u32,
    pub line_start: u8,
    pub line_end: u8,
    pub visible: bool,
}

/// The colour graphics adapter.
pub struct CGACard {
    pub mode_byte: u8,
    pub cc_register: u8,
    pub crtc_select: u8,
    pub cursor_start: u8,
    pub cursor_end: u8,
    pub cursor_addr_h: u8,
    pub cursor_addr_l: u8,
    pub cycles: u64,
}

/// The display mode encoded by a mode control byte.
pub open spec fn spec_display_mode(mode_byte: u8) -> DisplayMode {
    if mode_byte & MODE_ENABLE == 0 {
        DisplayMode::Disabled
    } else if mode_byte & MODE_GRAPHICS != 0 {
        if mode_byte & MODE_HIRES_GRAPHICS != 0 {
            if mode_byte & MODE_BW != 0 {
                DisplayMode::Mode7LowResComposite
            } else {
                DisplayMode::Mode6HiResGraphics
            }
        } else {
            if mode_byte & MODE_BW != 0 {
                DisplayMode::Mode5LowResAltPalette
            } else {
                DisplayMode::Mode4LowResGraphics
            }
        }
    } else {
        if mode_byte & MODE_HIRES_TEXT != 0 {
            if mode_byte & MODE_BW != 0 {
                DisplayMode::Mode2TextBw80
            } else {
                DisplayMode::Mode3TextCo80
            }
        } else {
            if mode_byte & MODE_BW != 0 {
                DisplayMode::Mode0TextBw40
            } else {
                DisplayMode::Mode1TextCo40
            }
        }
    }
}

/// The cursor state encoded by the CRTC cursor registers: a fourteen-bit
/// character address, split into column and row by the mode's width; scan
/// lines from the start and end registers; visibility from the cursor-mode
/// bits.
pub open spec fn spec_cursor_info(card: CGACard) -> CursorInfo {
    let addr = (card.cursor_addr_h % 64) * 256 + card.cursor_addr_l;
    let cols: int = if card.mode_byte & MODE_HIRES_TEXT == 0 {
        40
    } else {
        80
    };
    CursorInfo {
        addr: addr as usize,
        pos_x: (addr as int % cols) as u32,
        pos_y: (addr as int / cols) as u32,
        line_start: (card.cursor_start % 32) as u8,
        line_end: (card.cursor_end % 32) as u8,
        visible: card.cursor_start & 0x60 != 0x20,
    }
}

/// The palette selected by the colour control and mode registers: the
/// high-resolution mode paints monochrome in the selected colour; black-
/// and-white low-resolution graphics use the red-cyan-white palette; the
/// palette bit picks one of the two four-colour palettes otherwise.
pub open spec fn spec_palette(card: CGACard) -> (CGAPalette, bool) {
    let color = spec_nibble_color((card.cc_register % 16) as u8);
    let intensity = card.cc_register & 0x10 != 0;
    let palette = if card.mode_byte & MODE_GRAPHICS != 0 && card.mode_byte & MODE_HIRES_GRAPHICS
        != 0 {
        CGAPalette::Monochrome(color)
    } else if card.mode_byte & MODE_BW != 0 {
        CGAPalette::RedCyanWhite(color)
    } else if card.cc_register & 0x20 != 0 {
        CGAPalette::MagentaCyanWhite(color)
    } else {
        CGAPalette::RedGreenYellow(color)
    };
    (palette, intensity)
}

impl CGACard {
    pub fn new() -> (cga: CGACard)
        ensures
            cga == (CGACard {
                mode_byte: (MODE_ENABLE | MODE_HIRES_TEXT),
                cc_register: 0,
                crtc_select: 0,
                cursor_start: 6,
                cursor_end: 7,
                cursor_addr_h: 0,
                cursor_addr_l: 0,
                cycles: 0,
            }),
    {
        CGACard {
            mode_byte: MODE_ENABLE | MODE_HIRES_TEXT,
            cc_register: 0,
            crtc_select: 0,
            cursor_start: 6,
            cursor_end: 7,
            cursor_addr_h: 0,
            cursor_addr_l: 0,
            cycles: 0,
        }
    }

    pub fn get_display_mode(&self) -> (mode: DisplayMode)
        ensures
            mode == spec_display_mode(self.mode_byte),
    {
        if self.mode_byte & MODE_ENABLE == 0 {
            DisplayMode::Disabled
        } else if self.mode_byte & MODE_GRAPHICS != 0 {
            if self.mode_byte & MODE_HIRES_GRAPHICS != 0 {
                if self.mode_byte & MODE_BW != 0 {
                    DisplayMode::Mode7LowResComposite
                } else {
                    DisplayMode::Mode6HiResGraphics
                }
            } else {
                if self.mode_byte & MODE_BW != 0 {
                    DisplayMode::Mode5LowResAltPalette
                } else {
                    DisplayMode::Mode4LowResGraphics
                }
            }
        } else {
            if self.mode_byte & MODE_HIRES_TEXT != 0 {
                if self.mode_byte & MODE_BW != 0 {
                    DisplayMode::Mode2TextBw80
                } else {
                    DisplayMode::Mode3TextCo80
                }
            } else {
                if self.mode_byte & MODE_BW != 0 {
                    DisplayMode::Mode0TextBw40
                } else {
                    DisplayMode::Mode1TextCo40
                }
            }
        }
    }

    /// Whether the adapter is in a forty-column mode.
    pub fn is_40_columns(&self) -> (r: bool)
        ensures
            r == (self.mode_byte & MODE_HIRES_TEXT == 0),
    {
        self.mode_byte & MODE_HIRES_TEXT == 0
    }

    /// Scan lines per text character cell.
    pub fn get_character_height(&self) -> (r: u8)
        ensures
            r == 8,
    {
        8
    }

    pub fn get_cursor_info(&self) -> (info: CursorInfo)
        ensures
            info == spec_cursor_info(*self),
    {
        let addr: usize = (self.cursor_addr_h as usize % 64) * 256 + self.cursor_addr_l as usize;
        let cols: usize = if self.mode_byte & MODE_HIRES_TEXT == 0 {
            40
        } else {
            80
        };
        CursorInfo {
            addr,
            pos_x: (addr % cols) as u32,
            pos_y: (addr / cols) as u32,
            line_start: self.cursor_start % 32,
            line_end: self.cursor_end % 32,
            visible: self.cursor_start & 0x60 != 0x20,
        }
    }

    pub fn get_palette(&self) -> (r: (CGAPalette, bool))
        ensures
            r == spec_palette(*self),
    {
        let color = get_colors_from_attr_nibble(self.cc_register % 16);
        let intensity = self.cc_register & 0x10 != 0;
        let palette = if self.mode_byte & MODE_GRAPHICS != 0 && self.mode_byte
            & MODE_HIRES_GRAPHICS != 0 {
            CGAPalette::Monochrome(color)
        } else if self.mode_byte & MODE_BW != 0 {
            CGAPalette::RedCyanWhite(color)
        } else if self.cc_register & 0x20 != 0 {
            CGAPalette::MagentaCyanWhite(color)
        } else {
            CGAPalette::RedGreenYellow(color)
        };
        (palette, intensity)
    }

    /// Port interface: the CRTC data port reads the selected cursor
    /// register; the status register always reports retrace.
    pub fn read_port(&self, port: u16) -> (r: u8)
        ensures
            r == spec_cga_read(*self, port),
            port == CRTC_REGISTER ==> r == spec_crtc_read(*self),
            port == CGA_MODE_CONTROL_REGISTER ==> r == self.mode_byte,
            port == CGA_COLOR_CONTROL_REGISTER ==> r == self.cc_register,
            port == CGA_STATUS_REGISTER ==> r == CGA_STATUS_RETRACE,
            !(port == CRTC_REGISTER || port == CGA_MODE_CONTROL_REGISTER || port
                == CGA_COLOR_CONTROL_REGISTER || port == CGA_STATUS_REGISTER) ==> r == 0,
    {
        if port == CRTC_REGISTER {
            if self.crtc_select == CRTC_CURSOR_START {
                self.cursor_start
            } else if self.crtc_select == CRTC_CURSOR_END {
                self.cursor_end
            } else if self.crtc_select == CRTC_CURSOR_ADDR_H {
                self.cursor_addr_h
            } else if self.crtc_select == CRTC_CURSOR_ADDR_L {
                self.cursor_addr_l
            } else {
                0
            }
        } else if port == CGA_MODE_CONTROL_REGISTER {
            self.mode_byte
        } else if port == CGA_COLOR_CONTROL_REGISTER {
            self.cc_register
        } else if port == CGA_STATUS_REGISTER {
            CGA_STATUS_RETRACE
        } else {
            0
        }
    }

    /// Port interface: the select port picks a CRTC register, the data port
    /// writes the cursor registers (other CRTC registers are accepted and
    /// dropped), and the mode and colour ports load their registers.
    pub fn write_port(&mut self, port: u16, data: u8)
        ensures
            *final(self) == spec_cga_write(*old(self), port, data),
    {
        if port == CRTC_REGISTER_SELECT {
            self.crtc_select = data;
        } else if port == CRTC_REGISTER {
            if self.crtc_select == CRTC_CURSOR_START {
                self.cursor_start = data;
            } else if self.crtc_select == CRTC_CURSOR_END {
                self.cursor_end = data;
            } else if self.crtc_select == CRTC_CURSOR_ADDR_H {
                self.cursor_addr_h = data;
            } else if self.crtc_select == CRTC_CURSOR_ADDR_L {
                self.cursor_addr_l = data;
            }
        } else if port == CGA_MODE_CONTROL_REGISTER {
            self.mode_byte = data;
        } else if port == CGA_COLOR_CONTROL_REGISTER {
            self.cc_register = data;
        }
    }

    /// One tick: the model's display timing holds no state the core
    /// observes beyond the cycle total.
    pub fn run(&mut self, cycles: u32)
        requires
            old(self).cycles + cycles <= u64::MAX,
        ensures
            *final(self) == (CGACard { cycles: (old(self).cycles + cycles) as u64, ..*old(self) }),
    {
        self.cycles = self.cycles + cycles as u64;
    }
}

/// The byte the CRTC data port reads: the selected cursor register, zero
/// for the registers the model does not store.
pub open spec fn spec_crtc_read(card: CGACard) -> u8 {
    if card.crtc_select == CRTC_CURSOR_START {
        card.cursor_start
    } else if card.crtc_select == CRTC_CURSOR_END {
        card.cursor_end
    } else if card.crtc_select == CRTC_CURSOR_ADDR_H {
        card.cursor_addr_h
    } else if card.crtc_select == CRTC_CURSOR_ADDR_L {
        card.cursor_addr_l
    } else {
        0
    }
}

/// The byte a port read returns.
pub open spec fn spec_cga_read(card: CGACard, port: u16) -> u8 {
    if port == CRTC_REGISTER {
        spec_crtc_read(card)
    } else if port == CGA_MODE_CONTROL_REGISTER {
        card.mode_byte
    } else if port == CGA_COLOR_CONTROL_REGISTER {
        card.cc_register
    } else if port == CGA_STATUS_REGISTER {
        CGA_STATUS_RETRACE
    } else {
        0
    }
}

/// The adapter state after a port write.
pub open spec fn spec_cga_write(pre: CGACard, port: u16, data: u8) -> CGACard {
    if port == CRTC_REGISTER_SELECT {
        CGACard { crtc_select: data, ..pre }
    } else if port == CRTC_REGISTER {
        if pre.crtc_select == CRTC_CURSOR_START {
            CGACard { cursor_start: data, ..pre }
        } else if pre.crtc_select == CRTC_CURSOR_END {
            CGACard { cursor_end: data, ..pre }
        } else if pre.crtc_select == CRTC_CURSOR_ADDR_H {
            CGACard { cursor_addr_h: data, ..pre }
        } else if pre.crtc_select == CRTC_CURSOR_ADDR_L {
            CGACard { cursor_addr_l: data, ..pre }
        } else {
            pre
        }
    } else if port == CGA_MODE_CONTROL_REGISTER {
        CGACard { mode_byte: data, ..pre }
    } else if port == CGA_COLOR_CONTROL_REGISTER {
        CGACard { cc_register: data, ..pre }
    } else {
        pre
    }
}

} // verus!
