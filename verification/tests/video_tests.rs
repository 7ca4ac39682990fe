use pc_core::bus::BusInterface;
use pc_core::cga::{CGAColor, CGAPalette, CursorInfo, CGA_MEM_ADDRESS, CGA_MEM_SIZE};
use pc_core::machine::{FloppyManager, Machine, MachineType, VideoType};
use pc_core::rom_manager::RomManager;
use pc_core::video::{
    color_enum_to_rgba, draw_cursor2x, draw_cursor4x, draw_gfx_mode2x, draw_gfx_mode2x_composite,
    draw_gfx_mode_highres2x, draw_glyph, draw_glyph2x, draw_glyph4x, get_cga_composite_color,
    get_cga_gfx_color, get_colors_from_attr_byte, get_colors_from_attr_nibble, Video, FONT_SIZE,
    FRAME_H, FRAME_W,
};

fn pixel(frame: &[u8], frame_w: u32, px: u32, py: u32) -> [u8; 4] {
    let base = ((py * frame_w + px) * 4) as usize;
    [frame[base], frame[base + 1], frame[base + 2], frame[base + 3]]
}

#[test]
fn color_tables() {
    assert_eq!(color_enum_to_rgba(&CGAColor::Black), [0x00, 0x00, 0x00, 0xFF]);
    assert_eq!(color_enum_to_rgba(&CGAColor::Brown), [0xAA, 0x55, 0x00, 0xFF]);
    assert_eq!(color_enum_to_rgba(&CGAColor::WhiteBright), [0xFF, 0xFF, 0xFF, 0xFF]);
    let pal = CGAPalette::MagentaCyanWhite(CGAColor::Black);
    assert_eq!(get_cga_gfx_color(0b01, &pal, false), [0x00, 0xAA, 0xAA, 0xFF]);
    assert_eq!(get_cga_gfx_color(0b01, &pal, true), [0x55, 0xFF, 0xFF, 0xFF]);
    assert_eq!(get_cga_gfx_color(0b00, &pal, false), [0x00, 0x00, 0x00, 0xFF]);
    assert_eq!(get_cga_composite_color(0b0001, &pal), [0x00, 0x9A, 0xFF, 0xFF]);
    let mono = CGAPalette::Monochrome(CGAColor::White);
    assert_eq!(get_cga_composite_color(0b1111, &mono), [0xFD, 0xFF, 0xFC, 0xFF]);
}

#[test]
fn monochrome_rows_exist_only_without_intensity() {
    let mono = CGAPalette::Monochrome(CGAColor::White);
    // without intensity: transparent black background, foreground colour
    assert_eq!(get_cga_gfx_color(0b00, &mono, false), [0x00, 0x00, 0x00, 0x00]);
    assert_eq!(get_cga_gfx_color(0b01, &mono, false), [0xAA, 0xAA, 0xAA, 0xFF]);
    // with intensity the monochrome rows fall outside the table: opaque black
    assert_eq!(get_cga_gfx_color(0b00, &mono, true), [0x00, 0x00, 0x00, 0xFF]);
    assert_eq!(get_cga_gfx_color(0b01, &mono, true), [0x00, 0x00, 0x00, 0xFF]);
    assert_eq!(get_cga_gfx_color(0b10, &mono, false), [0x00, 0x00, 0x00, 0xFF]);
}

#[test]
fn a_larger_buffer_keeps_its_tail() {
    let mut font = vec![0u8; FONT_SIZE];
    font[0] = 0b1000_0000;
    // four extra bytes past the 16 by 16 frame
    let mut frame = vec![0x77u8; 16 * 16 * 4 + 4];
    draw_glyph(0, CGAColor::White, CGAColor::Blue, &mut frame, 16, 16, 8, 0, 0, &font);
    assert_eq!(pixel(&frame, 16, 0, 0), [0xAA, 0xAA, 0xAA, 0xFF]);
    assert_eq!(&frame[16 * 16 * 4..], &[0x77, 0x77, 0x77, 0x77]);
}

#[test]
fn attribute_nibbles() {
    assert!(matches!(get_colors_from_attr_nibble(0b0001), CGAColor::Blue));
    assert!(matches!(get_colors_from_attr_nibble(0b1110), CGAColor::Yellow));
    let (fg, bg) = get_colors_from_attr_byte(0x1E);
    assert!(matches!(fg, CGAColor::Yellow));
    assert!(matches!(bg, CGAColor::Blue));
}

#[test]
fn glyph_pixels_follow_the_font() {
    // glyph 0 row 0 holds the pattern 1000_0001
    let mut font = vec![0u8; FONT_SIZE];
    font[0] = 0b1000_0001;
    let mut frame = vec![0u8; 16 * 16 * 4];
    draw_glyph(0, CGAColor::White, CGAColor::Blue, &mut frame, 16, 16, 8, 0, 0, &font);
    assert_eq!(pixel(&frame, 16, 0, 0), [0xAA, 0xAA, 0xAA, 0xFF]);
    assert_eq!(pixel(&frame, 16, 1, 0), [0x00, 0x00, 0xAA, 0xFF]);
    assert_eq!(pixel(&frame, 16, 7, 0), [0xAA, 0xAA, 0xAA, 0xFF]);
    assert_eq!(pixel(&frame, 16, 0, 1), [0x00, 0x00, 0xAA, 0xFF]);
    // a pixel outside the glyph cell keeps its value
    assert_eq!(pixel(&frame, 16, 8, 0), [0, 0, 0, 0]);
}

#[test]
fn glyph_off_screen_is_not_drawn() {
    let font = vec![0xFFu8; FONT_SIZE];
    let mut frame = vec![0u8; 16 * 16 * 4];
    draw_glyph(0, CGAColor::White, CGAColor::Blue, &mut frame, 16, 16, 8, 9, 0, &font);
    assert!(frame.iter().all(|b| *b == 0));
}

#[test]
fn glyph2x_doubles_rows() {
    let mut font = vec![0u8; FONT_SIZE];
    // glyph 1 sits one column into the font plane; its row 1 is solid
    font[32 + 1] = 0xFF;
    let mut frame = vec![0u8; 16 * 32 * 4];
    draw_glyph2x(1, CGAColor::Green, CGAColor::Black, &mut frame, 16, 32, 8, 0, 0, &font);
    // font row 1 paints frame rows 2 and 3
    assert_eq!(pixel(&frame, 16, 0, 1), [0x00, 0x00, 0x00, 0xFF]);
    assert_eq!(pixel(&frame, 16, 0, 2), [0x00, 0xAA, 0x00, 0xFF]);
    assert_eq!(pixel(&frame, 16, 3, 3), [0x00, 0xAA, 0x00, 0xFF]);
    assert_eq!(pixel(&frame, 16, 0, 4), [0x00, 0x00, 0x00, 0xFF]);
}

#[test]
fn glyph4x_doubles_both_ways() {
    let mut font = vec![0u8; FONT_SIZE];
    font[0] = 0b1000_0000;
    let mut frame = vec![0u8; 32 * 32 * 4];
    draw_glyph4x(0, CGAColor::Red, CGAColor::Black, &mut frame, 32, 32, 8, 0, 0, &font);
    // the single font pixel paints a two-by-two block
    assert_eq!(pixel(&frame, 32, 0, 0), [0xAA, 0x00, 0x00, 0xFF]);
    assert_eq!(pixel(&frame, 32, 1, 1), [0xAA, 0x00, 0x00, 0xFF]);
    assert_eq!(pixel(&frame, 32, 2, 0), [0x00, 0x00, 0x00, 0xFF]);
}

#[test]
fn cursor_fills_its_scan_lines() {
    let mem = vec![0x00, 0x07];  // glyph, attribute: white on black
    let cursor = CursorInfo {
        addr: 0,
        pos_x: 0,
        pos_y: 0,
        line_start: 6,
        line_end: 7,
        visible: true,
    };
    let mut frame = vec![0u8; 16 * 16 * 4];
    draw_cursor2x(cursor, &mut frame, 16, 16, &mem);
    // scan lines six and seven, doubled: frame rows twelve to fifteen
    assert_eq!(pixel(&frame, 16, 0, 11), [0, 0, 0, 0]);
    assert_eq!(pixel(&frame, 16, 0, 12), [0xAA, 0xAA, 0xAA, 0xFF]);
    assert_eq!(pixel(&frame, 16, 7, 15), [0xAA, 0xAA, 0xAA, 0xFF]);
    assert_eq!(pixel(&frame, 16, 8, 12), [0, 0, 0, 0]);

    let mut frame4 = vec![0u8; 16 * 16 * 4];
    draw_cursor4x(cursor, &mut frame4, 16, 16, &mem);
    // the doubled field leaves the end line out: rows twelve and thirteen
    assert_eq!(pixel(&frame4, 16, 0, 12), [0xAA, 0xAA, 0xAA, 0xFF]);
    assert_eq!(pixel(&frame4, 16, 15, 13), [0xAA, 0xAA, 0xAA, 0xFF]);
    assert_eq!(pixel(&frame4, 16, 0, 14), [0, 0, 0, 0]);
}

#[test]
fn hidden_cursor_changes_nothing() {
    let mem = vec![0x00, 0x07];
    let cursor = CursorInfo {
        addr: 0,
        pos_x: 0,
        pos_y: 0,
        line_start: 6,
        line_end: 5,
        visible: true,
    };
    let mut frame = vec![0u8; 16 * 16 * 4];
    // start past end shows no cursor
    draw_cursor2x(cursor, &mut frame, 16, 16, &mem);
    assert!(frame.iter().all(|b| *b == 0));
}

#[test]
fn gfx_mode_pixel_mapping() {
    let mut mem = vec![0u8; CGA_MEM_SIZE];
    // the leftmost pixel of the first even row carries value three
    mem[0] = 0b1100_0000;
    // the leftmost pixel of the first odd row pair carries value one
    mem[8192] = 0b0100_0000;
    let pal = CGAPalette::RedGreenYellow(CGAColor::Black);
    let mut frame = vec![0u8; (FRAME_W * FRAME_H * 4) as usize];
    draw_gfx_mode2x(&mut frame, FRAME_W, FRAME_H, &mem, pal, false);
    // rows zero and one come from the even field: brown, doubled wide
    assert_eq!(pixel(&frame, FRAME_W, 0, 0), [0xAA, 0x55, 0x00, 0xFF]);
    assert_eq!(pixel(&frame, FRAME_W, 1, 1), [0xAA, 0x55, 0x00, 0xFF]);
    assert_eq!(pixel(&frame, FRAME_W, 2, 0), [0x00, 0x00, 0x00, 0xFF]);
    // rows two and three come from the odd field: green
    assert_eq!(pixel(&frame, FRAME_W, 0, 2), [0x00, 0xAA, 0x00, 0xFF]);
    assert_eq!(pixel(&frame, FRAME_W, 0, 3), [0x00, 0xAA, 0x00, 0xFF]);
}

#[test]
fn hires_mode_pixel_mapping() {
    let mut mem = vec![0u8; CGA_MEM_SIZE];
    mem[0] = 0b1010_0000;
    let pal = CGAPalette::Monochrome(CGAColor::White);
    let mut frame = vec![0u8; (FRAME_W * FRAME_H * 4) as usize];
    draw_gfx_mode_highres2x(&mut frame, FRAME_W, FRAME_H, &mem, pal);
    assert_eq!(pixel(&frame, FRAME_W, 0, 0), [0xAA, 0xAA, 0xAA, 0xFF]);
    assert_eq!(pixel(&frame, FRAME_W, 1, 0), [0x00, 0x00, 0x00, 0x00]);
    assert_eq!(pixel(&frame, FRAME_W, 2, 0), [0xAA, 0xAA, 0xAA, 0xFF]);
}

#[test]
fn composite_mode_pixel_mapping() {
    let mut mem = vec![0u8; CGA_MEM_SIZE];
    mem[0] = 0b0001_1111;
    let pal = CGAPalette::MagentaCyanWhite(CGAColor::Black);
    let mut frame = vec![0u8; (FRAME_W * FRAME_H * 4) as usize];
    draw_gfx_mode2x_composite(&mut frame, FRAME_W, FRAME_H, &mem, pal, false);
    // the first artifact cell carries value one across four columns
    assert_eq!(pixel(&frame, FRAME_W, 0, 0), [0x00, 0x9A, 0xFF, 0xFF]);
    assert_eq!(pixel(&frame, FRAME_W, 3, 0), [0x00, 0x9A, 0xFF, 0xFF]);
    // the second carries value fifteen
    assert_eq!(pixel(&frame, FRAME_W, 4, 0), [0xFF, 0xFF, 0xFF, 0xFF]);
}

#[test]
fn draw_renders_a_text_frame() {
    let rom = RomManager::new(0, 0x100);
    let mut m = Machine::new(
        MachineType::IBM_XT_5160,
        VideoType::CGA,
        rom,
        FloppyManager::new(),
    );
    // put a solid glyph, white on black, into the first cell
    let mut font = vec![0u8; FONT_SIZE];
    for row in 0..8 {
        font[row * 32] = 0xFF;
    }
    m.mut_bus().write_u8(CGA_MEM_ADDRESS, 0x00).unwrap();
    m.mut_bus().write_u8(CGA_MEM_ADDRESS + 1, 0x07).unwrap();
    let video = Video::new();
    let mut frame = vec![0u8; (FRAME_W * FRAME_H * 4) as usize];
    video.draw(&mut frame, m.cga(), m.bus(), false, &font);
    // the first cell is solid white; its neighbour is black on black
    assert_eq!(pixel(&frame, FRAME_W, 0, 0), [0xAA, 0xAA, 0xAA, 0xFF]);
    assert_eq!(pixel(&frame, FRAME_W, 7, 15), [0xAA, 0xAA, 0xAA, 0xFF]);
    assert_eq!(pixel(&frame, FRAME_W, 8, 0), [0x00, 0x00, 0x00, 0xFF]);
    // the cursor paints the first cell's lower scan lines in its foreground
    assert_eq!(pixel(&frame, FRAME_W, 0, 12), [0xAA, 0xAA, 0xAA, 0xFF]);
}

#[test]
fn draw_disabled_leaves_the_frame() {
    let rom = RomManager::new(0, 0x100);
    let mut m = Machine::new(
        MachineType::IBM_XT_5160,
        VideoType::CGA,
        rom,
        FloppyManager::new(),
    );
    m.devices.cga.mode_byte = 0;
    let video = Video::new();
    let font = vec![0u8; FONT_SIZE];
    let mut frame = vec![0x5Au8; (FRAME_W * FRAME_H * 4) as usize];
    video.draw(&mut frame, m.cga(), m.bus(), false, &font);
    assert!(frame.iter().all(|b| *b == 0x5A));
}
