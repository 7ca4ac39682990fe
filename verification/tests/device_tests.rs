use pc_core::cga::{CGACard, CGAColor, CGAPalette, DisplayMode, CGA_MODE_CONTROL_REGISTER,
    CGA_COLOR_CONTROL_REGISTER, CGA_STATUS_REGISTER, CRTC_REGISTER, CRTC_REGISTER_SELECT};
use pc_core::dma::{DMAController, DMA_CHANNEL_0_ADDR_PORT, DMA_CHANNEL_0_PAGE_REGISTER,
    DMA_CLEAR_FLIPFLOP, DMA_MASTER_CLEAR, DMA_WRITE_MASK_REGISTER};
use pc_core::fdc::{FloppyController, FDC_DIGITAL_OUTPUT_REGISTER, FDC_STATUS_REGISTER};
use pc_core::hdc::{HardDiskController, HDC_DATA_REGISTER, HDC_READ_DIP_REGISTER};
use pc_core::pic::Pic;
use pc_core::pit::{ProgrammableIntervalTimer, PIT_CHANNEL_0_DATA_PORT, PIT_COMMAND_REGISTER};
use pc_core::ppi::{Ppi, PPI_PORT_A, PPI_PORT_B, PPI_PORT_C};
use pc_core::machine::{MachineType, VideoType};

#[test]
fn pic_priority_and_vector() {
    let mut pic = Pic::new();
    assert!(!pic.query_interrupt_line());
    assert_eq!(pic.get_interrupt_vector(), None);
    pic.request_interrupt(6);
    pic.request_interrupt(1);
    assert!(pic.query_interrupt_line());
    // the lower line wins, and moves to in-service
    assert_eq!(pic.get_interrupt_vector(), Some(9));
    assert_eq!(pic.isr, 0b0000_0010);
    assert_eq!(pic.get_interrupt_vector(), Some(14));
    assert_eq!(pic.get_interrupt_vector(), None);
}

#[test]
fn pic_mask_hides_lines() {
    let mut pic = Pic::new();
    pic.write_port(0x21, 0b0000_0010);
    pic.request_interrupt(1);
    assert!(!pic.query_interrupt_line());
    assert_eq!(pic.get_interrupt_vector(), None);
    pic.request_interrupt(3);
    assert_eq!(pic.get_interrupt_vector(), Some(11));
    assert_eq!(pic.read_port(0x21), 0b0000_0010);
    // the request register still shows the masked line
    assert_eq!(pic.read_port(0x20), 0b0000_0010);
}

#[test]
fn pit_counts_down_and_fires() {
    let mut pit = ProgrammableIntervalTimer::new();
    let mut pic = Pic::new();
    let mut dma = DMAController::new();
    // program channel zero to ten cycles: low byte then high byte
    pit.write_port(PIT_CHANNEL_0_DATA_PORT, 10);
    pit.write_port(PIT_CHANNEL_0_DATA_PORT, 0);
    assert_eq!(pit.c0.reload, 10);
    pit.run(&mut pic, &mut dma, 7);
    assert_eq!(pit.c0.count, 3);
    assert_eq!(pic.irr, 0);
    pit.run(&mut pic, &mut dma, 7);
    // the channel expired once and restarted: 10 - ((7 - 3) % 10)
    assert_eq!(pit.c0.count, 6);
    assert_eq!(pic.irr, 1);
    assert_eq!(pit.get_cycles(), 14);
}

#[test]
fn pit_control_resets_flip_flops() {
    let mut pit = ProgrammableIntervalTimer::new();
    pit.write_port(PIT_CHANNEL_0_DATA_PORT, 0x34);
    // the write flip-flop now points at the high byte; a control word for
    // channel zero puts it back on the low byte
    pit.write_port(PIT_COMMAND_REGISTER, 0b0011_0110);
    pit.write_port(PIT_CHANNEL_0_DATA_PORT, 0x12);
    assert_eq!(pit.c0.reload, 0x0012);
    assert_eq!(pit.control, 0b0011_0110);
    // a data-port read returns the count low byte first
    assert_eq!(pit.read_port(PIT_CHANNEL_0_DATA_PORT), 0x12);
    assert_eq!(pit.read_port(PIT_CHANNEL_0_DATA_PORT), 0x00);
}

#[test]
fn dma_flip_flop_addressing() {
    let mut dma = DMAController::new();
    dma.write_port(DMA_CHANNEL_0_ADDR_PORT, 0x34);
    dma.write_port(DMA_CHANNEL_0_ADDR_PORT, 0x12);
    assert_eq!(dma.ch0.addr, 0x1234);
    dma.write_port(DMA_CLEAR_FLIPFLOP, 0);
    assert_eq!(dma.read_port(DMA_CHANNEL_0_ADDR_PORT), 0x34);
    assert_eq!(dma.read_port(DMA_CHANNEL_0_ADDR_PORT), 0x12);
    dma.write_port(DMA_CHANNEL_0_PAGE_REGISTER, 0x0A);
    assert_eq!(dma.ch0.page, 0x0A);
}

#[test]
fn dma_masks_and_master_clear() {
    let mut dma = DMAController::new();
    dma.write_port(DMA_WRITE_MASK_REGISTER, 0b0000_0101);
    assert!(dma.ch0.masked && !dma.ch1.masked && dma.ch2.masked && !dma.ch3.masked);
    dma.request_refresh();
    dma.run();
    assert_eq!(dma.refresh_count, 1);
    dma.run();
    assert_eq!(dma.refresh_count, 1);
    dma.write_port(DMA_MASTER_CLEAR, 0);
    // a master clear returns the registers to power-on but keeps the tally
    assert!(dma.ch0.masked && dma.ch1.masked);
    assert_eq!(dma.refresh_count, 1);
    assert!(!dma.flip_flop);
}

#[test]
fn fdc_reset_release_raises_ready_interrupt() {
    let mut fdc = FloppyController::new();
    let mut pic = Pic::new();
    assert_eq!(fdc.read_port(FDC_STATUS_REGISTER), 0x80);
    fdc.write_port(FDC_DIGITAL_OUTPUT_REGISTER, 0x04);
    assert!(fdc.pending_interrupt);
    fdc.run(&mut pic, 7);
    assert_eq!(pic.irr, 0b0100_0000);
    assert!(!fdc.pending_interrupt);
    // holding the reset bit high again raises nothing new
    fdc.write_port(FDC_DIGITAL_OUTPUT_REGISTER, 0x0C);
    assert!(!fdc.pending_interrupt);
}

#[test]
fn hdc_command_completion_interrupt() {
    let mut hdc = HardDiskController::new(0x0A);
    let mut pic = Pic::new();
    assert_eq!(hdc.read_port(HDC_READ_DIP_REGISTER), 0x0A);
    hdc.write_port(HDC_DATA_REGISTER, 0x0C);
    assert!(hdc.pending_interrupt);
    assert_eq!(hdc.command_string(), "0c");
    hdc.run(&mut pic, 7);
    assert_eq!(pic.irr, 0b0010_0000);
}

#[test]
fn ppi_ports() {
    let mut ppi = Ppi::new(MachineType::IBM_PC_5150, VideoType::MDA);
    assert_eq!(ppi.read_port(PPI_PORT_C), 0x71);
    ppi.write_port(PPI_PORT_B, 0xA5);
    assert_eq!(ppi.read_port(PPI_PORT_B), 0xA5);
    ppi.send_keyboard(0x2A);
    assert_eq!(ppi.read_port(PPI_PORT_A), 0x2A);
    assert_eq!(ppi.get_string_state().kb_count, "1");
}

#[test]
fn cga_mode_decoding() {
    let mut cga = CGACard::new();
    assert!(matches!(cga.get_display_mode(), DisplayMode::Mode3TextCo80));
    assert!(!cga.is_40_columns());
    cga.write_port(CGA_MODE_CONTROL_REGISTER, 0x08);
    assert!(matches!(cga.get_display_mode(), DisplayMode::Mode1TextCo40));
    assert!(cga.is_40_columns());
    cga.write_port(CGA_MODE_CONTROL_REGISTER, 0x0A);
    assert!(matches!(cga.get_display_mode(), DisplayMode::Mode4LowResGraphics));
    cga.write_port(CGA_MODE_CONTROL_REGISTER, 0x1A);
    assert!(matches!(cga.get_display_mode(), DisplayMode::Mode6HiResGraphics));
    cga.write_port(CGA_MODE_CONTROL_REGISTER, 0x00);
    assert!(matches!(cga.get_display_mode(), DisplayMode::Disabled));
    assert_eq!(cga.read_port(CGA_STATUS_REGISTER), 0x09);
}

#[test]
fn cga_cursor_registers() {
    let mut cga = CGACard::new();
    cga.write_port(CRTC_REGISTER_SELECT, 14);
    cga.write_port(CRTC_REGISTER, 0x01);
    cga.write_port(CRTC_REGISTER_SELECT, 15);
    cga.write_port(CRTC_REGISTER, 0x24);
    let info = cga.get_cursor_info();
    // character address 0x124 in the eighty-column mode
    assert_eq!(info.addr, 0x124);
    assert_eq!(info.pos_x, (0x124 % 80) as u32);
    assert_eq!(info.pos_y, (0x124 / 80) as u32);
    assert_eq!(info.line_start, 6);
    assert_eq!(info.line_end, 7);
    assert!(info.visible);
    // cursor-mode bits of one-zero hide the cursor
    cga.write_port(CRTC_REGISTER_SELECT, 10);
    cga.write_port(CRTC_REGISTER, 0x26);
    assert!(!cga.get_cursor_info().visible);
    assert_eq!(cga.read_port(CRTC_REGISTER), 0x26);
    assert_eq!(cga.get_character_height(), 8);
}

#[test]
fn cga_palette_selection() {
    let mut cga = CGACard::new();
    cga.write_port(CGA_MODE_CONTROL_REGISTER, 0x0A);
    cga.write_port(CGA_COLOR_CONTROL_REGISTER, 0x21);
    let (pal, intensity) = cga.get_palette();
    assert!(matches!(pal, CGAPalette::MagentaCyanWhite(CGAColor::Blue)));
    assert!(!intensity);
    cga.write_port(CGA_COLOR_CONTROL_REGISTER, 0x10);
    let (pal, intensity) = cga.get_palette();
    assert!(matches!(pal, CGAPalette::RedGreenYellow(CGAColor::Black)));
    assert!(intensity);
    cga.write_port(CGA_MODE_CONTROL_REGISTER, 0x1A);
    let (pal, _) = cga.get_palette();
    assert!(matches!(pal, CGAPalette::Monochrome(CGAColor::Black)));
}
