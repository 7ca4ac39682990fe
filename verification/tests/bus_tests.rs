use pc_core::bus::{BusInterface, MemError, ADDRESS_SPACE};
use pc_core::byteinterface::ByteInterface;

#[test]
fn rom_protection() {
    let mut bus = BusInterface::new();
    bus.copy_from(&vec![0xAA, 0xBB], 0xF0000, 4, true).unwrap();
    assert_eq!(bus.write_u8(0xF0000, 0x00), Ok(4));
    assert_eq!(bus.read_u8(0xF0000), Ok((0xAA, 4)));
    assert_eq!(bus.read_u8(0xF0001), Ok((0xBB, 4)));
}

#[test]
fn little_endian_word() {
    let mut bus = BusInterface::new();
    bus.copy_from(&vec![0x34, 0x12], 0x00100, 4, false).unwrap();
    assert_eq!(bus.read_u16(0x00100), Ok((0x1234, 4)));
}

#[test]
fn oob_read_cursor_api() {
    let mut bus = BusInterface::new();
    bus.set_cursor(0xFFFFF);
    let mut c: u32 = 0;
    let w = ByteInterface::read_u16(&mut bus, &mut c);
    assert_eq!(w, 0xFFFF);
    assert_eq!(c, 8);
    // the cursor does not advance on a failed access
    assert_eq!(bus.tell(), 0xFFFFF);
}

#[test]
fn copy_then_read_every_byte() {
    let mut bus = BusInterface::new();
    let src = vec![1, 2, 3, 4, 5];
    bus.copy_from(&src, 0x200, 4, false).unwrap();
    for (i, b) in src.iter().enumerate() {
        assert_eq!(bus.read_u8(0x200 + i), Ok((*b, 4)));
    }
}

#[test]
fn read_only_image_ignores_writes() {
    let mut bus = BusInterface::new();
    let src = vec![9, 8, 7];
    bus.copy_from(&src, 0x300, 4, true).unwrap();
    for i in 0..3 {
        assert_eq!(bus.write_u8(0x300 + i, 0x55), Ok(4));
        assert_eq!(bus.read_u8(0x300 + i).unwrap().0, src[i]);
    }
}

#[test]
fn word_read_assembles_bytes() {
    let mut bus = BusInterface::new();
    bus.write_u8(0x40, 0xCD).unwrap();
    bus.write_u8(0x41, 0xAB).unwrap();
    let lo = bus.read_u8(0x40).unwrap().0 as u16;
    let hi = bus.read_u8(0x41).unwrap().0 as u16;
    assert_eq!(bus.read_u16(0x40).unwrap().0, lo | (hi << 8));
}

#[test]
fn write_then_read_back() {
    let mut bus = BusInterface::new();
    assert_eq!(bus.write_u8(0x1234, 0x42), Ok(4));
    assert_eq!(bus.read_u8(0x1234), Ok((0x42, 4)));
}

#[test]
fn word_round_trip_on_ram() {
    let mut bus = BusInterface::new();
    assert_eq!(bus.write_u16(0x500, 0xBEEF), Ok(4));
    assert_eq!(bus.read_u16(0x500), Ok((0xBEEF, 4)));
    assert_eq!(bus.read_u8(0x500), Ok((0xEF, 4)));
    assert_eq!(bus.read_u8(0x501), Ok((0xBE, 4)));
}

#[test]
fn signed_reads_share_the_bit_patterns() {
    let mut bus = BusInterface::new();
    bus.write_u8(0x10, 0xFF).unwrap();
    bus.write_u8(0x11, 0xFF).unwrap();
    assert_eq!(bus.read_i8(0x10), Ok((-1, 4)));
    assert_eq!(bus.read_i16(0x10), Ok((-1, 4)));
    assert_eq!(bus.write_i8(0x12, -2), Ok(4));
    assert_eq!(bus.read_u8(0x12), Ok((0xFE, 4)));
    assert_eq!(bus.write_i16(0x20, 0x8001), Ok(4));
    assert_eq!(bus.read_i16(0x20), Ok((-32767, 4)));
}

#[test]
fn indexed_out_of_bounds() {
    let mut bus = BusInterface::new();
    assert_eq!(bus.read_u8(ADDRESS_SPACE), Err(MemError::ReadOutOfBoundsError));
    assert_eq!(bus.read_u16(ADDRESS_SPACE - 1), Err(MemError::ReadOutOfBoundsError));
    assert_eq!(bus.write_u8(ADDRESS_SPACE, 1), Err(MemError::ReadOutOfBoundsError));
    assert_eq!(bus.write_u16(ADDRESS_SPACE - 1, 1), Err(MemError::ReadOutOfBoundsError));
    // the last byte itself is addressable
    assert_eq!(bus.read_u8(ADDRESS_SPACE - 1), Ok((0, 4)));
}

#[test]
fn copy_from_rejects_overrun() {
    let mut bus = BusInterface::new();
    assert_eq!(bus.copy_from(&vec![0; 3], ADDRESS_SPACE - 2, 4, false), Err(false));
    // nothing was stamped
    assert_eq!(bus.read_u8(ADDRESS_SPACE - 2), Ok((0, 4)));
}

#[test]
fn patch_from_ignores_rom_mask() {
    let mut bus = BusInterface::new();
    bus.copy_from(&vec![0x11, 0x22], 0x800, 4, true).unwrap();
    bus.patch_from(&vec![0x33], 0x800).unwrap();
    assert_eq!(bus.read_u8(0x800), Ok((0x33, 4)));
    // the mask still protects against ordinary writes
    bus.write_u8(0x800, 0x44).unwrap();
    assert_eq!(bus.read_u8(0x800), Ok((0x33, 4)));
}

#[test]
fn reset_zeroes_memory_and_keeps_mask() {
    let mut bus = BusInterface::new();
    bus.copy_from(&vec![0xAA], 0x900, 4, true).unwrap();
    bus.reset();
    assert_eq!(bus.read_u8(0x900), Ok((0, 4)));
    // the ROM bit survives the reset until images are re-stamped
    bus.write_u8(0x900, 0x77).unwrap();
    assert_eq!(bus.read_u8(0x900), Ok((0, 4)));
}

#[test]
fn cursor_reads_and_writes() {
    let mut bus = BusInterface::new();
    let mut c: u32 = 0;
    bus.set_cursor(0x100);
    ByteInterface::write_u8(&mut bus, 0x5A, &mut c);
    assert_eq!(c, 4);
    assert_eq!(bus.tell(), 0x101);
    bus.set_cursor(0x100);
    assert_eq!(ByteInterface::read_u8(&mut bus, &mut c), 0x5A);
    assert_eq!(c, 8);
    assert_eq!(bus.tell(), 0x101);
}

#[test]
fn cursor_word_write_merges_bits() {
    let mut bus = BusInterface::new();
    let mut c: u32 = 0;
    bus.write_u8(0x600, 0x0F).unwrap();
    bus.write_u8(0x601, 0xF0).unwrap();
    bus.set_cursor(0x600);
    ByteInterface::write_u16(&mut bus, 0x0F30, &mut c);
    assert_eq!(c, 8);
    // the sequential word write merges with what the bytes already held
    assert_eq!(bus.read_u8(0x600), Ok((0x3F, 4)));
    assert_eq!(bus.read_u8(0x601), Ok((0xFF, 4)));
}

#[test]
fn cursor_signed_accessors() {
    let mut bus = BusInterface::new();
    let mut c: u32 = 0;
    bus.set_cursor(0x700);
    ByteInterface::write_i8(&mut bus, -1, &mut c);
    bus.set_cursor(0x700);
    assert_eq!(ByteInterface::read_i8(&mut bus, &mut c), -1);
    bus.set_cursor(0x710);
    ByteInterface::write_i16(&mut bus, 0x1234, &mut c);
    bus.set_cursor(0x710);
    assert_eq!(ByteInterface::read_i16(&mut bus, &mut c), 0x1234);
    bus.set_cursor(ADDRESS_SPACE - 1);
    assert_eq!(ByteInterface::read_i16(&mut bus, &mut c), -1);
    bus.set_cursor(ADDRESS_SPACE);
    assert_eq!(ByteInterface::read_i8(&mut bus, &mut c), -1);
}

#[test]
fn get_slice_window() {
    let mut bus = BusInterface::new();
    bus.copy_from(&vec![1, 2, 3, 4], 0xB8000, 4, false).unwrap();
    let s = bus.get_slice_at(0xB8000, 4);
    assert_eq!(s, &[1, 2, 3, 4]);
}

#[test]
fn dump_flat_formats_rows() {
    let mut bus = BusInterface::new();
    bus.write_u8(0x20, 0x41).unwrap();
    bus.write_u8(0x21, 0x7A).unwrap();
    bus.write_u8(0x22, 0x1F).unwrap();
    let dump = bus.dump_flat(0x20, 16);
    assert_eq!(
        dump,
        "00020 41 7a 1f 00 00 00 00 00 00 00 00 00 00 00 00 00  Az..............\n"
    );
    // a short request yields no complete row
    assert_eq!(bus.dump_flat(0x20, 15), "");
    // two rows advance the printed address
    let two = bus.dump_flat(0x20, 32);
    assert!(two.starts_with("00020 "));
    assert!(two.contains("\n00030 "));
}

#[test]
fn dump_flat_out_of_bounds_message() {
    let bus = BusInterface::new();
    assert_eq!(bus.dump_flat(ADDRESS_SPACE, 1), "REQUEST OUT OF BOUNDS");
    assert_eq!(bus.dump_flat(0xFFFF1, 16), "REQUEST OUT OF BOUNDS");
    assert_eq!(bus.dump_flat(0xFFFF0, 17), "REQUEST OUT OF BOUNDS");
}

#[test]
fn dump_flat_reaches_the_top_of_memory() {
    let mut bus = BusInterface::new();
    bus.write_u8(0xFFFFF, 0x58).unwrap();
    // a request that ends exactly at the top of memory still dumps
    let dump = bus.dump_flat(0xFFFF0, 16);
    assert_eq!(
        dump,
        "FFFF0 00 00 00 00 00 00 00 00 00 00 00 00 00 00 00 58  ...............X\n"
    );
}
