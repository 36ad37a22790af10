use nessie::bus::{Bus, FlatRam};
use nessie::cartridge::{Cartridge, CartridgeError};
use nessie::nes::NesBus;

#[test]
fn test_flat_ram_write_then_read() {
    let mut ram = FlatRam::new();
    ram.write(0x1234, 0xAB);
    ram.write(0x0000, 0x01);
    assert_eq!(ram.read(0x1234), 0xAB);
    assert_eq!(ram.peek(0x1234), 0xAB);
    assert_eq!(ram.read(0x0000), 0x01);
}

#[test]
fn test_nes_bus_ram_write_then_read_with_mirroring() {
    let cartridge = Cartridge::from_rom(&vec![0x00; 16]).unwrap();
    let mut bus = NesBus::new(cartridge);

    // Internal RAM mirrors every 2 KiB up to $1FFF.
    bus.write(0x0000, 0x55);
    assert_eq!(bus.read(0x0000), 0x55);
    assert_eq!(bus.read(0x0800), 0x55);
    assert_eq!(bus.read(0x1800), 0x55);

    // A write to a different cell leaves it alone.
    bus.write(0x0001, 0x66);
    assert_eq!(bus.read(0x0000), 0x55);

    // Cartridge RAM holds its bytes too.
    bus.write(0x6000, 0x77);
    assert_eq!(bus.read(0x6000), 0x77);

    // Writes to the unmapped hole are dropped, reads yield zero.
    bus.write(0x4321, 0x99);
    assert_eq!(bus.read(0x4321), 0x00);
}

#[test]
fn test_read16_little_endian() {
    let mut ram = FlatRam::new();
    ram.write(0x0200, 0x34);
    ram.write(0x0201, 0x12);
    assert_eq!(ram.read16(0x0200), 0x1234);
}

#[test]
fn test_cartridge_header_too_short() {
    assert_eq!(
        Cartridge::from_rom(&[0u8; 8]).err(),
        Some(CartridgeError::HeaderTooShort)
    );
}

#[test]
fn test_cartridge_rom_window_truncated() {
    // Header announces two 16 KiB banks but the image holds none.
    let mut image = vec![0u8; 16];
    image[4] = 2;
    assert_eq!(
        Cartridge::from_rom(&image).err(),
        Some(CartridgeError::RomTruncated)
    );
}

#[test]
fn test_cartridge_trainer_skipped() {
    // With header bit 2 of byte 6 set, PRG data starts 512 bytes later.
    let mut image = vec![0u8; 16 + 512 + 0x4000];
    image[4] = 1;
    image[6] = 0x04;
    image[16 + 512] = 0xEA; // first PRG byte
    let cartridge = Cartridge::from_rom(&image).unwrap();
    assert_eq!(cartridge.read(0x8000), 0xEA);
}

#[test]
fn test_cartridge_16k_rom_mirrors() {
    // A single 16 KiB bank appears in both halves of $8000-$FFFF.
    let mut image = vec![0u8; 16 + 0x4000];
    image[4] = 1;
    image[16] = 0xA9;
    image[16 + 0x3FFF] = 0x60;
    let cartridge = Cartridge::from_rom(&image).unwrap();
    assert_eq!(cartridge.read(0x8000), 0xA9);
    assert_eq!(cartridge.read(0xC000), 0xA9);
    assert_eq!(cartridge.read(0xBFFF), 0x60);
    assert_eq!(cartridge.read(0xFFFF), 0x60);
}

#[test]
fn test_cartridge_rom_writes_dropped() {
    let mut image = vec![0u8; 16 + 0x4000];
    image[4] = 1;
    image[16] = 0x12;
    let mut cartridge = Cartridge::from_rom(&image).unwrap();
    cartridge.write(0x8000, 0xFF);
    assert_eq!(cartridge.read(0x8000), 0x12);
}

#[test]
fn test_read16_wraps_at_top_of_address_space() {
    // read16 at $FFFF takes its high byte from $0000.
    let mut ram = FlatRam::new();
    ram.write(0xFFFF, 0x34);
    ram.write(0x0000, 0x12);
    assert_eq!(ram.read16(0xFFFF), 0x1234);
}

#[test]
fn test_peek_has_no_side_effects() {
    // Peeking PPUSTATUS leaves the VBlank flag latched; reading clears it.
    let cartridge = Cartridge::from_rom(&vec![0x00; 16]).unwrap();
    let mut bus = NesBus::new(cartridge);
    assert_eq!(bus.peek(0x2002) & 0x80, 0x80);
    assert_eq!(bus.peek(0x2002) & 0x80, 0x80, "peek must not clear VBlank");
    assert_eq!(bus.read(0x2002) & 0x80, 0x80);
    assert_eq!(bus.peek(0x2002) & 0x80, 0x00, "read clears VBlank");
}
