use nessie::bus::Bus;
use nessie::cartridge::Cartridge;
use nessie::nes::NesBus;

fn fresh_bus() -> NesBus {
    let cartridge_data = vec![0x00; 0x8000];
    let cartridge = Cartridge::from_rom(&cartridge_data).unwrap();
    NesBus::new(cartridge)
}

#[test]
fn test_ppustatus_read_behavior() {
    // PPUSTATUS ($2002) is read-only and carries the VBlank flag in
    // bit 7; writes to it are ignored.
    let mut bus = fresh_bus();

    // Write to PPUSTATUS should be ignored (it's read-only)
    bus.write(0x2002, 0xFF);

    // Read should return actual PPU status, not what we tried to write
    let status = bus.read(0x2002);

    assert_eq!(
        status & 0x80,
        0x80,
        "VBlank flag should be set initially or after proper timing"
    );
}

#[test]
fn test_ppu_register_mirroring() {
    // PPU registers mirror every 8 bytes in the $2000-$3FFF range.
    let mut bus = fresh_bus();

    // Write to base register
    bus.write(0x2000, 0xAA);

    // These should all access the same register due to mirroring
    bus.write(0x2008, 0xBB); // +8
    bus.write(0x2010, 0xCC); // +16
    bus.write(0x3FF8, 0xDD); // Near end of range

    assert_eq!(bus.ppu.ctrl, 0xDD);
}

#[test]
fn test_vblank_flag_set_on_scanline_241() {
    // VBlank flag should be set when we reach scanline 241
    let mut bus = fresh_bus();

    // Our PPU starts at scanline 241, so VBlank should already be set
    assert_eq!(bus.get_ppu_scanline(), 241, "PPU starts at scanline 241");
    let status = bus.read(0x2002);
    assert_eq!(status & 0x80, 0x80, "VBlank should be set at scanline 241");

    // Clear VBlank by reading status
    let _status = bus.read(0x2002);
    let status = bus.read(0x2002);
    assert_eq!(status & 0x80, 0x00, "VBlank should be cleared after read");

    // Step to end of current scanline
    for _ in 0..341 {
        bus.step_ppu();
    }

    // Should be at scanline 242, and VBlank should still be cleared
    assert_eq!(bus.get_ppu_scanline(), 242, "Should be at scanline 242");
    let status = bus.read(0x2002);
    assert_eq!(
        status & 0x80,
        0x00,
        "VBlank should remain cleared at scanline 242"
    );
}

#[test]
fn test_vblank_clears_at_scanline_261() {
    // VBlank is cleared when we reach scanline 261
    let mut bus = fresh_bus();

    // Start at scanline 241 with VBlank set
    assert_eq!(bus.get_ppu_scanline(), 241, "Start at scanline 241");

    // Step to scanline 261
    while bus.get_ppu_scanline() != 261 {
        bus.step_ppu();
    }

    assert_eq!(bus.get_ppu_scanline(), 261, "Should reach scanline 261");
    let status = bus.read(0x2002);
    assert_eq!(
        status & 0x80,
        0x00,
        "VBlank should be cleared at scanline 261"
    );
}

#[test]
fn test_vblank_flag_clearing_on_read() {
    // Reading PPUSTATUS should clear the VBlank flag
    let mut bus = fresh_bus();

    // First read should show VBlank set
    let status1 = bus.read(0x2002);
    assert_eq!(status1 & 0x80, 0x80, "VBlank should be set initially");

    // Second read should show VBlank cleared
    let status2 = bus.read(0x2002);
    assert_eq!(
        status2 & 0x80,
        0x00,
        "VBlank should be cleared after first read"
    );
}

#[test]
fn test_nmi_generation_on_vblank() {
    // NMI is generated when VBlank occurs and NMI is enabled
    let mut bus = fresh_bus();

    // Enable NMI in PPUCTRL (bit 7)
    bus.write(0x2000, 0x80); // Set NMI_ENABLE

    assert!(
        bus.should_generate_nmi(),
        "NMI should be generated when VBlank + NMI_ENABLE"
    );

    // Disable NMI
    bus.write(0x2000, 0x00); // Clear NMI_ENABLE

    assert!(
        !bus.should_generate_nmi(),
        "NMI should not be generated when NMI disabled"
    );
}

#[test]
fn test_nmi_gating_leaves_vblank_latched() {
    // Turning NMI generation off and on again shows the VBlank flag was
    // never cleared by the gating itself.
    let mut bus = fresh_bus();
    bus.write(0x2000, 0x80);
    assert!(bus.should_generate_nmi());
    bus.write(0x2000, 0x00);
    assert!(!bus.should_generate_nmi());
    bus.write(0x2000, 0x80);
    assert!(bus.should_generate_nmi(), "VBlank must still be latched");
}

#[test]
fn test_ppudata_buffered_read() {
    // Reading PPUDATA at v = $2000 twice: the first read returns the
    // stale buffer, the second the byte stored at $2000.
    let mut bus = fresh_bus();

    // Store $42 at VRAM $2000 through PPUADDR/PPUDATA.
    bus.write(0x2006, 0x20);
    bus.write(0x2006, 0x00);
    bus.write(0x2007, 0x42);

    // Point v back at $2000 and read twice.
    bus.write(0x2006, 0x20);
    bus.write(0x2006, 0x00);
    let stale = bus.read(0x2007);
    let fresh = bus.read(0x2007);
    assert_eq!(stale, 0x00, "first read returns the stale buffer");
    assert_eq!(fresh, 0x42, "second read returns the byte at $2000");
}

#[test]
fn test_ppuaddr_high_then_low_sets_v() {
    // Writing high then low to PPUADDR leaves v = (high << 8) | low.
    let mut bus = fresh_bus();
    bus.write(0x2006, 0x23);
    bus.write(0x2006, 0xC4);
    assert_eq!(bus.ppu.vram_addr, 0x23C4);
}

#[test]
fn test_ppustatus_read_resets_ppuaddr_latch() {
    // A PPUSTATUS read between the two PPUADDR writes resets the shared
    // write latch, so the next write is a high byte again.
    let mut bus = fresh_bus();
    bus.write(0x2006, 0x3F); // first (high) write
    let _ = bus.read(0x2002); // resets the latch
    bus.write(0x2006, 0x23);
    bus.write(0x2006, 0xC4);
    assert_eq!(bus.ppu.vram_addr, 0x23C4);
}

#[test]
fn test_oam_data_cursor() {
    // OAMDATA writes store under the cursor and advance it; reads do not
    // advance it.
    let mut bus = fresh_bus();
    bus.write(0x2003, 0x10);
    bus.write(0x2004, 0xAB);
    bus.write(0x2004, 0xCD);
    bus.write(0x2003, 0x10);
    let first = bus.read(0x2004);
    let again = bus.read(0x2004);
    assert_eq!(first, 0xAB);
    assert_eq!(again, 0xAB);
    bus.write(0x2003, 0x11);
    assert_eq!(bus.read(0x2004), 0xCD);
}
