//! Picture processing unit: the eight memory-mapped registers, the internal
//! VRAM address latch, nametable VRAM, palette RAM, OAM, and the dot clock
//! that raises and clears the vertical-blank flag.
//!
//! Every register access and the clock are specified as pure transition
//! functions on [`PpuModel`], the mathematical model of the PPU state; the
//! executable methods are verified to follow those transitions exactly.

use vstd::prelude::*;

verus! {

/// PPUSTATUS bit: sprite overflow.
pub const STATUS_SPRITE_OVERFLOW: u8 = 0x20;

/// PPUSTATUS bit: sprite zero hit.
pub const STATUS_SPRITE_ZERO_HIT: u8 = 0x40;

/// PPUSTATUS bit: vertical blank.
pub const STATUS_VBLANK: u8 = 0x80;

/// PPUCTRL bit: VRAM address increment step (set: 32, clear: 1).
pub const CTRL_VRAM_INCREMENT: u8 = 0x04;

/// PPUCTRL bit: raise NMI on vertical blank.
pub const CTRL_NMI_ENABLE: u8 = 0x80;

/// The mathematical model of the PPU state: plain bytes for the registers
/// and latches, and sequences for the three memories.
pub struct PpuModel {
    /// $2000 PPUCTRL.
    pub ctrl: u8,
    /// $2001 PPUMASK.
    pub mask: u8,
    /// $2002 PPUSTATUS (only bits 5..7 are ever set).
    pub status: u8,
    /// $2003 OAMADDR: the OAM cursor.
    pub oam_addr: u8,
    /// $2005 PPUSCROLL, first write.
    pub scroll_x: u8,
    /// $2005 PPUSCROLL, second write.
    pub scroll_y: u8,
    /// $2006 PPUADDR, first write (high byte).
    pub addr_hi: u8,
    /// $2006 PPUADDR, second write (low byte).
    pub addr_lo: u8,
    /// The one-byte read buffer behind $2007.
    pub data_buffer: u8,
    /// The latch shared by $2005 and $2006: false before a first write.
    pub write_toggle: bool,
    /// The current VRAM address `v`.
    pub vram_addr: u16,
    /// Dot within the scanline, 0..=340.
    pub cycle: u16,
    /// Scanline, 0..=261.
    pub scanline: u16,
    /// Completed-frame counter.
    pub frame: u64,
    /// 2 KiB of nametable VRAM.
    pub vram: Seq<u8>,
    /// 32 bytes of palette RAM.
    pub palette_ram: Seq<u8>,
    /// 256 bytes of object attribute memory.
    pub oam: Seq<u8>,
}

/// The byte stored at `address` of the PPU's own 14-bit address space
/// (pattern tables are not backed in this core and read as zero).
pub open spec fn vram_value(p: PpuModel, address: u16) -> u8 {
    let a = address & 0x3FFF;
    if a < 0x2000 {
        0u8
    } else if a < 0x3000 {
        p.vram[(a & 0x7FF) as int]
    } else if a < 0x3F00 {
        p.vram[(a & 0x7FF) as int]
    } else {
        p.palette_ram[(a & 0x1F) as int]
    }
}

/// The PPU state after storing `value` at `address` of the PPU address
/// space (stores to the unbacked pattern-table region are dropped).
pub open spec fn post_vram_write(p: PpuModel, address: u16, value: u8) -> PpuModel {
    let a = address & 0x3FFF;
    if a < 0x2000 {
        p
    } else if a < 0x3000 {
        PpuModel { vram: p.vram.update((a & 0x7FF) as int, value), ..p }
    } else if a < 0x3F00 {
        PpuModel { vram: p.vram.update((a & 0x7FF) as int, value), ..p }
    } else {
        PpuModel { palette_ram: p.palette_ram.update((a & 0x1F) as int, value), ..p }
    }
}

/// The step `v` advances by after a $2007 access: 32 when the control bit
/// is set, 1 otherwise.
pub open spec fn vram_step(p: PpuModel) -> u16 {
    if p.ctrl & CTRL_VRAM_INCREMENT != 0 {
        32u16
    } else {
        1u16
    }
}

/// Whether `v` currently falls in the palette range of the 14-bit space.
pub open spec fn vram_addr_in_palette(p: PpuModel) -> bool {
    p.vram_addr & 0x3FFF >= 0x3F00
}

/// The byte a CPU-side read of register `address` returns. Write-only
/// registers read as zero. $2002 returns the status byte; $2004 the OAM
/// byte under the cursor; $2007 the buffered byte, except that palette
/// reads bypass the buffer.
pub open spec fn reg_read_value(p: PpuModel, address: u16) -> u8 {
    if address == 0x2002 {
        p.status
    } else if address == 0x2004 {
        p.oam[p.oam_addr as int]
    } else if address == 0x2007 {
        if vram_addr_in_palette(p) {
            vram_value(p, p.vram_addr)
        } else {
            p.data_buffer
        }
    } else {
        0u8
    }
}

/// The PPU state after a CPU-side read of register `address`. Reading
/// $2002 clears the vertical-blank flag and the shared write toggle.
/// Reading $2007 refills the read buffer — from the nametable mirrored
/// underneath when `v` is in the palette range — and advances `v`.
pub open spec fn post_reg_read(p: PpuModel, address: u16) -> PpuModel {
    if address == 0x2002 {
        PpuModel { status: p.status & !STATUS_VBLANK, write_toggle: false, ..p }
    } else if address == 0x2007 {
        let source = if vram_addr_in_palette(p) {
            p.vram_addr & 0x2FFF
        } else {
            p.vram_addr
        };
        PpuModel {
            data_buffer: vram_value(p, source),
            vram_addr: crate::bus::wrap16(p.vram_addr + vram_step(p)),
            ..p
        }
    } else {
        p
    }
}

/// The PPU state after a CPU-side write of `value` to register `address`.
/// $2002 is read-only; $2005 and $2006 are latched by the shared toggle;
/// the second $2006 write completes `v`; $2007 stores through `v` and
/// advances it.
pub open spec fn post_reg_write(p: PpuModel, address: u16, value: u8) -> PpuModel {
    if address == 0x2000 {
        PpuModel { ctrl: value, ..p }
    } else if address == 0x2001 {
        PpuModel { mask: value, ..p }
    } else if address == 0x2003 {
        PpuModel { oam_addr: value, ..p }
    } else if address == 0x2004 {
        PpuModel {
            oam: p.oam.update(p.oam_addr as int, value),
            oam_addr: crate::bus::wrap8(p.oam_addr + 1),
            ..p
        }
    } else if address == 0x2005 {
        if !p.write_toggle {
            PpuModel { scroll_x: value, write_toggle: true, ..p }
        } else {
            PpuModel { scroll_y: value, write_toggle: false, ..p }
        }
    } else if address == 0x2006 {
        if !p.write_toggle {
            PpuModel { addr_hi: value, write_toggle: true, ..p }
        } else {
            PpuModel {
                addr_lo: value,
                vram_addr: (((p.addr_hi as u16) << 8) | (value as u16)),
                write_toggle: false,
                ..p
            }
        }
    } else if address == 0x2007 {
        let stored = post_vram_write(p, p.vram_addr, value);
        PpuModel { vram_addr: crate::bus::wrap16(p.vram_addr + vram_step(p)), ..stored }
    } else {
        p
    }
}

/// The PPU state one dot later. Dots count to 340 within a scanline and
/// scanlines to 261 within a frame; entering scanline 241 sets the
/// vertical-blank flag, entering the pre-render scanline 261 clears it
/// together with the two sprite flags.
pub open spec fn post_clock(p: PpuModel) -> PpuModel {
    let c = crate::bus::wrap16(p.cycle + 1);
    if c >= 341 {
        let s = crate::bus::wrap16(p.scanline + 1);
        let (scanline, frame) = if s >= 262 {
            (0u16, crate::bus::wrap64(p.frame + 1))
        } else {
            (s, p.frame)
        };
        let status = if scanline == 241 {
            p.status | STATUS_VBLANK
        } else if scanline == 261 {
            p.status & !(STATUS_VBLANK | STATUS_SPRITE_ZERO_HIT | STATUS_SPRITE_OVERFLOW)
        } else {
            p.status
        };
        PpuModel { cycle: 0, scanline, frame, status, ..p }
    } else {
        PpuModel { cycle: c, ..p }
    }
}

/// True when the PPU is asserting the NMI line: vertical blank is latched
/// and NMI generation is enabled.
pub open spec fn nmi_signal(p: PpuModel) -> bool {
    p.ctrl & CTRL_NMI_ENABLE != 0 && p.status & STATUS_VBLANK != 0
}

/// The state of a freshly powered PPU: all memories zero, `v` and the
/// latches clear, and the clock placed at the start of scanline 241 with
/// the vertical-blank flag already latched.
pub open spec fn initial_ppu() -> PpuModel {
    PpuModel {
        ctrl: 0,
        mask: 0,
        status: STATUS_VBLANK,
        oam_addr: 0,
        scroll_x: 0,
        scroll_y: 0,
        addr_hi: 0,
        addr_lo: 0,
        data_buffer: 0,
        write_toggle: false,
        vram_addr: 0,
        cycle: 0,
        scanline: 241,
        frame: 0,
        vram: Seq::new(2048, |i: int| 0u8),
        palette_ram: Seq::new(32, |i: int| 0u8),
        oam: Seq::new(256, |i: int| 0u8),
    }
}

/// Facts about the vertical-blank bit under the status updates the clock
/// and the status-register read perform.
proof fn lemma_vblank_bit(s: u8)
    by (bit_vector)
    ensures
        (s | 0x80u8) & 0x80u8 != 0,
        ((s & !(0x80u8 | 0x40u8 | 0x20u8)) & 0x80u8) == 0,
        ((s & !0x80u8) & 0x80u8) == 0,
{
}

/// Law: a read of PPUSTATUS resets the shared write latch of PPUSCROLL and
/// PPUADDR, whatever write to either register came before it: the next
/// write to $2005 or $2006 is treated as a first write again.
pub proof fn lemma_status_read_resets_write_toggle(p: PpuModel, reg: u16, value: u8)
    requires
        reg == 0x2005 || reg == 0x2006,
    ensures
        !post_reg_read(post_reg_write(p, reg, value), 0x2002).write_toggle,
{
}

/// The timing discipline the dot clock maintains: the dot and scanline
/// counters stay in range, and the vertical-blank flag is set exactly on
/// scanlines 241..=260.
pub open spec fn vblank_tracks_scanline(p: PpuModel) -> bool {
    &&& p.cycle <= 340
    &&& p.scanline <= 261
    &&& (p.status & STATUS_VBLANK != 0 <==> 241 <= p.scanline <= 260)
}

/// Law: a freshly powered PPU obeys the timing discipline.
pub proof fn lemma_initial_vblank_window()
    ensures
        vblank_tracks_scanline(initial_ppu()),
{
    assert(0x80u8 & 0x80u8 != 0) by (bit_vector);
}

/// Law: under clocking alone, the vertical-blank flag is set exactly while
/// the scanline lies in 241..=260 and clear on scanlines 261 and 0..=240.
/// (A CPU read of PPUSTATUS clears the flag early; the discipline then
/// resumes at the next vertical-blank entry.)
pub proof fn lemma_clock_keeps_vblank_window(p: PpuModel)
    requires
        vblank_tracks_scanline(p),
    ensures
        vblank_tracks_scanline(post_clock(p)),
{
    lemma_vblank_bit(p.status);
}

/// Law: with the write latch clear, writing the high and then the low byte
/// to PPUADDR leaves the VRAM address equal to `(high << 8) | low`.
pub proof fn lemma_ppuaddr_high_then_low(p: PpuModel, high: u8, low: u8)
    requires
        !p.write_toggle,
    ensures
        post_reg_write(post_reg_write(p, 0x2006, high), 0x2006, low).vram_addr == (((
        high as u16) << 8) | (low as u16)),
{
}

/// The masks used for nametable and palette mirroring keep indices inside
/// the 2 KiB VRAM and the 32-byte palette RAM.
proof fn lemma_mirror_mask_bounds(a: u16)
    by (bit_vector)
    ensures
        a & 0x7FF < 2048,
        a & 0x1F < 32,
{
}

/// The picture processing unit.
pub struct PPU {
    /// $2000 PPUCTRL.
    pub ctrl: u8,
    /// $2001 PPUMASK.
    pub mask: u8,
    /// $2002 PPUSTATUS.
    pub status: u8,
    /// $2003 OAMADDR.
    pub oam_addr: u8,
    /// $2005 PPUSCROLL, first write.
    pub scroll_x: u8,
    /// $2005 PPUSCROLL, second write.
    pub scroll_y: u8,
    /// $2006 PPUADDR, first write.
    pub addr_hi: u8,
    /// $2006 PPUADDR, second write.
    pub addr_lo: u8,
    /// Read buffer behind $2007.
    pub data_buffer: u8,
    /// Latch shared by $2005 and $2006.
    pub write_toggle: bool,
    /// Current VRAM address `v`.
    pub vram_addr: u16,
    /// Dot within the scanline.
    pub cycle: u16,
    /// Current scanline.
    pub scanline: u16,
    /// Completed-frame counter.
    pub frame: u64,
    /// Nametable VRAM (2 KiB, mirrored over the nametable window).
    pub vram: [u8; 2048],
    /// Palette RAM (32 bytes, mirrored every 32 bytes).
    pub palette_ram: [u8; 32],
    /// Object attribute memory.
    pub oam: [u8; 256],
}

impl View for PPU {
    type V = PpuModel;

    open spec fn view(&self) -> PpuModel {
        PpuModel {
            ctrl: self.ctrl,
            mask: self.mask,
            status: self.status,
            oam_addr: self.oam_addr,
            scroll_x: self.scroll_x,
            scroll_y: self.scroll_y,
            addr_hi: self.addr_hi,
            addr_lo: self.addr_lo,
            data_buffer: self.data_buffer,
            write_toggle: self.write_toggle,
            vram_addr: self.vram_addr,
            cycle: self.cycle,
            scanline: self.scanline,
            frame: self.frame,
            vram: self.vram@,
            palette_ram: self.palette_ram@,
            oam: self.oam@,
        }
    }
}

impl PPU {
    /// A freshly powered PPU.
    pub fn new() -> (r: PPU)
        ensures
            r@ == initial_ppu(),
    {
        let r = PPU {
            ctrl: 0,
            mask: 0,
            status: STATUS_VBLANK,
            oam_addr: 0,
            scroll_x: 0,
            scroll_y: 0,
            addr_hi: 0,
            addr_lo: 0,
            data_buffer: 0,
            write_toggle: false,
            vram_addr: 0,
            cycle: 0,
            scanline: 241,
            frame: 0,
            vram: [0u8; 2048],
            palette_ram: [0u8; 32],
            oam: [0u8; 256],
        };
        proof {
            assert(r@.vram =~= initial_ppu().vram);
            assert(r@.palette_ram =~= initial_ppu().palette_ram);
            assert(r@.oam =~= initial_ppu().oam);
        }
        r
    }

    /// Read the byte at `address` of the PPU address space.
    pub(crate) fn read_vram(&self, address: u16) -> (r: u8)
        ensures
            r == vram_value(self@, address),
    {
        let a = address & 0x3FFF;
        proof {
            lemma_mirror_mask_bounds(a);
        }
        if a < 0x2000 {
            0
        } else if a < 0x3000 {
            self.vram[(a & 0x7FF) as usize]
        } else if a < 0x3F00 {
            self.vram[(a & 0x7FF) as usize]
        } else {
            self.palette_ram[(a & 0x1F) as usize]
        }
    }

    /// Store `value` at `address` of the PPU address space.
    fn write_vram(&mut self, address: u16, value: u8)
        ensures
            final(self)@ == post_vram_write(old(self)@, address, value),
    {
        let a = address & 0x3FFF;
        proof {
            lemma_mirror_mask_bounds(a);
        }
        if a < 0x2000 {
            // pattern tables are not backed in this core
        } else if a < 0x3000 {
            self.vram[(a & 0x7FF) as usize] = value;
        } else if a < 0x3F00 {
            self.vram[(a & 0x7FF) as usize] = value;
        } else {
            self.palette_ram[(a & 0x1F) as usize] = value;
        }
    }

    /// CPU-side read of the register at `address` (one of $2000..=$2007),
    /// applying the register's side effects.
    pub fn cpu_read(&mut self, address: u16) -> (r: u8)
        ensures
            r == reg_read_value(old(self)@, address),
            final(self)@ == post_reg_read(old(self)@, address),
    {
        if address == 0x2002 {
            let status = self.status;
            self.status = self.status & !STATUS_VBLANK;
            self.write_toggle = false;
            status
        } else if address == 0x2004 {
            self.oam[self.oam_addr as usize]
        } else if address == 0x2007 {
            let palette = self.vram_addr & 0x3FFF >= 0x3F00;
            let data = self.data_buffer;
            let source = if palette {
                self.vram_addr & 0x2FFF
            } else {
                self.vram_addr
            };
            let refill = self.read_vram(source);
            let live = self.read_vram(self.vram_addr);
            self.data_buffer = refill;
            let step: u16 = if self.ctrl & CTRL_VRAM_INCREMENT != 0 {
                32
            } else {
                1
            };
            self.vram_addr = self.vram_addr.wrapping_add(step);
            if palette {
                live
            } else {
                data
            }
        } else {
            0
        }
    }

    /// CPU-side write of `value` to the register at `address` (one of
    /// $2000..=$2007), applying the register's side effects.
    pub fn cpu_write(&mut self, address: u16, value: u8)
        ensures
            final(self)@ == post_reg_write(old(self)@, address, value),
    {
        if address == 0x2000 {
            self.ctrl = value;
        } else if address == 0x2001 {
            self.mask = value;
        } else if address == 0x2002 {
            // PPUSTATUS is read-only
        } else if address == 0x2003 {
            self.oam_addr = value;
        } else if address == 0x2004 {
            self.oam[self.oam_addr as usize] = value;
            self.oam_addr = self.oam_addr.wrapping_add(1);
        } else if address == 0x2005 {
            if !self.write_toggle {
                self.scroll_x = value;
            } else {
                self.scroll_y = value;
            }
            self.write_toggle = !self.write_toggle;
        } else if address == 0x2006 {
            if !self.write_toggle {
                self.addr_hi = value;
            } else {
                self.addr_lo = value;
                self.vram_addr = ((self.addr_hi as u16) << 8) | (value as u16);
            }
            self.write_toggle = !self.write_toggle;
        } else if address == 0x2007 {
            self.write_vram(self.vram_addr, value);
            let step: u16 = if self.ctrl & CTRL_VRAM_INCREMENT != 0 {
                32
            } else {
                1
            };
            self.vram_addr = self.vram_addr.wrapping_add(step);
        }
    }

    /// Advance the PPU by one dot.
    pub fn clock(&mut self)
        ensures
            final(self)@ == post_clock(old(self)@),
    {
        self.cycle = self.cycle.wrapping_add(1);
        if self.cycle >= 341 {
            self.cycle = 0;
            self.scanline = self.scanline.wrapping_add(1);
            if self.scanline >= 262 {
                self.scanline = 0;
                self.frame = self.frame.wrapping_add(1);
            }
            if self.scanline == 241 {
                self.status = self.status | STATUS_VBLANK;
            }
            if self.scanline == 261 {
                self.status = self.status & !(STATUS_VBLANK | STATUS_SPRITE_ZERO_HIT
                    | STATUS_SPRITE_OVERFLOW);
            }
        }
    }

    /// True when the PPU is asserting the NMI line.
    pub fn nmi_occurred(&self) -> (r: bool)
        ensures
            r == nmi_signal(self@),
    {
        self.ctrl & CTRL_NMI_ENABLE != 0 && self.status & STATUS_VBLANK != 0
    }
}

} // verus!
