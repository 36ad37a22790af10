//! The composite NES bus: 2 KiB of internal RAM mirrored through $1FFF,
//! the eight PPU registers mirrored through $3FFF, and the cartridge above
//! $6000. Reads in the PPU window carry the registers' side effects.

use vstd::prelude::*;
use crate::bus::Bus;
use crate::cartridge::{cart_post_write, cart_read_value, Cartridge, CartridgeModel};
use crate::ppu::{
    initial_ppu, nmi_signal, post_clock, post_reg_read, post_reg_write, reg_read_value, PpuModel,
    PPU,
};

verus! {

/// The mathematical model of the NES bus: internal RAM, the cartridge, and
/// the PPU.
pub struct NesBusModel {
    /// 2 KiB internal CPU RAM.
    pub ram: Seq<u8>,
    /// The cartridge.
    pub cart: CartridgeModel,
    /// The picture processing unit.
    pub ppu: PpuModel,
}

/// The PPU register an address in the mirror window $2000–$3FFF reaches.
pub open spec fn ppu_register(address: u16) -> u16 {
    (0x2000 | (address & 0x0007)) as u16
}

/// The byte a read of `address` returns: internal RAM below $2000
/// (mirrored every 2 KiB), the PPU registers through $3FFF (mirrored every
/// 8 bytes), the cartridge from $6000 up, and zero in the unmapped hole.
pub open spec fn nes_read_value(m: NesBusModel, address: u16) -> u8 {
    if address < 0x2000 {
        m.ram[(address & 0x7FF) as int]
    } else if address < 0x4000 {
        reg_read_value(m.ppu, ppu_register(address))
    } else if address >= 0x6000 {
        cart_read_value(m.cart, address)
    } else {
        0u8
    }
}

/// The bus state after a read of `address`: only reads in the PPU window
/// have side effects.
pub open spec fn nes_post_read(m: NesBusModel, address: u16) -> NesBusModel {
    if 0x2000 <= address && address < 0x4000 {
        NesBusModel { ppu: post_reg_read(m.ppu, ppu_register(address)), ..m }
    } else {
        m
    }
}

/// The bus state after writing `value` at `address`: stores to internal
/// RAM and cartridge RAM stick, stores in the PPU window drive the
/// registers, and stores to the unmapped hole are dropped.
pub open spec fn nes_post_write(m: NesBusModel, address: u16, value: u8) -> NesBusModel {
    if address < 0x2000 {
        NesBusModel { ram: m.ram.update((address & 0x7FF) as int, value), ..m }
    } else if address < 0x4000 {
        NesBusModel { ppu: post_reg_write(m.ppu, ppu_register(address), value), ..m }
    } else if address >= 0x6000 {
        NesBusModel { cart: cart_post_write(m.cart, address, value), ..m }
    } else {
        m
    }
}

/// Validity of a bus model: the two fixed memories have their fixed sizes.
pub open spec fn nes_bus_well_formed(m: NesBusModel) -> bool {
    m.ram.len() == 2048 && m.cart.ram.len() == 0x2000
}

/// Whether two addresses reach the same writable cell: the same mirrored
/// RAM cell, or the same cartridge RAM byte.
pub open spec fn same_backing_cell(a1: u16, a2: u16) -> bool {
    ||| (a1 < 0x2000 && a2 < 0x2000 && a1 & 0x7FF == a2 & 0x7FF)
    ||| (0x6000 <= a1 && a1 < 0x8000 && a1 == a2)
}

/// Law: outside the PPU window, a read observes the value a write at the
/// same address just stored, for both writable regions of the bus
/// (internal RAM and cartridge RAM).
pub proof fn lemma_write_then_read(m: NesBusModel, address: u16, value: u8)
    requires
        nes_bus_well_formed(m),
        address < 0x2000 || (0x6000 <= address && address < 0x8000),
    ensures
        nes_read_value(nes_post_write(m, address, value), address) == value,
{
    if address < 0x2000 {
        assert(address & 0x7FF < 2048) by (bit_vector);
    }
}

/// Law: a write to an address that does not reach the same backing cell —
/// including any store in the PPU window or to the unmapped hole — leaves
/// the value read outside the PPU window unchanged. Together with
/// [`lemma_write_then_read`] this says that after any sequence of writes,
/// a read outside the PPU window returns the last value written to its
/// cell.
pub proof fn lemma_unrelated_write_preserves_read(
    m: NesBusModel,
    read_addr: u16,
    write_addr: u16,
    value: u8,
)
    requires
        nes_bus_well_formed(m),
        read_addr < 0x2000 || read_addr >= 0x4000,
        !same_backing_cell(read_addr, write_addr),
    ensures
        nes_read_value(nes_post_write(m, write_addr, value), read_addr) == nes_read_value(
            m,
            read_addr,
        ),
{
    if read_addr < 0x2000 && write_addr < 0x2000 {
        assert(read_addr & 0x7FF < 2048 && write_addr & 0x7FF < 2048) by (bit_vector);
    }
}

/// The composite NES bus.
pub struct NesBus {
    /// 2 KiB internal CPU RAM.
    pub cpu_vram: [u8; 2048],
    /// The cartridge.
    pub cartridge: Cartridge,
    /// The picture processing unit.
    pub ppu: PPU,
}

impl View for NesBus {
    type V = NesBusModel;

    open spec fn view(&self) -> NesBusModel {
        NesBusModel { ram: self.cpu_vram@, cart: self.cartridge@, ppu: self.ppu@ }
    }
}

impl NesBus {
    /// A bus over the given cartridge, with zeroed RAM and a freshly
    /// powered PPU.
    pub fn new(cartridge: Cartridge) -> (r: NesBus)
        ensures
            r@.ram == Seq::new(2048, |i: int| 0u8),
            r@.cart == cartridge@,
            r@.ppu == initial_ppu(),
    {
        let r = NesBus { cpu_vram: [0u8; 2048], cartridge, ppu: PPU::new() };
        proof {
            assert(r@.ram =~= Seq::new(2048, |i: int| 0u8));
        }
        r
    }

    /// Advance the PPU by one dot.
    pub fn step_ppu(&mut self)
        ensures
            final(self)@ == (NesBusModel { ppu: post_clock(old(self)@.ppu), ..old(self)@ }),
    {
        self.ppu.clock();
    }

    /// The PPU's current scanline.
    pub fn get_ppu_scanline(&self) -> (r: u16)
        ensures
            r == self@.ppu.scanline,
    {
        self.ppu.scanline
    }

    /// The PPU's current dot within the scanline.
    pub fn get_ppu_cycle(&self) -> (r: u16)
        ensures
            r == self@.ppu.cycle,
    {
        self.ppu.cycle
    }

    /// True when the PPU is asserting the NMI line.
    pub fn should_generate_nmi(&self) -> (r: bool)
        ensures
            r == nmi_signal(self@.ppu),
    {
        self.ppu.nmi_occurred()
    }
}

impl Bus for NesBus {
    open spec fn read_value(m: NesBusModel, address: u16) -> u8 {
        nes_read_value(m, address)
    }

    open spec fn post_read(m: NesBusModel, address: u16) -> NesBusModel {
        nes_post_read(m, address)
    }

    open spec fn post_write(m: NesBusModel, address: u16, value: u8) -> NesBusModel {
        nes_post_write(m, address, value)
    }

    fn read(&mut self, address: u16) -> (r: u8) {
        if address < 0x2000 {
            proof {
                assert(address & 0x7FF < 2048) by (bit_vector);
            }
            self.cpu_vram[(address & 0x7FF) as usize]
        } else if address < 0x4000 {
            self.ppu.cpu_read(0x2000 | (address & 0x0007))
        } else if address >= 0x6000 {
            self.cartridge.read(address)
        } else {
            0
        }
    }

    fn peek(&self, address: u16) -> (r: u8) {
        if address < 0x2000 {
            proof {
                assert(address & 0x7FF < 2048) by (bit_vector);
            }
            self.cpu_vram[(address & 0x7FF) as usize]
        } else if address < 0x4000 {
            let reg = 0x2000 | (address & 0x0007);
            if reg == 0x2002 {
                self.ppu.status
            } else if reg == 0x2004 {
                self.ppu.oam[self.ppu.oam_addr as usize]
            } else if reg == 0x2007 {
                let palette = self.ppu.vram_addr & 0x3FFF >= 0x3F00;
                if palette {
                    self.ppu.read_vram(self.ppu.vram_addr)
                } else {
                    self.ppu.data_buffer
                }
            } else {
                0
            }
        } else if address >= 0x6000 {
            self.cartridge.read(address)
        } else {
            0
        }
    }

    fn write(&mut self, address: u16, value: u8) {
        if address < 0x2000 {
            proof {
                assert(address & 0x7FF < 2048) by (bit_vector);
            }
            self.cpu_vram[(address & 0x7FF) as usize] = value;
        } else if address < 0x4000 {
            self.ppu.cpu_write(0x2000 | (address & 0x0007), value);
        } else if address >= 0x6000 {
            self.cartridge.write(address, value);
        }
    }
}

} // verus!
