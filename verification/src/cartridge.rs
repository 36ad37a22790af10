//! NROM cartridge: PRG-ROM parsed out of an iNES image, plus 8 KiB of
//! cartridge RAM. A 16 KiB ROM is mirrored into both halves of the
//! $8000–$FFFF window; a larger ROM occupies the window directly.

use vstd::prelude::*;

verus! {

/// Why an iNES image was rejected.
#[derive(Debug, Clone, Copy, PartialEq, Eq, Structural)]
pub enum CartridgeError {
    /// The image is shorter than the 16-byte iNES header.
    HeaderTooShort,
    /// The PRG-ROM window computed from the header runs past the end of
    /// the image.
    RomTruncated,
}

/// The mathematical model of a cartridge: the bytes of its RAM and of its
/// PRG-ROM.
pub struct CartridgeModel {
    /// 8 KiB of cartridge RAM at $6000–$7FFF.
    pub ram: Seq<u8>,
    /// PRG-ROM mapped at $8000–$FFFF.
    pub rom: Seq<u8>,
}

/// Whether the header flags announce a 512-byte trainer between header and
/// PRG data (byte 6, bit 2).
pub open spec fn trainer_present(image: Seq<u8>) -> bool {
    image[6] & 0x04 != 0
}

/// Offset of the first PRG-ROM byte in the image.
pub open spec fn prg_start(image: Seq<u8>) -> int {
    16 + if trainer_present(image) {
        512int
    } else {
        0int
    }
}

/// Size of the PRG-ROM in bytes: header byte 4 counts 16 KiB units.
pub open spec fn prg_size(image: Seq<u8>) -> int {
    image[4] * 0x4000
}

/// Whether the image is long enough for its header and the PRG-ROM window
/// the header announces.
pub open spec fn image_well_formed(image: Seq<u8>) -> bool {
    image.len() >= 16 && prg_start(image) + prg_size(image) <= image.len()
}

/// The byte a cartridge read at `address` returns: cartridge RAM in
/// $6000–$7FFF; PRG-ROM in $8000–$FFFF, with a single 16 KiB bank mirrored
/// across the window; zero for addresses the cartridge does not back.
pub open spec fn cart_read_value(c: CartridgeModel, address: u16) -> u8 {
    if 0x6000 <= address && address < 0x8000 {
        c.ram[address - 0x6000]
    } else if address >= 0x8000 {
        let offset = address - 0x8000;
        if c.rom.len() == 0x4000 {
            c.rom[offset % 0x4000]
        } else if offset < c.rom.len() {
            c.rom[offset]
        } else {
            0u8
        }
    } else {
        0u8
    }
}

/// The cartridge state after a write of `value` at `address`: stores to
/// cartridge RAM stick; stores to the ROM window and to unmapped addresses
/// are dropped.
pub open spec fn cart_post_write(c: CartridgeModel, address: u16, value: u8) -> CartridgeModel {
    if 0x6000 <= address && address < 0x8000 {
        CartridgeModel { ram: c.ram.update(address - 0x6000, value), ..c }
    } else {
        c
    }
}

/// An NROM cartridge.
pub struct Cartridge {
    /// 8 KiB of cartridge RAM.
    pub cartridge_ram: [u8; 0x2000],
    /// The PRG-ROM bytes taken from the image.
    pub prg_rom: Vec<u8>,
}

impl View for Cartridge {
    type V = CartridgeModel;

    open spec fn view(&self) -> CartridgeModel {
        CartridgeModel { ram: self.cartridge_ram@, rom: self.prg_rom@ }
    }
}

impl Cartridge {
    /// Parse a cartridge out of an iNES image: read the PRG-ROM size from
    /// header byte 4, skip a trainer when header byte 6 announces one, and
    /// copy the PRG-ROM window. Rejects an image shorter than its header
    /// or one whose PRG-ROM window runs past its end.
    pub fn from_rom(buffer: &[u8]) -> (r: Result<Cartridge, CartridgeError>)
        ensures
            buffer@.len() < 16 ==> r == Result::<Cartridge, CartridgeError>::Err(
                CartridgeError::HeaderTooShort,
            ),
            buffer@.len() >= 16 && !image_well_formed(buffer@) ==> r == Result::<
                Cartridge,
                CartridgeError,
            >::Err(CartridgeError::RomTruncated),
            image_well_formed(buffer@) ==> r is Ok,
            r is Ok ==> {
                &&& image_well_formed(buffer@)
                &&& r->Ok_0@.rom == buffer@.subrange(
                    prg_start(buffer@),
                    prg_start(buffer@) + prg_size(buffer@),
                )
                &&& r->Ok_0@.ram == Seq::new(0x2000, |i: int| 0u8)
            },
    {
        if buffer.len() < 16 {
            return Err(CartridgeError::HeaderTooShort);
        }
        let skip_trainer = buffer[6] & 0x04 != 0;
        let rom_start: usize = if skip_trainer {
            528
        } else {
            16
        };
        let rom_size: usize = (buffer[4] as usize) * 0x4000;
        if rom_size > buffer.len() || rom_start > buffer.len() - rom_size {
            return Err(CartridgeError::RomTruncated);
        }
        let mut prg_rom: Vec<u8> = Vec::with_capacity(rom_size);
        let mut i: usize = 0;
        while i < rom_size
            invariant
                i <= rom_size,
                rom_start + rom_size <= buffer@.len(),
                rom_start == prg_start(buffer@),
                rom_size == prg_size(buffer@),
                prg_rom@ == buffer@.subrange(rom_start as int, rom_start + i),
            decreases rom_size - i,
        {
            prg_rom.push(buffer[rom_start + i]);
            proof {
                assert(prg_rom@ =~= buffer@.subrange(rom_start as int, rom_start + i + 1));
            }
            i = i + 1;
        }
        let r = Cartridge { cartridge_ram: [0u8; 0x2000], prg_rom };
        proof {
            assert(r@.ram =~= Seq::new(0x2000, |i: int| 0u8));
        }
        Ok(r)
    }

    /// Read the byte the cartridge backs at `address`; addresses outside
    /// the cartridge's regions read as zero.
    pub fn read(&self, address: u16) -> (r: u8)
        ensures
            r == cart_read_value(self@, address),
    {
        if 0x6000 <= address && address < 0x8000 {
            self.cartridge_ram[(address - 0x6000) as usize]
        } else if address >= 0x8000 {
            let offset: usize = (address - 0x8000) as usize;
            if self.prg_rom.len() == 0x4000 {
                self.prg_rom[offset % 0x4000]
            } else if offset < self.prg_rom.len() {
                self.prg_rom[offset]
            } else {
                0
            }
        } else {
            0
        }
    }

    /// Store `value` at `address`; stores outside cartridge RAM (to the
    /// ROM window, or to addresses the cartridge does not back) are
    /// dropped.
    pub fn write(&mut self, address: u16, value: u8)
        ensures
            final(self)@ == cart_post_write(old(self)@, address, value),
    {
        if 0x6000 <= address && address < 0x8000 {
            self.cartridge_ram[(address - 0x6000) as usize] = value;
        }
    }
}

} // verus!
