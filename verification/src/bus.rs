//! The memory bus abstraction seen by the CPU.
//!
//! A bus exposes a 16-bit address space of bytes. Reads may carry side
//! effects (reading a PPU register mutates the PPU), so `read` takes the bus
//! by mutable reference; `peek` is the side-effect-free variant used by
//! diagnostics such as the instruction tracer.
//!
//! Each implementation gives itself a mathematical model through [`View`]
//! and describes `read`/`write` as pure transition functions on that model,
//! so that code generic over `Bus` can reason exactly about every access.

use vstd::prelude::*;

verus! {

/// A 16-bit address space of bytes with possibly side-effecting reads.
pub trait Bus: Sized + View {
    /// The byte that a read (or peek) at `address` returns.
    spec fn read_value(m: Self::V, address: u16) -> u8;

    /// The bus state after a read at `address` (reads may have side effects).
    spec fn post_read(m: Self::V, address: u16) -> Self::V;

    /// The bus state after writing `value` at `address`.
    spec fn post_write(m: Self::V, address: u16, value: u8) -> Self::V;

    /// Read one byte, applying any side effect of the access.
    fn read(&mut self, address: u16) -> (r: u8)
        ensures
            r == Self::read_value(old(self)@, address),
            final(self)@ == Self::post_read(old(self)@, address),
    ;

    /// Read one byte without any side effect.
    fn peek(&self, address: u16) -> (r: u8)
        ensures
            r == Self::read_value(self@, address),
    ;

    /// Write one byte.
    fn write(&mut self, address: u16, value: u8)
        ensures
            final(self)@ == Self::post_write(old(self)@, address, value),
    ;

    /// Read a little-endian 16-bit value from `address` and `address + 1`
    /// (wrapping at the top of the address space; the indirect-`JMP`
    /// page-wrap quirk is handled in the CPU's address resolution instead).
    fn read16(&mut self, address: u16) -> (r: u16)
        ensures
            ({
                let lo = Self::read_value(old(self)@, address);
                let hi = Self::read_value(
                    Self::post_read(old(self)@, address),
                    wrap16(address + 1),
                );
                r == (((hi as u16) << 8) | (lo as u16))
            }),
            final(self)@ == Self::post_read(
                Self::post_read(old(self)@, address),
                wrap16(address + 1),
            ),
    {
        let lo = self.read(address);
        let hi = self.read(address.wrapping_add(1));
        ((hi as u16) << 8) | (lo as u16)
    }
}

/// The 16-bit value that `read16` returns: low byte first, then the high
/// byte from the successor address, observed after the first read's side
/// effect.
pub open spec fn read16_value<B: Bus>(m: B::V, address: u16) -> u16 {
    let lo = B::read_value(m, address);
    let hi = B::read_value(B::post_read(m, address), wrap16(address + 1));
    ((hi as u16) << 8) | (lo as u16)
}

/// The bus state after the two reads of `read16`.
pub open spec fn post_read16<B: Bus>(m: B::V, address: u16) -> B::V {
    B::post_read(B::post_read(m, address), wrap16(address + 1))
}

/// Reduction of a mathematical integer into the 16-bit address space.
pub open spec fn wrap16(v: int) -> u16 {
    (v % 0x10000) as u16
}

/// Reduction of a mathematical integer into a byte.
pub open spec fn wrap8(v: int) -> u8 {
    (v % 0x100) as u8
}

/// Reduction of a mathematical integer into 64 bits.
pub open spec fn wrap64(v: int) -> u64 {
    (v % 0x1_0000_0000_0000_0000) as u64
}

/// A flat 64 KiB memory with no side effects: every address is backed by its
/// own byte. Useful for running bare programs without a cartridge or PPU.
pub struct FlatRam {
    pub mem: [u8; 65536],
}

impl View for FlatRam {
    type V = Seq<u8>;

    open spec fn view(&self) -> Seq<u8> {
        self.mem@
    }
}

impl FlatRam {
    /// A flat memory with every byte zero.
    pub fn new() -> (r: FlatRam)
        ensures
            r@.len() == 65536,
            forall|i: int| 0 <= i < 65536 ==> r@[i] == 0u8,
    {
        FlatRam { mem: [0u8; 65536] }
    }
}

/// Law: on the flat bus a read returns the byte the last write at the
/// same address stored ...
pub proof fn lemma_flat_write_then_read(m: Seq<u8>, address: u16, value: u8)
    requires
        m.len() == 65536,
    ensures
        FlatRam::read_value(FlatRam::post_write(m, address, value), address) == value,
{
}

/// ... and a write elsewhere leaves it alone.
pub proof fn lemma_flat_other_write_preserves_read(
    m: Seq<u8>,
    read_addr: u16,
    write_addr: u16,
    value: u8,
)
    requires
        m.len() == 65536,
        read_addr != write_addr,
    ensures
        FlatRam::read_value(FlatRam::post_write(m, write_addr, value), read_addr)
            == FlatRam::read_value(m, read_addr),
{
}

impl Bus for FlatRam {
    open spec fn read_value(m: Seq<u8>, address: u16) -> u8 {
        m[address as int]
    }

    open spec fn post_read(m: Seq<u8>, address: u16) -> Seq<u8> {
        m
    }

    open spec fn post_write(m: Seq<u8>, address: u16, value: u8) -> Seq<u8> {
        m.update(address as int, value)
    }

    fn read(&mut self, address: u16) -> (r: u8) {
        self.mem[address as usize]
    }

    fn peek(&self, address: u16) -> (r: u8) {
        self.mem[address as usize]
    }

    fn write(&mut self, address: u16, value: u8) {
        self.mem[address as usize] = value;
    }
}

} // verus!
