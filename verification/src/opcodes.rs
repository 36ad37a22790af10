//! The 256-slot opcode table of the 6502: for every opcode byte, its
//! mnemonic, addressing mode and base cycle cost. Instruction length is a
//! function of the addressing mode alone. Taken-branch and page-crossing
//! cycles are added by the branch instructions themselves.

use vstd::prelude::*;

verus! {

/// Instruction mnemonics, official and unofficial.
#[derive(Debug, Clone, Copy, PartialEq, Eq, Structural)]
pub enum Mnemonic {
    /// `ADC`.
    Adc,
    /// `AHX`.
    Ahx,
    /// `ALR`.
    Alr,
    /// `ANC`.
    Anc,
    /// `AND`.
    And,
    /// `ARR`.
    Arr,
    /// `ASL`.
    Asl,
    /// `AXS`.
    Axs,
    /// `BCC`.
    Bcc,
    /// `BCS`.
    Bcs,
    /// `BEQ`.
    Beq,
    /// `BIT`.
    Bit,
    /// `BMI`.
    Bmi,
    /// `BNE`.
    Bne,
    /// `BPL`.
    Bpl,
    /// `BRK`.
    Brk,
    /// `BVC`.
    Bvc,
    /// `BVS`.
    Bvs,
    /// `CLC`.
    Clc,
    /// `CLD`.
    Cld,
    /// `CLI`.
    Cli,
    /// `CLV`.
    Clv,
    /// `CMP`.
    Cmp,
    /// `CPX`.
    Cpx,
    /// `CPY`.
    Cpy,
    /// `DCP`.
    Dcp,
    /// `DEC`.
    Dec,
    /// `DEX`.
    Dex,
    /// `DEY`.
    Dey,
    /// `EOR`.
    Eor,
    /// `INC`.
    Inc,
    /// `INX`.
    Inx,
    /// `INY`.
    Iny,
    /// `ISC`.
    Isc,
    /// `JAM`.
    Jam,
    /// `JMP`.
    Jmp,
    /// `JSR`.
    Jsr,
    /// `LAS`.
    Las,
    /// `LAX`.
    Lax,
    /// `LDA`.
    Lda,
    /// `LDX`.
    Ldx,
    /// `LDY`.
    Ldy,
    /// `LSR`.
    Lsr,
    /// `NOP`.
    Nop,
    /// `ORA`.
    Ora,
    /// `PHA`.
    Pha,
    /// `PHP`.
    Php,
    /// `PLA`.
    Pla,
    /// `PLP`.
    Plp,
    /// `RLA`.
    Rla,
    /// `ROL`.
    Rol,
    /// `ROR`.
    Ror,
    /// `RRA`.
    Rra,
    /// `RTI`.
    Rti,
    /// `RTS`.
    Rts,
    /// `SAX`.
    Sax,
    /// `SBC`.
    Sbc,
    /// `SEC`.
    Sec,
    /// `SED`.
    Sed,
    /// `SEI`.
    Sei,
    /// `SHX`.
    Shx,
    /// `SHY`.
    Shy,
    /// `SLO`.
    Slo,
    /// `SRE`.
    Sre,
    /// `STA`.
    Sta,
    /// `STX`.
    Stx,
    /// `STY`.
    Sty,
    /// `TAS`.
    Tas,
    /// `TAX`.
    Tax,
    /// `TAY`.
    Tay,
    /// `TSX`.
    Tsx,
    /// `TXA`.
    Txa,
    /// `TXS`.
    Txs,
    /// `TYA`.
    Tya,
    /// `XAA`.
    Xaa,
}

/// The addressing mode an opcode resolves its operand with.
#[derive(Debug, Clone, Copy, PartialEq, Eq, Structural)]
pub enum AddressingMode {
    /// `Absolute`.
    Absolute,
    /// `AbsoluteX`.
    AbsoluteX,
    /// `AbsoluteY`.
    AbsoluteY,
    /// `Immediate`.
    Immediate,
    /// `Implied`.
    Implied,
    /// `Indirect`.
    Indirect,
    /// `IndirectX`.
    IndirectX,
    /// `IndirectY`.
    IndirectY,
    /// `Relative`.
    Relative,
    /// `ZeroPage`.
    ZeroPage,
    /// `ZeroPageX`.
    ZeroPageX,
    /// `ZeroPageY`.
    ZeroPageY,
}

/// A resolved operand: none, a raw branch displacement, or an effective
/// 16-bit address (immediates resolve to the address of the operand byte).
#[derive(Debug, Clone, Copy, PartialEq, Eq, Structural)]
pub enum Address {
    /// The instruction takes no operand (or targets the accumulator).
    Implied,
    /// A raw signed 8-bit branch displacement.
    Relative(u8),
    /// A resolved effective address.
    Absolute(u16),
}

/// One slot of the opcode table.
#[derive(Debug, Clone, Copy, PartialEq, Eq, Structural)]
pub struct OpInfo {
    /// The instruction the opcode names.
    pub mnemonic: Mnemonic,
    /// How its operand is resolved.
    pub mode: AddressingMode,
    /// Base cycle cost (branches add their own taken and page-cross
    /// cycles).
    pub cycles: u8,
}

/// Total instruction length in bytes — the opcode itself plus its operand
/// — determined by the addressing mode alone.
pub open spec fn instruction_len(mode: AddressingMode) -> u16 {
    match mode {
        AddressingMode::Implied => 1,
        AddressingMode::Immediate => 2,
        AddressingMode::ZeroPage => 2,
        AddressingMode::ZeroPageX => 2,
        AddressingMode::ZeroPageY => 2,
        AddressingMode::IndirectX => 2,
        AddressingMode::IndirectY => 2,
        AddressingMode::Relative => 2,
        AddressingMode::Absolute => 3,
        AddressingMode::AbsoluteX => 3,
        AddressingMode::AbsoluteY => 3,
        AddressingMode::Indirect => 3,
    }
}

/// Executable twin of [`instruction_len`].
pub fn opcode_len(mode: AddressingMode) -> (r: u16)
    ensures
        r == instruction_len(mode),
{
    match mode {
        AddressingMode::Implied => 1,
        AddressingMode::Immediate => 2,
        AddressingMode::ZeroPage => 2,
        AddressingMode::ZeroPageX => 2,
        AddressingMode::ZeroPageY => 2,
        AddressingMode::IndirectX => 2,
        AddressingMode::IndirectY => 2,
        AddressingMode::Relative => 2,
        AddressingMode::Absolute => 3,
        AddressingMode::AbsoluteX => 3,
        AddressingMode::AbsoluteY => 3,
        AddressingMode::Indirect => 3,
    }
}

/// Law: every opcode's length lies in 1..=3; the fetch logic advances the
/// program counter by exactly this many bytes before the instruction's
/// handler runs.
pub proof fn lemma_instruction_len_range(op: u8)
    ensures
        1 <= instruction_len(op_entry(op).mode) <= 3,
{
    reveal(op_entry);
}

/// The unstable unofficial opcodes this core declines to execute, and the
/// halt opcodes; running one is reported to the caller as an error rather
/// than silently skipped.
pub open spec fn mnemonic_implemented(m: Mnemonic) -> bool {
    match m {
        Mnemonic::Ahx => false,
        Mnemonic::Arr => false,
        Mnemonic::Axs => false,
        Mnemonic::Jam => false,
        Mnemonic::Las => false,
        Mnemonic::Shx => false,
        Mnemonic::Shy => false,
        Mnemonic::Tas => false,
        Mnemonic::Xaa => false,
        _ => true,
    }
}

/// Executable twin of [`mnemonic_implemented`].
pub fn opcode_implemented(m: Mnemonic) -> (r: bool)
    ensures
        r == mnemonic_implemented(m),
{
    match m {
        Mnemonic::Ahx => false,
        Mnemonic::Arr => false,
        Mnemonic::Axs => false,
        Mnemonic::Jam => false,
        Mnemonic::Las => false,
        Mnemonic::Shx => false,
        Mnemonic::Shy => false,
        Mnemonic::Tas => false,
        Mnemonic::Xaa => false,
        _ => true,
    }
}

/// The table slot for `op`.
#[verifier::opaque]
pub open spec fn op_entry(op: u8) -> OpInfo {
    match op {
        0x00 => OpInfo { mnemonic: Mnemonic::Brk, mode: AddressingMode::Implied, cycles: 7 },
        0x01 => OpInfo { mnemonic: Mnemonic::Ora, mode: AddressingMode::IndirectX, cycles: 6 },
        0x02 => OpInfo { mnemonic: Mnemonic::Jam, mode: AddressingMode::Implied, cycles: 2 },
        0x03 => OpInfo { mnemonic: Mnemonic::Slo, mode: AddressingMode::IndirectX, cycles: 8 },
        0x04 => OpInfo { mnemonic: Mnemonic::Nop, mode: AddressingMode::ZeroPage, cycles: 3 },
        0x05 => OpInfo { mnemonic: Mnemonic::Ora, mode: AddressingMode::ZeroPage, cycles: 3 },
        0x06 => OpInfo { mnemonic: Mnemonic::Asl, mode: AddressingMode::ZeroPage, cycles: 5 },
        0x07 => OpInfo { mnemonic: Mnemonic::Slo, mode: AddressingMode::ZeroPage, cycles: 5 },
        0x08 => OpInfo { mnemonic: Mnemonic::Php, mode: AddressingMode::Implied, cycles: 3 },
        0x09 => OpInfo { mnemonic: Mnemonic::Ora, mode: AddressingMode::Immediate, cycles: 2 },
        0x0A => OpInfo { mnemonic: Mnemonic::Asl, mode: AddressingMode::Implied, cycles: 2 },
        0x0B => OpInfo { mnemonic: Mnemonic::Anc, mode: AddressingMode::Immediate, cycles: 2 },
        0x0C => OpInfo { mnemonic: Mnemonic::Nop, mode: AddressingMode::Absolute, cycles: 4 },
        0x0D => OpInfo { mnemonic: Mnemonic::Ora, mode: AddressingMode::Absolute, cycles: 4 },
        0x0E => OpInfo { mnemonic: Mnemonic::Asl, mode: AddressingMode::Absolute, cycles: 6 },
        0x0F => OpInfo { mnemonic: Mnemonic::Slo, mode: AddressingMode::Absolute, cycles: 6 },
        0x10 => OpInfo { mnemonic: Mnemonic::Bpl, mode: AddressingMode::Relative, cycles: 2 },
        0x11 => OpInfo { mnemonic: Mnemonic::Ora, mode: AddressingMode::IndirectY, cycles: 5 },
        0x12 => OpInfo { mnemonic: Mnemonic::Jam, mode: AddressingMode::Implied, cycles: 2 },
        0x13 => OpInfo { mnemonic: Mnemonic::Slo, mode: AddressingMode::IndirectY, cycles: 8 },
        0x14 => OpInfo { mnemonic: Mnemonic::Nop, mode: AddressingMode::ZeroPageX, cycles: 4 },
        0x15 => OpInfo { mnemonic: Mnemonic::Ora, mode: AddressingMode::ZeroPageX, cycles: 4 },
        0x16 => OpInfo { mnemonic: Mnemonic::Asl, mode: AddressingMode::ZeroPageX, cycles: 6 },
        0x17 => OpInfo { mnemonic: Mnemonic::Slo, mode: AddressingMode::ZeroPageX, cycles: 6 },
        0x18 => OpInfo { mnemonic: Mnemonic::Clc, mode: AddressingMode::Implied, cycles: 2 },
        0x19 => OpInfo { mnemonic: Mnemonic::Ora, mode: AddressingMode::AbsoluteY, cycles: 4 },
        0x1A => OpInfo { mnemonic: Mnemonic::Nop, mode: AddressingMode::Implied, cycles: 2 },
        0x1B => OpInfo { mnemonic: Mnemonic::Slo, mode: AddressingMode::AbsoluteY, cycles: 7 },
        0x1C => OpInfo { mnemonic: Mnemonic::Nop, mode: AddressingMode::AbsoluteX, cycles: 4 },
        0x1D => OpInfo { mnemonic: Mnemonic::Ora, mode: AddressingMode::AbsoluteX, cycles: 4 },
        0x1E => OpInfo { mnemonic: Mnemonic::Asl, mode: AddressingMode::AbsoluteX, cycles: 7 },
        0x1F => OpInfo { mnemonic: Mnemonic::Slo, mode: AddressingMode::AbsoluteX, cycles: 7 },
        0x20 => OpInfo { mnemonic: Mnemonic::Jsr, mode: AddressingMode::Absolute, cycles: 6 },
        0x21 => OpInfo { mnemonic: Mnemonic::And, mode: AddressingMode::IndirectX, cycles: 6 },
        0x22 => OpInfo { mnemonic: Mnemonic::Jam, mode: AddressingMode::Implied, cycles: 2 },
        0x23 => OpInfo { mnemonic: Mnemonic::Rla, mode: AddressingMode::IndirectX, cycles: 8 },
        0x24 => OpInfo { mnemonic: Mnemonic::Bit, mode: AddressingMode::ZeroPage, cycles: 3 },
        0x25 => OpInfo { mnemonic: Mnemonic::And, mode: AddressingMode::ZeroPage, cycles: 3 },
        0x26 => OpInfo { mnemonic: Mnemonic::Rol, mode: AddressingMode::ZeroPage, cycles: 5 },
        0x27 => OpInfo { mnemonic: Mnemonic::Rla, mode: AddressingMode::ZeroPage, cycles: 5 },
        0x28 => OpInfo { mnemonic: Mnemonic::Plp, mode: AddressingMode::Implied, cycles: 4 },
        0x29 => OpInfo { mnemonic: Mnemonic::And, mode: AddressingMode::Immediate, cycles: 2 },
        0x2A => OpInfo { mnemonic: Mnemonic::Rol, mode: AddressingMode::Implied, cycles: 2 },
        0x2B => OpInfo { mnemonic: Mnemonic::Anc, mode: AddressingMode::Immediate, cycles: 2 },
        0x2C => OpInfo { mnemonic: Mnemonic::Bit, mode: AddressingMode::Absolute, cycles: 4 },
        0x2D => OpInfo { mnemonic: Mnemonic::And, mode: AddressingMode::Absolute, cycles: 4 },
        0x2E => OpInfo { mnemonic: Mnemonic::Rol, mode: AddressingMode::Absolute, cycles: 6 },
        0x2F => OpInfo { mnemonic: Mnemonic::Rla, mode: AddressingMode::Absolute, cycles: 6 },
        0x30 => OpInfo { mnemonic: Mnemonic::Bmi, mode: AddressingMode::Relative, cycles: 2 },
        0x31 => OpInfo { mnemonic: Mnemonic::And, mode: AddressingMode::IndirectY, cycles: 5 },
        0x32 => OpInfo { mnemonic: Mnemonic::Jam, mode: AddressingMode::Implied, cycles: 2 },
        0x33 => OpInfo { mnemonic: Mnemonic::Rla, mode: AddressingMode::IndirectY, cycles: 8 },
        0x34 => OpInfo { mnemonic: Mnemonic::Nop, mode: AddressingMode::ZeroPageX, cycles: 4 },
        0x35 => OpInfo { mnemonic: Mnemonic::And, mode: AddressingMode::ZeroPageX, cycles: 4 },
        0x36 => OpInfo { mnemonic: Mnemonic::Rol, mode: AddressingMode::ZeroPageX, cycles: 6 },
        0x37 => OpInfo { mnemonic: Mnemonic::Rla, mode: AddressingMode::ZeroPageX, cycles: 6 },
        0x38 => OpInfo { mnemonic: Mnemonic::Sec, mode: AddressingMode::Implied, cycles: 2 },
        0x39 => OpInfo { mnemonic: Mnemonic::And, mode: AddressingMode::AbsoluteY, cycles: 4 },
        0x3A => OpInfo { mnemonic: Mnemonic::Nop, mode: AddressingMode::Implied, cycles: 2 },
        0x3B => OpInfo { mnemonic: Mnemonic::Rla, mode: AddressingMode::AbsoluteY, cycles: 7 },
        0x3C => OpInfo { mnemonic: Mnemonic::Nop, mode: AddressingMode::AbsoluteX, cycles: 4 },
        0x3D => OpInfo { mnemonic: Mnemonic::And, mode: AddressingMode::AbsoluteX, cycles: 4 },
        0x3E => OpInfo { mnemonic: Mnemonic::Rol, mode: AddressingMode::AbsoluteX, cycles: 7 },
        0x3F => OpInfo { mnemonic: Mnemonic::Rla, mode: AddressingMode::AbsoluteX, cycles: 7 },
        0x40 => OpInfo { mnemonic: Mnemonic::Rti, mode: AddressingMode::Implied, cycles: 6 },
        0x41 => OpInfo { mnemonic: Mnemonic::Eor, mode: AddressingMode::IndirectX, cycles: 6 },
        0x42 => OpInfo { mnemonic: Mnemonic::Jam, mode: AddressingMode::Implied, cycles: 2 },
        0x43 => OpInfo { mnemonic: Mnemonic::Sre, mode: AddressingMode::IndirectX, cycles: 8 },
        0x44 => OpInfo { mnemonic: Mnemonic::Nop, mode: AddressingMode::ZeroPage, cycles: 3 },
        0x45 => OpInfo { mnemonic: Mnemonic::Eor, mode: AddressingMode::ZeroPage, cycles: 3 },
        0x46 => OpInfo { mnemonic: Mnemonic::Lsr, mode: AddressingMode::ZeroPage, cycles: 5 },
        0x47 => OpInfo { mnemonic: Mnemonic::Sre, mode: AddressingMode::ZeroPage, cycles: 5 },
        0x48 => OpInfo { mnemonic: Mnemonic::Pha, mode: AddressingMode::Implied, cycles: 3 },
        0x49 => OpInfo { mnemonic: Mnemonic::Eor, mode: AddressingMode::Immediate, cycles: 2 },
        0x4A => OpInfo { mnemonic: Mnemonic::Lsr, mode: AddressingMode::Implied, cycles: 2 },
        0x4B => OpInfo { mnemonic: Mnemonic::Alr, mode: AddressingMode::Immediate, cycles: 2 },
        0x4C => OpInfo { mnemonic: Mnemonic::Jmp, mode: AddressingMode::Absolute, cycles: 3 },
        0x4D => OpInfo { mnemonic: Mnemonic::Eor, mode: AddressingMode::Absolute, cycles: 4 },
        0x4E => OpInfo { mnemonic: Mnemonic::Lsr, mode: AddressingMode::Absolute, cycles: 6 },
        0x4F => OpInfo { mnemonic: Mnemonic::Sre, mode: AddressingMode::Absolute, cycles: 6 },
        0x50 => OpInfo { mnemonic: Mnemonic::Bvc, mode: AddressingMode::Relative, cycles: 2 },
        0x51 => OpInfo { mnemonic: Mnemonic::Eor, mode: AddressingMode::IndirectY, cycles: 5 },
        0x52 => OpInfo { mnemonic: Mnemonic::Jam, mode: AddressingMode::Implied, cycles: 2 },
        0x53 => OpInfo { mnemonic: Mnemonic::Sre, mode: AddressingMode::IndirectY, cycles: 8 },
        0x54 => OpInfo { mnemonic: Mnemonic::Nop, mode: AddressingMode::ZeroPageX, cycles: 4 },
        0x55 => OpInfo { mnemonic: Mnemonic::Eor, mode: AddressingMode::ZeroPageX, cycles: 4 },
        0x56 => OpInfo { mnemonic: Mnemonic::Lsr, mode: AddressingMode::ZeroPageX, cycles: 6 },
        0x57 => OpInfo { mnemonic: Mnemonic::Sre, mode: AddressingMode::ZeroPageX, cycles: 6 },
        0x58 => OpInfo { mnemonic: Mnemonic::Cli, mode: AddressingMode::Implied, cycles: 2 },
        0x59 => OpInfo { mnemonic: Mnemonic::Eor, mode: AddressingMode::AbsoluteY, cycles: 4 },
        0x5A => OpInfo { mnemonic: Mnemonic::Nop, mode: AddressingMode::Implied, cycles: 2 },
        0x5B => OpInfo { mnemonic: Mnemonic::Sre, mode: AddressingMode::AbsoluteY, cycles: 7 },
        0x5C => OpInfo { mnemonic: Mnemonic::Nop, mode: AddressingMode::AbsoluteX, cycles: 4 },
        0x5D => OpInfo { mnemonic: Mnemonic::Eor, mode: AddressingMode::AbsoluteX, cycles: 4 },
        0x5E => OpInfo { mnemonic: Mnemonic::Lsr, mode: AddressingMode::AbsoluteX, cycles: 7 },
        0x5F => OpInfo { mnemonic: Mnemonic::Sre, mode: AddressingMode::AbsoluteX, cycles: 7 },
        0x60 => OpInfo { mnemonic: Mnemonic::Rts, mode: AddressingMode::Implied, cycles: 6 },
        0x61 => OpInfo { mnemonic: Mnemonic::Adc, mode: AddressingMode::IndirectX, cycles: 6 },
        0x62 => OpInfo { mnemonic: Mnemonic::Jam, mode: AddressingMode::Implied, cycles: 2 },
        0x63 => OpInfo { mnemonic: Mnemonic::Rra, mode: AddressingMode::IndirectX, cycles: 8 },
        0x64 => OpInfo { mnemonic: Mnemonic::Nop, mode: AddressingMode::ZeroPage, cycles: 3 },
        0x65 => OpInfo { mnemonic: Mnemonic::Adc, mode: AddressingMode::ZeroPage, cycles: 3 },
        0x66 => OpInfo { mnemonic: Mnemonic::Ror, mode: AddressingMode::ZeroPage, cycles: 5 },
        0x67 => OpInfo { mnemonic: Mnemonic::Rra, mode: AddressingMode::ZeroPage, cycles: 5 },
        0x68 => OpInfo { mnemonic: Mnemonic::Pla, mode: AddressingMode::Implied, cycles: 4 },
        0x69 => OpInfo { mnemonic: Mnemonic::Adc, mode: AddressingMode::Immediate, cycles: 2 },
        0x6A => OpInfo { mnemonic: Mnemonic::Ror, mode: AddressingMode::Implied, cycles: 2 },
        0x6B => OpInfo { mnemonic: Mnemonic::Arr, mode: AddressingMode::Immediate, cycles: 2 },
        0x6C => OpInfo { mnemonic: Mnemonic::Jmp, mode: AddressingMode::Indirect, cycles: 5 },
        0x6D => OpInfo { mnemonic: Mnemonic::Adc, mode: AddressingMode::Absolute, cycles: 4 },
        0x6E => OpInfo { mnemonic: Mnemonic::Ror, mode: AddressingMode::Absolute, cycles: 6 },
        0x6F => OpInfo { mnemonic: Mnemonic::Rra, mode: AddressingMode::Absolute, cycles: 6 },
        0x70 => OpInfo { mnemonic: Mnemonic::Bvs, mode: AddressingMode::Relative, cycles: 2 },
        0x71 => OpInfo { mnemonic: Mnemonic::Adc, mode: AddressingMode::IndirectY, cycles: 5 },
        0x72 => OpInfo { mnemonic: Mnemonic::Jam, mode: AddressingMode::Implied, cycles: 2 },
        0x73 => OpInfo { mnemonic: Mnemonic::Rra, mode: AddressingMode::IndirectY, cycles: 8 },
        0x74 => OpInfo { mnemonic: Mnemonic::Nop, mode: AddressingMode::ZeroPageX, cycles: 4 },
        0x75 => OpInfo { mnemonic: Mnemonic::Adc, mode: AddressingMode::ZeroPageX, cycles: 4 },
        0x76 => OpInfo { mnemonic: Mnemonic::Ror, mode: AddressingMode::ZeroPageX, cycles: 6 },
        0x77 => OpInfo { mnemonic: Mnemonic::Rra, mode: AddressingMode::ZeroPageX, cycles: 6 },
        0x78 => OpInfo { mnemonic: Mnemonic::Sei, mode: AddressingMode::Implied, cycles: 2 },
        0x79 => OpInfo { mnemonic: Mnemonic::Adc, mode: AddressingMode::AbsoluteY, cycles: 4 },
        0x7A => OpInfo { mnemonic: Mnemonic::Nop, mode: AddressingMode::Implied, cycles: 2 },
        0x7B => OpInfo { mnemonic: Mnemonic::Rra, mode: AddressingMode::AbsoluteY, cycles: 7 },
        0x7C => OpInfo { mnemonic: Mnemonic::Nop, mode: AddressingMode::AbsoluteX, cycles: 4 },
        0x7D => OpInfo { mnemonic: Mnemonic::Adc, mode: AddressingMode::AbsoluteX, cycles: 4 },
        0x7E => OpInfo { mnemonic: Mnemonic::Ror, mode: AddressingMode::AbsoluteX, cycles: 7 },
        0x7F => OpInfo { mnemonic: Mnemonic::Rra, mode: AddressingMode::AbsoluteX, cycles: 7 },
        0x80 => OpInfo { mnemonic: Mnemonic::Nop, mode: AddressingMode::Immediate, cycles: 2 },
        0x81 => OpInfo { mnemonic: Mnemonic::Sta, mode: AddressingMode::IndirectX, cycles: 6 },
        0x82 => OpInfo { mnemonic: Mnemonic::Nop, mode: AddressingMode::Immediate, cycles: 2 },
        0x83 => OpInfo { mnemonic: Mnemonic::Sax, mode: AddressingMode::IndirectX, cycles: 6 },
        0x84 => OpInfo { mnemonic: Mnemonic::Sty, mode: AddressingMode::ZeroPage, cycles: 3 },
        0x85 => OpInfo { mnemonic: Mnemonic::Sta, mode: AddressingMode::ZeroPage, cycles: 3 },
        0x86 => OpInfo { mnemonic: Mnemonic::Stx, mode: AddressingMode::ZeroPage, cycles: 3 },
        0x87 => OpInfo { mnemonic: Mnemonic::Sax, mode: AddressingMode::ZeroPage, cycles: 3 },
        0x88 => OpInfo { mnemonic: Mnemonic::Dey, mode: AddressingMode::Implied, cycles: 2 },
        0x89 => OpInfo { mnemonic: Mnemonic::Nop, mode: AddressingMode::Immediate, cycles: 2 },
        0x8A => OpInfo { mnemonic: Mnemonic::Txa, mode: AddressingMode::Implied, cycles: 2 },
        0x8B => OpInfo { mnemonic: Mnemonic::Xaa, mode: AddressingMode::Immediate, cycles: 2 },
        0x8C => OpInfo { mnemonic: Mnemonic::Sty, mode: AddressingMode::Absolute, cycles: 4 },
        0x8D => OpInfo { mnemonic: Mnemonic::Sta, mode: AddressingMode::Absolute, cycles: 4 },
        0x8E => OpInfo { mnemonic: Mnemonic::Stx, mode: AddressingMode::Absolute, cycles: 4 },
        0x8F => OpInfo { mnemonic: Mnemonic::Sax, mode: AddressingMode::Absolute, cycles: 4 },
        0x90 => OpInfo { mnemonic: Mnemonic::Bcc, mode: AddressingMode::Relative, cycles: 2 },
        0x91 => OpInfo { mnemonic: Mnemonic::Sta, mode: AddressingMode::IndirectY, cycles: 6 },
        0x92 => OpInfo { mnemonic: Mnemonic::Jam, mode: AddressingMode::Implied, cycles: 2 },
        0x93 => OpInfo { mnemonic: Mnemonic::Ahx, mode: AddressingMode::IndirectY, cycles: 6 },
        0x94 => OpInfo { mnemonic: Mnemonic::Sty, mode: AddressingMode::ZeroPageX, cycles: 4 },
        0x95 => OpInfo { mnemonic: Mnemonic::Sta, mode: AddressingMode::ZeroPageX, cycles: 4 },
        0x96 => OpInfo { mnemonic: Mnemonic::Stx, mode: AddressingMode::ZeroPageY, cycles: 4 },
        0x97 => OpInfo { mnemonic: Mnemonic::Sax, mode: AddressingMode::ZeroPageY, cycles: 4 },
        0x98 => OpInfo { mnemonic: Mnemonic::Tya, mode: AddressingMode::Implied, cycles: 2 },
        0x99 => OpInfo { mnemonic: Mnemonic::Sta, mode: AddressingMode::AbsoluteY, cycles: 5 },
        0x9A => OpInfo { mnemonic: Mnemonic::Txs, mode: AddressingMode::Implied, cycles: 2 },
        0x9B => OpInfo { mnemonic: Mnemonic::Tas, mode: AddressingMode::AbsoluteY, cycles: 5 },
        0x9C => OpInfo { mnemonic: Mnemonic::Shy, mode: AddressingMode::AbsoluteX, cycles: 5 },
        0x9D => OpInfo { mnemonic: Mnemonic::Sta, mode: AddressingMode::AbsoluteX, cycles: 5 },
        0x9E => OpInfo { mnemonic: Mnemonic::Shx, mode: AddressingMode::AbsoluteY, cycles: 5 },
        0x9F => OpInfo { mnemonic: Mnemonic::Ahx, mode: AddressingMode::AbsoluteY, cycles: 5 },
        0xA0 => OpInfo { mnemonic: Mnemonic::Ldy, mode: AddressingMode::Immediate, cycles: 2 },
        0xA1 => OpInfo { mnemonic: Mnemonic::Lda, mode: AddressingMode::IndirectX, cycles: 6 },
        0xA2 => OpInfo { mnemonic: Mnemonic::Ldx, mode: AddressingMode::Immediate, cycles: 2 },
        0xA3 => OpInfo { mnemonic: Mnemonic::Lax, mode: AddressingMode::IndirectX, cycles: 6 },
        0xA4 => OpInfo { mnemonic: Mnemonic::Ldy, mode: AddressingMode::ZeroPage, cycles: 3 },
        0xA5 => OpInfo { mnemonic: Mnemonic::Lda, mode: AddressingMode::ZeroPage, cycles: 3 },
        0xA6 => OpInfo { mnemonic: Mnemonic::Ldx, mode: AddressingMode::ZeroPage, cycles: 3 },
        0xA7 => OpInfo { mnemonic: Mnemonic::Lax, mode: AddressingMode::ZeroPage, cycles: 3 },
        0xA8 => OpInfo { mnemonic: Mnemonic::Tay, mode: AddressingMode::Implied, cycles: 2 },
        0xA9 => OpInfo { mnemonic: Mnemonic::Lda, mode: AddressingMode::Immediate, cycles: 2 },
        0xAA => OpInfo { mnemonic: Mnemonic::Tax, mode: AddressingMode::Implied, cycles: 2 },
        0xAB => OpInfo { mnemonic: Mnemonic::Lax, mode: AddressingMode::Immediate, cycles: 2 },
        0xAC => OpInfo { mnemonic: Mnemonic::Ldy, mode: AddressingMode::Absolute, cycles: 4 },
        0xAD => OpInfo { mnemonic: Mnemonic::Lda, mode: AddressingMode::Absolute, cycles: 4 },
        0xAE => OpInfo { mnemonic: Mnemonic::Ldx, mode: AddressingMode::Absolute, cycles: 4 },
        0xAF => OpInfo { mnemonic: Mnemonic::Lax, mode: AddressingMode::Absolute, cycles: 4 },
        0xB0 => OpInfo { mnemonic: Mnemonic::Bcs, mode: AddressingMode::Relative, cycles: 2 },
        0xB1 => OpInfo { mnemonic: Mnemonic::Lda, mode: AddressingMode::IndirectY, cycles: 5 },
        0xB2 => OpInfo { mnemonic: Mnemonic::Jam, mode: AddressingMode::Implied, cycles: 2 },
        0xB3 => OpInfo { mnemonic: Mnemonic::Lax, mode: AddressingMode::IndirectY, cycles: 5 },
        0xB4 => OpInfo { mnemonic: Mnemonic::Ldy, mode: AddressingMode::ZeroPageX, cycles: 4 },
        0xB5 => OpInfo { mnemonic: Mnemonic::Lda, mode: AddressingMode::ZeroPageX, cycles: 4 },
        0xB6 => OpInfo { mnemonic: Mnemonic::Ldx, mode: AddressingMode::ZeroPageY, cycles: 4 },
        0xB7 => OpInfo { mnemonic: Mnemonic::Lax, mode: AddressingMode::ZeroPageY, cycles: 4 },
        0xB8 => OpInfo { mnemonic: Mnemonic::Clv, mode: AddressingMode::Implied, cycles: 2 },
        0xB9 => OpInfo { mnemonic: Mnemonic::Lda, mode: AddressingMode::AbsoluteY, cycles: 4 },
        0xBA => OpInfo { mnemonic: Mnemonic::Tsx, mode: AddressingMode::Implied, cycles: 2 },
        0xBB => OpInfo { mnemonic: Mnemonic::Las, mode: AddressingMode::AbsoluteY, cycles: 4 },
        0xBC => OpInfo { mnemonic: Mnemonic::Ldy, mode: AddressingMode::AbsoluteX, cycles: 4 },
        0xBD => OpInfo { mnemonic: Mnemonic::Lda, mode: AddressingMode::AbsoluteX, cycles: 4 },
        0xBE => OpInfo { mnemonic: Mnemonic::Ldx, mode: AddressingMode::AbsoluteY, cycles: 4 },
        0xBF => OpInfo { mnemonic: Mnemonic::Lax, mode: AddressingMode::AbsoluteY, cycles: 4 },
        0xC0 => OpInfo { mnemonic: Mnemonic::Cpy, mode: AddressingMode::Immediate, cycles: 2 },
        0xC1 => OpInfo { mnemonic: Mnemonic::Cmp, mode: AddressingMode::IndirectX, cycles: 6 },
        0xC2 => OpInfo { mnemonic: Mnemonic::Nop, mode: AddressingMode::Immediate, cycles: 2 },
        0xC3 => OpInfo { mnemonic: Mnemonic::Dcp, mode: AddressingMode::IndirectX, cycles: 8 },
        0xC4 => OpInfo { mnemonic: Mnemonic::Cpy, mode: AddressingMode::ZeroPage, cycles: 3 },
        0xC5 => OpInfo { mnemonic: Mnemonic::Cmp, mode: AddressingMode::ZeroPage, cycles: 3 },
        0xC6 => OpInfo { mnemonic: Mnemonic::Dec, mode: AddressingMode::ZeroPage, cycles: 5 },
        0xC7 => OpInfo { mnemonic: Mnemonic::Dcp, mode: AddressingMode::ZeroPage, cycles: 5 },
        0xC8 => OpInfo { mnemonic: Mnemonic::Iny, mode: AddressingMode::Implied, cycles: 2 },
        0xC9 => OpInfo { mnemonic: Mnemonic::Cmp, mode: AddressingMode::Immediate, cycles: 2 },
        0xCA => OpInfo { mnemonic: Mnemonic::Dex, mode: AddressingMode::Implied, cycles: 2 },
        0xCB => OpInfo { mnemonic: Mnemonic::Axs, mode: AddressingMode::Immediate, cycles: 2 },
        0xCC => OpInfo { mnemonic: Mnemonic::Cpy, mode: AddressingMode::Absolute, cycles: 4 },
        0xCD => OpInfo { mnemonic: Mnemonic::Cmp, mode: AddressingMode::Absolute, cycles: 4 },
        0xCE => OpInfo { mnemonic: Mnemonic::Dec, mode: AddressingMode::Absolute, cycles: 6 },
        0xCF => OpInfo { mnemonic: Mnemonic::Dcp, mode: AddressingMode::Absolute, cycles: 6 },
        0xD0 => OpInfo { mnemonic: Mnemonic::Bne, mode: AddressingMode::Relative, cycles: 2 },
        0xD1 => OpInfo { mnemonic: Mnemonic::Cmp, mode: AddressingMode::IndirectY, cycles: 5 },
        0xD2 => OpInfo { mnemonic: Mnemonic::Jam, mode: AddressingMode::Implied, cycles: 2 },
        0xD3 => OpInfo { mnemonic: Mnemonic::Dcp, mode: AddressingMode::IndirectY, cycles: 8 },
        0xD4 => OpInfo { mnemonic: Mnemonic::Nop, mode: AddressingMode::ZeroPageX, cycles: 4 },
        0xD5 => OpInfo { mnemonic: Mnemonic::Cmp, mode: AddressingMode::ZeroPageX, cycles: 4 },
        0xD6 => OpInfo { mnemonic: Mnemonic::Dec, mode: AddressingMode::ZeroPageX, cycles: 6 },
        0xD7 => OpInfo { mnemonic: Mnemonic::Dcp, mode: AddressingMode::ZeroPageX, cycles: 6 },
        0xD8 => OpInfo { mnemonic: Mnemonic::Cld, mode: AddressingMode::Implied, cycles: 2 },
        0xD9 => OpInfo { mnemonic: Mnemonic::Cmp, mode: AddressingMode::AbsoluteY, cycles: 4 },
        0xDA => OpInfo { mnemonic: Mnemonic::Nop, mode: AddressingMode::Implied, cycles: 2 },
        0xDB => OpInfo { mnemonic: Mnemonic::Dcp, mode: AddressingMode::AbsoluteY, cycles: 7 },
        0xDC => OpInfo { mnemonic: Mnemonic::Nop, mode: AddressingMode::AbsoluteX, cycles: 4 },
        0xDD => OpInfo { mnemonic: Mnemonic::Cmp, mode: AddressingMode::AbsoluteX, cycles: 4 },
        0xDE => OpInfo { mnemonic: Mnemonic::Dec, mode: AddressingMode::AbsoluteX, cycles: 7 },
        0xDF => OpInfo { mnemonic: Mnemonic::Dcp, mode: AddressingMode::AbsoluteX, cycles: 7 },
        0xE0 => OpInfo { mnemonic: Mnemonic::Cpx, mode: AddressingMode::Immediate, cycles: 2 },
        0xE1 => OpInfo { mnemonic: Mnemonic::Sbc, mode: AddressingMode::IndirectX, cycles: 6 },
        0xE2 => OpInfo { mnemonic: Mnemonic::Nop, mode: AddressingMode::Immediate, cycles: 2 },
        0xE3 => OpInfo { mnemonic: Mnemonic::Isc, mode: AddressingMode::IndirectX, cycles: 8 },
        0xE4 => OpInfo { mnemonic: Mnemonic::Cpx, mode: AddressingMode::ZeroPage, cycles: 3 },
        0xE5 => OpInfo { mnemonic: Mnemonic::Sbc, mode: AddressingMode::ZeroPage, cycles: 3 },
        0xE6 => OpInfo { mnemonic: Mnemonic::Inc, mode: AddressingMode::ZeroPage, cycles: 5 },
        0xE7 => OpInfo { mnemonic: Mnemonic::Isc, mode: AddressingMode::ZeroPage, cycles: 5 },
        0xE8 => OpInfo { mnemonic: Mnemonic::Inx, mode: AddressingMode::Implied, cycles: 2 },
        0xE9 => OpInfo { mnemonic: Mnemonic::Sbc, mode: AddressingMode::Immediate, cycles: 2 },
        0xEA => OpInfo { mnemonic: Mnemonic::Nop, mode: AddressingMode::Implied, cycles: 2 },
        0xEB => OpInfo { mnemonic: Mnemonic::Sbc, mode: AddressingMode::Immediate, cycles: 2 },
        0xEC => OpInfo { mnemonic: Mnemonic::Cpx, mode: AddressingMode::Absolute, cycles: 4 },
        0xED => OpInfo { mnemonic: Mnemonic::Sbc, mode: AddressingMode::Absolute, cycles: 4 },
        0xEE => OpInfo { mnemonic: Mnemonic::Inc, mode: AddressingMode::Absolute, cycles: 6 },
        0xEF => OpInfo { mnemonic: Mnemonic::Isc, mode: AddressingMode::Absolute, cycles: 6 },
        0xF0 => OpInfo { mnemonic: Mnemonic::Beq, mode: AddressingMode::Relative, cycles: 2 },
        0xF1 => OpInfo { mnemonic: Mnemonic::Sbc, mode: AddressingMode::IndirectY, cycles: 5 },
        0xF2 => OpInfo { mnemonic: Mnemonic::Jam, mode: AddressingMode::Implied, cycles: 2 },
        0xF3 => OpInfo { mnemonic: Mnemonic::Isc, mode: AddressingMode::IndirectY, cycles: 8 },
        0xF4 => OpInfo { mnemonic: Mnemonic::Nop, mode: AddressingMode::ZeroPageX, cycles: 4 },
        0xF5 => OpInfo { mnemonic: Mnemonic::Sbc, mode: AddressingMode::ZeroPageX, cycles: 4 },
        0xF6 => OpInfo { mnemonic: Mnemonic::Inc, mode: AddressingMode::ZeroPageX, cycles: 6 },
        0xF7 => OpInfo { mnemonic: Mnemonic::Isc, mode: AddressingMode::ZeroPageX, cycles: 6 },
        0xF8 => OpInfo { mnemonic: Mnemonic::Sed, mode: AddressingMode::Implied, cycles: 2 },
        0xF9 => OpInfo { mnemonic: Mnemonic::Sbc, mode: AddressingMode::AbsoluteY, cycles: 4 },
        0xFA => OpInfo { mnemonic: Mnemonic::Nop, mode: AddressingMode::Implied, cycles: 2 },
        0xFB => OpInfo { mnemonic: Mnemonic::Isc, mode: AddressingMode::AbsoluteY, cycles: 7 },
        0xFC => OpInfo { mnemonic: Mnemonic::Nop, mode: AddressingMode::AbsoluteX, cycles: 4 },
        0xFD => OpInfo { mnemonic: Mnemonic::Sbc, mode: AddressingMode::AbsoluteX, cycles: 4 },
        0xFE => OpInfo { mnemonic: Mnemonic::Inc, mode: AddressingMode::AbsoluteX, cycles: 7 },
        _ => OpInfo { mnemonic: Mnemonic::Isc, mode: AddressingMode::AbsoluteX, cycles: 7 },
    }
}

/// Executable twin of [`op_entry`].
#[verifier::rlimit(60)]
pub fn opcode_entry(op: u8) -> (r: OpInfo)
    ensures
        r == op_entry(op),
{
    proof {
        reveal(op_entry);
    }
    match op {
        0x00 => OpInfo { mnemonic: Mnemonic::Brk, mode: AddressingMode::Implied, cycles: 7 },
        0x01 => OpInfo { mnemonic: Mnemonic::Ora, mode: AddressingMode::IndirectX, cycles: 6 },
        0x02 => OpInfo { mnemonic: Mnemonic::Jam, mode: AddressingMode::Implied, cycles: 2 },
        0x03 => OpInfo { mnemonic: Mnemonic::Slo, mode: AddressingMode::IndirectX, cycles: 8 },
        0x04 => OpInfo { mnemonic: Mnemonic::Nop, mode: AddressingMode::ZeroPage, cycles: 3 },
        0x05 => OpInfo { mnemonic: Mnemonic::Ora, mode: AddressingMode::ZeroPage, cycles: 3 },
        0x06 => OpInfo { mnemonic: Mnemonic::Asl, mode: AddressingMode::ZeroPage, cycles: 5 },
        0x07 => OpInfo { mnemonic: Mnemonic::Slo, mode: AddressingMode::ZeroPage, cycles: 5 },
        0x08 => OpInfo { mnemonic: Mnemonic::Php, mode: AddressingMode::Implied, cycles: 3 },
        0x09 => OpInfo { mnemonic: Mnemonic::Ora, mode: AddressingMode::Immediate, cycles: 2 },
        0x0A => OpInfo { mnemonic: Mnemonic::Asl, mode: AddressingMode::Implied, cycles: 2 },
        0x0B => OpInfo { mnemonic: Mnemonic::Anc, mode: AddressingMode::Immediate, cycles: 2 },
        0x0C => OpInfo { mnemonic: Mnemonic::Nop, mode: AddressingMode::Absolute, cycles: 4 },
        0x0D => OpInfo { mnemonic: Mnemonic::Ora, mode: AddressingMode::Absolute, cycles: 4 },
        0x0E => OpInfo { mnemonic: Mnemonic::Asl, mode: AddressingMode::Absolute, cycles: 6 },
        0x0F => OpInfo { mnemonic: Mnemonic::Slo, mode: AddressingMode::Absolute, cycles: 6 },
        0x10 => OpInfo { mnemonic: Mnemonic::Bpl, mode: AddressingMode::Relative, cycles: 2 },
        0x11 => OpInfo { mnemonic: Mnemonic::Ora, mode: AddressingMode::IndirectY, cycles: 5 },
        0x12 => OpInfo { mnemonic: Mnemonic::Jam, mode: AddressingMode::Implied, cycles: 2 },
        0x13 => OpInfo { mnemonic: Mnemonic::Slo, mode: AddressingMode::IndirectY, cycles: 8 },
        0x14 => OpInfo { mnemonic: Mnemonic::Nop, mode: AddressingMode::ZeroPageX, cycles: 4 },
        0x15 => OpInfo { mnemonic: Mnemonic::Ora, mode: AddressingMode::ZeroPageX, cycles: 4 },
        0x16 => OpInfo { mnemonic: Mnemonic::Asl, mode: AddressingMode::ZeroPageX, cycles: 6 },
        0x17 => OpInfo { mnemonic: Mnemonic::Slo, mode: AddressingMode::ZeroPageX, cycles: 6 },
        0x18 => OpInfo { mnemonic: Mnemonic::Clc, mode: AddressingMode::Implied, cycles: 2 },
        0x19 => OpInfo { mnemonic: Mnemonic::Ora, mode: AddressingMode::AbsoluteY, cycles: 4 },
        0x1A => OpInfo { mnemonic: Mnemonic::Nop, mode: AddressingMode::Implied, cycles: 2 },
        0x1B => OpInfo { mnemonic: Mnemonic::Slo, mode: AddressingMode::AbsoluteY, cycles: 7 },
        0x1C => OpInfo { mnemonic: Mnemonic::Nop, mode: AddressingMode::AbsoluteX, cycles: 4 },
        0x1D => OpInfo { mnemonic: Mnemonic::Ora, mode: AddressingMode::AbsoluteX, cycles: 4 },
        0x1E => OpInfo { mnemonic: Mnemonic::Asl, mode: AddressingMode::AbsoluteX, cycles: 7 },
        0x1F => OpInfo { mnemonic: Mnemonic::Slo, mode: AddressingMode::AbsoluteX, cycles: 7 },
        0x20 => OpInfo { mnemonic: Mnemonic::Jsr, mode: AddressingMode::Absolute, cycles: 6 },
        0x21 => OpInfo { mnemonic: Mnemonic::And, mode: AddressingMode::IndirectX, cycles: 6 },
        0x22 => OpInfo { mnemonic: Mnemonic::Jam, mode: AddressingMode::Implied, cycles: 2 },
        0x23 => OpInfo { mnemonic: Mnemonic::Rla, mode: AddressingMode::IndirectX, cycles: 8 },
        0x24 => OpInfo { mnemonic: Mnemonic::Bit, mode: AddressingMode::ZeroPage, cycles: 3 },
        0x25 => OpInfo { mnemonic: Mnemonic::And, mode: AddressingMode::ZeroPage, cycles: 3 },
        0x26 => OpInfo { mnemonic: Mnemonic::Rol, mode: AddressingMode::ZeroPage, cycles: 5 },
        0x27 => OpInfo { mnemonic: Mnemonic::Rla, mode: AddressingMode::ZeroPage, cycles: 5 },
        0x28 => OpInfo { mnemonic: Mnemonic::Plp, mode: AddressingMode::Implied, cycles: 4 },
        0x29 => OpInfo { mnemonic: Mnemonic::And, mode: AddressingMode::Immediate, cycles: 2 },
        0x2A => OpInfo { mnemonic: Mnemonic::Rol, mode: AddressingMode::Implied, cycles: 2 },
        0x2B => OpInfo { mnemonic: Mnemonic::Anc, mode: AddressingMode::Immediate, cycles: 2 },
        0x2C => OpInfo { mnemonic: Mnemonic::Bit, mode: AddressingMode::Absolute, cycles: 4 },
        0x2D => OpInfo { mnemonic: Mnemonic::And, mode: AddressingMode::Absolute, cycles: 4 },
        0x2E => OpInfo { mnemonic: Mnemonic::Rol, mode: AddressingMode::Absolute, cycles: 6 },
        0x2F => OpInfo { mnemonic: Mnemonic::Rla, mode: AddressingMode::Absolute, cycles: 6 },
        0x30 => OpInfo { mnemonic: Mnemonic::Bmi, mode: AddressingMode::Relative, cycles: 2 },
        0x31 => OpInfo { mnemonic: Mnemonic::And, mode: AddressingMode::IndirectY, cycles: 5 },
        0x32 => OpInfo { mnemonic: Mnemonic::Jam, mode: AddressingMode::Implied, cycles: 2 },
        0x33 => OpInfo { mnemonic: Mnemonic::Rla, mode: AddressingMode::IndirectY, cycles: 8 },
        0x34 => OpInfo { mnemonic: Mnemonic::Nop, mode: AddressingMode::ZeroPageX, cycles: 4 },
        0x35 => OpInfo { mnemonic: Mnemonic::And, mode: AddressingMode::ZeroPageX, cycles: 4 },
        0x36 => OpInfo { mnemonic: Mnemonic::Rol, mode: AddressingMode::ZeroPageX, cycles: 6 },
        0x37 => OpInfo { mnemonic: Mnemonic::Rla, mode: AddressingMode::ZeroPageX, cycles: 6 },
        0x38 => OpInfo { mnemonic: Mnemonic::Sec, mode: AddressingMode::Implied, cycles: 2 },
        0x39 => OpInfo { mnemonic: Mnemonic::And, mode: AddressingMode::AbsoluteY, cycles: 4 },
        0x3A => OpInfo { mnemonic: Mnemonic::Nop, mode: AddressingMode::Implied, cycles: 2 },
        0x3B => OpInfo { mnemonic: Mnemonic::Rla, mode: AddressingMode::AbsoluteY, cycles: 7 },
        0x3C => OpInfo { mnemonic: Mnemonic::Nop, mode: AddressingMode::AbsoluteX, cycles: 4 },
        0x3D => OpInfo { mnemonic: Mnemonic::And, mode: AddressingMode::AbsoluteX, cycles: 4 },
        0x3E => OpInfo { mnemonic: Mnemonic::Rol, mode: AddressingMode::AbsoluteX, cycles: 7 },
        0x3F => OpInfo { mnemonic: Mnemonic::Rla, mode: AddressingMode::AbsoluteX, cycles: 7 },
        0x40 => OpInfo { mnemonic: Mnemonic::Rti, mode: AddressingMode::Implied, cycles: 6 },
        0x41 => OpInfo { mnemonic: Mnemonic::Eor, mode: AddressingMode::IndirectX, cycles: 6 },
        0x42 => OpInfo { mnemonic: Mnemonic::Jam, mode: AddressingMode::Implied, cycles: 2 },
        0x43 => OpInfo { mnemonic: Mnemonic::Sre, mode: AddressingMode::IndirectX, cycles: 8 },
        0x44 => OpInfo { mnemonic: Mnemonic::Nop, mode: AddressingMode::ZeroPage, cycles: 3 },
        0x45 => OpInfo { mnemonic: Mnemonic::Eor, mode: AddressingMode::ZeroPage, cycles: 3 },
        0x46 => OpInfo { mnemonic: Mnemonic::Lsr, mode: AddressingMode::ZeroPage, cycles: 5 },
        0x47 => OpInfo { mnemonic: Mnemonic::Sre, mode: AddressingMode::ZeroPage, cycles: 5 },
        0x48 => OpInfo { mnemonic: Mnemonic::Pha, mode: AddressingMode::Implied, cycles: 3 },
        0x49 => OpInfo { mnemonic: Mnemonic::Eor, mode: AddressingMode::Immediate, cycles: 2 },
        0x4A => OpInfo { mnemonic: Mnemonic::Lsr, mode: AddressingMode::Implied, cycles: 2 },
        0x4B => OpInfo { mnemonic: Mnemonic::Alr, mode: AddressingMode::Immediate, cycles: 2 },
        0x4C => OpInfo { mnemonic: Mnemonic::Jmp, mode: AddressingMode::Absolute, cycles: 3 },
        0x4D => OpInfo { mnemonic: Mnemonic::Eor, mode: AddressingMode::Absolute, cycles: 4 },
        0x4E => OpInfo { mnemonic: Mnemonic::Lsr, mode: AddressingMode::Absolute, cycles: 6 },
        0x4F => OpInfo { mnemonic: Mnemonic::Sre, mode: AddressingMode::Absolute, cycles: 6 },
        0x50 => OpInfo { mnemonic: Mnemonic::Bvc, mode: AddressingMode::Relative, cycles: 2 },
        0x51 => OpInfo { mnemonic: Mnemonic::Eor, mode: AddressingMode::IndirectY, cycles: 5 },
        0x52 => OpInfo { mnemonic: Mnemonic::Jam, mode: AddressingMode::Implied, cycles: 2 },
        0x53 => OpInfo { mnemonic: Mnemonic::Sre, mode: AddressingMode::IndirectY, cycles: 8 },
        0x54 => OpInfo { mnemonic: Mnemonic::Nop, mode: AddressingMode::ZeroPageX, cycles: 4 },
        0x55 => OpInfo { mnemonic: Mnemonic::Eor, mode: AddressingMode::ZeroPageX, cycles: 4 },
        0x56 => OpInfo { mnemonic: Mnemonic::Lsr, mode: AddressingMode::ZeroPageX, cycles: 6 },
        0x57 => OpInfo { mnemonic: Mnemonic::Sre, mode: AddressingMode::ZeroPageX, cycles: 6 },
        0x58 => OpInfo { mnemonic: Mnemonic::Cli, mode: AddressingMode::Implied, cycles: 2 },
        0x59 => OpInfo { mnemonic: Mnemonic::Eor, mode: AddressingMode::AbsoluteY, cycles: 4 },
        0x5A => OpInfo { mnemonic: Mnemonic::Nop, mode: AddressingMode::Implied, cycles: 2 },
        0x5B => OpInfo { mnemonic: Mnemonic::Sre, mode: AddressingMode::AbsoluteY, cycles: 7 },
        0x5C => OpInfo { mnemonic: Mnemonic::Nop, mode: AddressingMode::AbsoluteX, cycles: 4 },
        0x5D => OpInfo { mnemonic: Mnemonic::Eor, mode: AddressingMode::AbsoluteX, cycles: 4 },
        0x5E => OpInfo { mnemonic: Mnemonic::Lsr, mode: AddressingMode::AbsoluteX, cycles: 7 },
        0x5F => OpInfo { mnemonic: Mnemonic::Sre, mode: AddressingMode::AbsoluteX, cycles: 7 },
        0x60 => OpInfo { mnemonic: Mnemonic::Rts, mode: AddressingMode::Implied, cycles: 6 },
        0x61 => OpInfo { mnemonic: Mnemonic::Adc, mode: AddressingMode::IndirectX, cycles: 6 },
        0x62 => OpInfo { mnemonic: Mnemonic::Jam, mode: AddressingMode::Implied, cycles: 2 },
        0x63 => OpInfo { mnemonic: Mnemonic::Rra, mode: AddressingMode::IndirectX, cycles: 8 },
        0x64 => OpInfo { mnemonic: Mnemonic::Nop, mode: AddressingMode::ZeroPage, cycles: 3 },
        0x65 => OpInfo { mnemonic: Mnemonic::Adc, mode: AddressingMode::ZeroPage, cycles: 3 },
        0x66 => OpInfo { mnemonic: Mnemonic::Ror, mode: AddressingMode::ZeroPage, cycles: 5 },
        0x67 => OpInfo { mnemonic: Mnemonic::Rra, mode: AddressingMode::ZeroPage, cycles: 5 },
        0x68 => OpInfo { mnemonic: Mnemonic::Pla, mode: AddressingMode::Implied, cycles: 4 },
        0x69 => OpInfo { mnemonic: Mnemonic::Adc, mode: AddressingMode::Immediate, cycles: 2 },
        0x6A => OpInfo { mnemonic: Mnemonic::Ror, mode: AddressingMode::Implied, cycles: 2 },
        0x6B => OpInfo { mnemonic: Mnemonic::Arr, mode: AddressingMode::Immediate, cycles: 2 },
        0x6C => OpInfo { mnemonic: Mnemonic::Jmp, mode: AddressingMode::Indirect, cycles: 5 },
        0x6D => OpInfo { mnemonic: Mnemonic::Adc, mode: AddressingMode::Absolute, cycles: 4 },
        0x6E => OpInfo { mnemonic: Mnemonic::Ror, mode: AddressingMode::Absolute, cycles: 6 },
        0x6F => OpInfo { mnemonic: Mnemonic::Rra, mode: AddressingMode::Absolute, cycles: 6 },
        0x70 => OpInfo { mnemonic: Mnemonic::Bvs, mode: AddressingMode::Relative, cycles: 2 },
        0x71 => OpInfo { mnemonic: Mnemonic::Adc, mode: AddressingMode::IndirectY, cycles: 5 },
        0x72 => OpInfo { mnemonic: Mnemonic::Jam, mode: AddressingMode::Implied, cycles: 2 },
        0x73 => OpInfo { mnemonic: Mnemonic::Rra, mode: AddressingMode::IndirectY, cycles: 8 },
        0x74 => OpInfo { mnemonic: Mnemonic::Nop, mode: AddressingMode::ZeroPageX, cycles: 4 },
        0x75 => OpInfo { mnemonic: Mnemonic::Adc, mode: AddressingMode::ZeroPageX, cycles: 4 },
        0x76 => OpInfo { mnemonic: Mnemonic::Ror, mode: AddressingMode::ZeroPageX, cycles: 6 },
        0x77 => OpInfo { mnemonic: Mnemonic::Rra, mode: AddressingMode::ZeroPageX, cycles: 6 },
        0x78 => OpInfo { mnemonic: Mnemonic::Sei, mode: AddressingMode::Implied, cycles: 2 },
        0x79 => OpInfo { mnemonic: Mnemonic::Adc, mode: AddressingMode::AbsoluteY, cycles: 4 },
        0x7A => OpInfo { mnemonic: Mnemonic::Nop, mode: AddressingMode::Implied, cycles: 2 },
        0x7B => OpInfo { mnemonic: Mnemonic::Rra, mode: AddressingMode::AbsoluteY, cycles: 7 },
        0x7C => OpInfo { mnemonic: Mnemonic::Nop, mode: AddressingMode::AbsoluteX, cycles: 4 },
        0x7D => OpInfo { mnemonic: Mnemonic::Adc, mode: AddressingMode::AbsoluteX, cycles: 4 },
        0x7E => OpInfo { mnemonic: Mnemonic::Ror, mode: AddressingMode::AbsoluteX, cycles: 7 },
        0x7F => OpInfo { mnemonic: Mnemonic::Rra, mode: AddressingMode::AbsoluteX, cycles: 7 },
        0x80 => OpInfo { mnemonic: Mnemonic::Nop, mode: AddressingMode::Immediate, cycles: 2 },
        0x81 => OpInfo { mnemonic: Mnemonic::Sta, mode: AddressingMode::IndirectX, cycles: 6 },
        0x82 => OpInfo { mnemonic: Mnemonic::Nop, mode: AddressingMode::Immediate, cycles: 2 },
        0x83 => OpInfo { mnemonic: Mnemonic::Sax, mode: AddressingMode::IndirectX, cycles: 6 },
        0x84 => OpInfo { mnemonic: Mnemonic::Sty, mode: AddressingMode::ZeroPage, cycles: 3 },
        0x85 => OpInfo { mnemonic: Mnemonic::Sta, mode: AddressingMode::ZeroPage, cycles: 3 },
        0x86 => OpInfo { mnemonic: Mnemonic::Stx, mode: AddressingMode::ZeroPage, cycles: 3 },
        0x87 => OpInfo { mnemonic: Mnemonic::Sax, mode: AddressingMode::ZeroPage, cycles: 3 },
        0x88 => OpInfo { mnemonic: Mnemonic::Dey, mode: AddressingMode::Implied, cycles: 2 },
        0x89 => OpInfo { mnemonic: Mnemonic::Nop, mode: AddressingMode::Immediate, cycles: 2 },
        0x8A => OpInfo { mnemonic: Mnemonic::Txa, mode: AddressingMode::Implied, cycles: 2 },
        0x8B => OpInfo { mnemonic: Mnemonic::Xaa, mode: AddressingMode::Immediate, cycles: 2 },
        0x8C => OpInfo { mnemonic: Mnemonic::Sty, mode: AddressingMode::Absolute, cycles: 4 },
        0x8D => OpInfo { mnemonic: Mnemonic::Sta, mode: AddressingMode::Absolute, cycles: 4 },
        0x8E => OpInfo { mnemonic: Mnemonic::Stx, mode: AddressingMode::Absolute, cycles: 4 },
        0x8F => OpInfo { mnemonic: Mnemonic::Sax, mode: AddressingMode::Absolute, cycles: 4 },
        0x90 => OpInfo { mnemonic: Mnemonic::Bcc, mode: AddressingMode::Relative, cycles: 2 },
        0x91 => OpInfo { mnemonic: Mnemonic::Sta, mode: AddressingMode::IndirectY, cycles: 6 },
        0x92 => OpInfo { mnemonic: Mnemonic::Jam, mode: AddressingMode::Implied, cycles: 2 },
        0x93 => OpInfo { mnemonic: Mnemonic::Ahx, mode: AddressingMode::IndirectY, cycles: 6 },
        0x94 => OpInfo { mnemonic: Mnemonic::Sty, mode: AddressingMode::ZeroPageX, cycles: 4 },
        0x95 => OpInfo { mnemonic: Mnemonic::Sta, mode: AddressingMode::ZeroPageX, cycles: 4 },
        0x96 => OpInfo { mnemonic: Mnemonic::Stx, mode: AddressingMode::ZeroPageY, cycles: 4 },
        0x97 => OpInfo { mnemonic: Mnemonic::Sax, mode: AddressingMode::ZeroPageY, cycles: 4 },
        0x98 => OpInfo { mnemonic: Mnemonic::Tya, mode: AddressingMode::Implied, cycles: 2 },
        0x99 => OpInfo { mnemonic: Mnemonic::Sta, mode: AddressingMode::AbsoluteY, cycles: 5 },
        0x9A => OpInfo { mnemonic: Mnemonic::Txs, mode: AddressingMode::Implied, cycles: 2 },
        0x9B => OpInfo { mnemonic: Mnemonic::Tas, mode: AddressingMode::AbsoluteY, cycles: 5 },
        0x9C => OpInfo { mnemonic: Mnemonic::Shy, mode: AddressingMode::AbsoluteX, cycles: 5 },
        0x9D => OpInfo { mnemonic: Mnemonic::Sta, mode: AddressingMode::AbsoluteX, cycles: 5 },
        0x9E => OpInfo { mnemonic: Mnemonic::Shx, mode: AddressingMode::AbsoluteY, cycles: 5 },
        0x9F => OpInfo { mnemonic: Mnemonic::Ahx, mode: AddressingMode::AbsoluteY, cycles: 5 },
        0xA0 => OpInfo { mnemonic: Mnemonic::Ldy, mode: AddressingMode::Immediate, cycles: 2 },
        0xA1 => OpInfo { mnemonic: Mnemonic::Lda, mode: AddressingMode::IndirectX, cycles: 6 },
        0xA2 => OpInfo { mnemonic: Mnemonic::Ldx, mode: AddressingMode::Immediate, cycles: 2 },
        0xA3 => OpInfo { mnemonic: Mnemonic::Lax, mode: AddressingMode::IndirectX, cycles: 6 },
        0xA4 => OpInfo { mnemonic: Mnemonic::Ldy, mode: AddressingMode::ZeroPage, cycles: 3 },
        0xA5 => OpInfo { mnemonic: Mnemonic::Lda, mode: AddressingMode::ZeroPage, cycles: 3 },
        0xA6 => OpInfo { mnemonic: Mnemonic::Ldx, mode: AddressingMode::ZeroPage, cycles: 3 },
        0xA7 => OpInfo { mnemonic: Mnemonic::Lax, mode: AddressingMode::ZeroPage, cycles: 3 },
        0xA8 => OpInfo { mnemonic: Mnemonic::Tay, mode: AddressingMode::Implied, cycles: 2 },
        0xA9 => OpInfo { mnemonic: Mnemonic::Lda, mode: AddressingMode::Immediate, cycles: 2 },
        0xAA => OpInfo { mnemonic: Mnemonic::Tax, mode: AddressingMode::Implied, cycles: 2 },
        0xAB => OpInfo { mnemonic: Mnemonic::Lax, mode: AddressingMode::Immediate, cycles: 2 },
        0xAC => OpInfo { mnemonic: Mnemonic::Ldy, mode: AddressingMode::Absolute, cycles: 4 },
        0xAD => OpInfo { mnemonic: Mnemonic::Lda, mode: AddressingMode::Absolute, cycles: 4 },
        0xAE => OpInfo { mnemonic: Mnemonic::Ldx, mode: AddressingMode::Absolute, cycles: 4 },
        0xAF => OpInfo { mnemonic: Mnemonic::Lax, mode: AddressingMode::Absolute, cycles: 4 },
        0xB0 => OpInfo { mnemonic: Mnemonic::Bcs, mode: AddressingMode::Relative, cycles: 2 },
        0xB1 => OpInfo { mnemonic: Mnemonic::Lda, mode: AddressingMode::IndirectY, cycles: 5 },
        0xB2 => OpInfo { mnemonic: Mnemonic::Jam, mode: AddressingMode::Implied, cycles: 2 },
        0xB3 => OpInfo { mnemonic: Mnemonic::Lax, mode: AddressingMode::IndirectY, cycles: 5 },
        0xB4 => OpInfo { mnemonic: Mnemonic::Ldy, mode: AddressingMode::ZeroPageX, cycles: 4 },
        0xB5 => OpInfo { mnemonic: Mnemonic::Lda, mode: AddressingMode::ZeroPageX, cycles: 4 },
        0xB6 => OpInfo { mnemonic: Mnemonic::Ldx, mode: AddressingMode::ZeroPageY, cycles: 4 },
        0xB7 => OpInfo { mnemonic: Mnemonic::Lax, mode: AddressingMode::ZeroPageY, cycles: 4 },
        0xB8 => OpInfo { mnemonic: Mnemonic::Clv, mode: AddressingMode::Implied, cycles: 2 },
        0xB9 => OpInfo { mnemonic: Mnemonic::Lda, mode: AddressingMode::AbsoluteY, cycles: 4 },
        0xBA => OpInfo { mnemonic: Mnemonic::Tsx, mode: AddressingMode::Implied, cycles: 2 },
        0xBB => OpInfo { mnemonic: Mnemonic::Las, mode: AddressingMode::AbsoluteY, cycles: 4 },
        0xBC => OpInfo { mnemonic: Mnemonic::Ldy, mode: AddressingMode::AbsoluteX, cycles: 4 },
        0xBD => OpInfo { mnemonic: Mnemonic::Lda, mode: AddressingMode::AbsoluteX, cycles: 4 },
        0xBE => OpInfo { mnemonic: Mnemonic::Ldx, mode: AddressingMode::AbsoluteY, cycles: 4 },
        0xBF => OpInfo { mnemonic: Mnemonic::Lax, mode: AddressingMode::AbsoluteY, cycles: 4 },
        0xC0 => OpInfo { mnemonic: Mnemonic::Cpy, mode: AddressingMode::Immediate, cycles: 2 },
        0xC1 => OpInfo { mnemonic: Mnemonic::Cmp, mode: AddressingMode::IndirectX, cycles: 6 },
        0xC2 => OpInfo { mnemonic: Mnemonic::Nop, mode: AddressingMode::Immediate, cycles: 2 },
        0xC3 => OpInfo { mnemonic: Mnemonic::Dcp, mode: AddressingMode::IndirectX, cycles: 8 },
        0xC4 => OpInfo { mnemonic: Mnemonic::Cpy, mode: AddressingMode::ZeroPage, cycles: 3 },
        0xC5 => OpInfo { mnemonic: Mnemonic::Cmp, mode: AddressingMode::ZeroPage, cycles: 3 },
        0xC6 => OpInfo { mnemonic: Mnemonic::Dec, mode: AddressingMode::ZeroPage, cycles: 5 },
        0xC7 => OpInfo { mnemonic: Mnemonic::Dcp, mode: AddressingMode::ZeroPage, cycles: 5 },
        0xC8 => OpInfo { mnemonic: Mnemonic::Iny, mode: AddressingMode::Implied, cycles: 2 },
        0xC9 => OpInfo { mnemonic: Mnemonic::Cmp, mode: AddressingMode::Immediate, cycles: 2 },
        0xCA => OpInfo { mnemonic: Mnemonic::Dex, mode: AddressingMode::Implied, cycles: 2 },
        0xCB => OpInfo { mnemonic: Mnemonic::Axs, mode: AddressingMode::Immediate, cycles: 2 },
        0xCC => OpInfo { mnemonic: Mnemonic::Cpy, mode: AddressingMode::Absolute, cycles: 4 },
        0xCD => OpInfo { mnemonic: Mnemonic::Cmp, mode: AddressingMode::Absolute, cycles: 4 },
        0xCE => OpInfo { mnemonic: Mnemonic::Dec, mode: AddressingMode::Absolute, cycles: 6 },
        0xCF => OpInfo { mnemonic: Mnemonic::Dcp, mode: AddressingMode::Absolute, cycles: 6 },
        0xD0 => OpInfo { mnemonic: Mnemonic::Bne, mode: AddressingMode::Relative, cycles: 2 },
        0xD1 => OpInfo { mnemonic: Mnemonic::Cmp, mode: AddressingMode::IndirectY, cycles: 5 },
        0xD2 => OpInfo { mnemonic: Mnemonic::Jam, mode: AddressingMode::Implied, cycles: 2 },
        0xD3 => OpInfo { mnemonic: Mnemonic::Dcp, mode: AddressingMode::IndirectY, cycles: 8 },
        0xD4 => OpInfo { mnemonic: Mnemonic::Nop, mode: AddressingMode::ZeroPageX, cycles: 4 },
        0xD5 => OpInfo { mnemonic: Mnemonic::Cmp, mode: AddressingMode::ZeroPageX, cycles: 4 },
        0xD6 => OpInfo { mnemonic: Mnemonic::Dec, mode: AddressingMode::ZeroPageX, cycles: 6 },
        0xD7 => OpInfo { mnemonic: Mnemonic::Dcp, mode: AddressingMode::ZeroPageX, cycles: 6 },
        0xD8 => OpInfo { mnemonic: Mnemonic::Cld, mode: AddressingMode::Implied, cycles: 2 },
        0xD9 => OpInfo { mnemonic: Mnemonic::Cmp, mode: AddressingMode::AbsoluteY, cycles: 4 },
        0xDA => OpInfo { mnemonic: Mnemonic::Nop, mode: AddressingMode::Implied, cycles: 2 },
        0xDB => OpInfo { mnemonic: Mnemonic::Dcp, mode: AddressingMode::AbsoluteY, cycles: 7 },
        0xDC => OpInfo { mnemonic: Mnemonic::Nop, mode: AddressingMode::AbsoluteX, cycles: 4 },
        0xDD => OpInfo { mnemonic: Mnemonic::Cmp, mode: AddressingMode::AbsoluteX, cycles: 4 },
        0xDE => OpInfo { mnemonic: Mnemonic::Dec, mode: AddressingMode::AbsoluteX, cycles: 7 },
        0xDF => OpInfo { mnemonic: Mnemonic::Dcp, mode: AddressingMode::AbsoluteX, cycles: 7 },
        0xE0 => OpInfo { mnemonic: Mnemonic::Cpx, mode: AddressingMode::Immediate, cycles: 2 },
        0xE1 => OpInfo { mnemonic: Mnemonic::Sbc, mode: AddressingMode::IndirectX, cycles: 6 },
        0xE2 => OpInfo { mnemonic: Mnemonic::Nop, mode: AddressingMode::Immediate, cycles: 2 },
        0xE3 => OpInfo { mnemonic: Mnemonic::Isc, mode: AddressingMode::IndirectX, cycles: 8 },
        0xE4 => OpInfo { mnemonic: Mnemonic::Cpx, mode: AddressingMode::ZeroPage, cycles: 3 },
        0xE5 => OpInfo { mnemonic: Mnemonic::Sbc, mode: AddressingMode::ZeroPage, cycles: 3 },
        0xE6 => OpInfo { mnemonic: Mnemonic::Inc, mode: AddressingMode::ZeroPage, cycles: 5 },
        0xE7 => OpInfo { mnemonic: Mnemonic::Isc, mode: AddressingMode::ZeroPage, cycles: 5 },
        0xE8 => OpInfo { mnemonic: Mnemonic::Inx, mode: AddressingMode::Implied, cycles: 2 },
        0xE9 => OpInfo { mnemonic: Mnemonic::Sbc, mode: AddressingMode::Immediate, cycles: 2 },
        0xEA => OpInfo { mnemonic: Mnemonic::Nop, mode: AddressingMode::Implied, cycles: 2 },
        0xEB => OpInfo { mnemonic: Mnemonic::Sbc, mode: AddressingMode::Immediate, cycles: 2 },
        0xEC => OpInfo { mnemonic: Mnemonic::Cpx, mode: AddressingMode::Absolute, cycles: 4 },
        0xED => OpInfo { mnemonic: Mnemonic::Sbc, mode: AddressingMode::Absolute, cycles: 4 },
        0xEE => OpInfo { mnemonic: Mnemonic::Inc, mode: AddressingMode::Absolute, cycles: 6 },
        0xEF => OpInfo { mnemonic: Mnemonic::Isc, mode: AddressingMode::Absolute, cycles: 6 },
        0xF0 => OpInfo { mnemonic: Mnemonic::Beq, mode: AddressingMode::Relative, cycles: 2 },
        0xF1 => OpInfo { mnemonic: Mnemonic::Sbc, mode: AddressingMode::IndirectY, cycles: 5 },
        0xF2 => OpInfo { mnemonic: Mnemonic::Jam, mode: AddressingMode::Implied, cycles: 2 },
        0xF3 => OpInfo { mnemonic: Mnemonic::Isc, mode: AddressingMode::IndirectY, cycles: 8 },
        0xF4 => OpInfo { mnemonic: Mnemonic::Nop, mode: AddressingMode::ZeroPageX, cycles: 4 },
        0xF5 => OpInfo { mnemonic: Mnemonic::Sbc, mode: AddressingMode::ZeroPageX, cycles: 4 },
        0xF6 => OpInfo { mnemonic: Mnemonic::Inc, mode: AddressingMode::ZeroPageX, cycles: 6 },
        0xF7 => OpInfo { mnemonic: Mnemonic::Isc, mode: AddressingMode::ZeroPageX, cycles: 6 },
        0xF8 => OpInfo { mnemonic: Mnemonic::Sed, mode: AddressingMode::Implied, cycles: 2 },
        0xF9 => OpInfo { mnemonic: Mnemonic::Sbc, mode: AddressingMode::AbsoluteY, cycles: 4 },
        0xFA => OpInfo { mnemonic: Mnemonic::Nop, mode: AddressingMode::Implied, cycles: 2 },
        0xFB => OpInfo { mnemonic: Mnemonic::Isc, mode: AddressingMode::AbsoluteY, cycles: 7 },
        0xFC => OpInfo { mnemonic: Mnemonic::Nop, mode: AddressingMode::AbsoluteX, cycles: 4 },
        0xFD => OpInfo { mnemonic: Mnemonic::Sbc, mode: AddressingMode::AbsoluteX, cycles: 4 },
        0xFE => OpInfo { mnemonic: Mnemonic::Inc, mode: AddressingMode::AbsoluteX, cycles: 7 },
        _ => OpInfo { mnemonic: Mnemonic::Isc, mode: AddressingMode::AbsoluteX, cycles: 7 },
    }
}

} // verus!
