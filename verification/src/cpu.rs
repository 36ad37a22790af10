//! The 6502-family CPU: registers, status flags, stack, addressing-mode
//! resolution, and the fetch–decode–execute loop.
//!
//! The CPU is generic over the [`Bus`] it is wired to. Every instruction's
//! effect is written once as a pure spec function over ([`CpuState`],
//! bus model); the executable methods are verified to follow those
//! functions exactly, and [`CPU::step`] composes them into a full
//! instruction-level interpreter contract.

use vstd::prelude::*;
use crate::bus::{wrap16, wrap64, wrap8, Bus};
use crate::cpu_ops::instr_effect;
use crate::opcodes::{
    instruction_len, mnemonic_implemented, op_entry, opcode_entry, opcode_implemented, opcode_len,
    Address, AddressingMode, Mnemonic,
};

verus! {

/// Status flag: carry.
pub const FLAG_C: u8 = 0x01;

/// Status flag: zero.
pub const FLAG_Z: u8 = 0x02;

/// Status flag: interrupt disable.
pub const FLAG_I: u8 = 0x04;

/// Status flag: decimal mode (stored but unused by this core).
pub const FLAG_D: u8 = 0x08;

/// Status flag: break (set by `BRK`/`PHP` pushes; this core also uses it
/// as the `BRK` halt marker).
pub const FLAG_B: u8 = 0x10;

/// Status flag: unused bit 5, reads as 1.
pub const FLAG_X: u8 = 0x20;

/// Status flag: overflow.
pub const FLAG_V: u8 = 0x40;

/// Status flag: negative.
pub const FLAG_N: u8 = 0x80;

/// Whether flag `f` is set in status byte `p`.
pub open spec fn flag(p: u8, f: u8) -> bool {
    p & f != 0
}

/// Status byte `p` with flag `f` forced to `on`.
pub open spec fn setf(p: u8, f: u8, on: bool) -> u8 {
    if on {
        p | f
    } else {
        p & !f
    }
}

/// Executable twin of [`setf`].
pub fn set_flag_value(p: u8, f: u8, on: bool) -> (r: u8)
    ensures
        r == setf(p, f, on),
{
    if on {
        p | f
    } else {
        p & !f
    }
}

/// Status byte `p` with the zero and negative flags taken from `value`.
pub open spec fn zn(p: u8, value: u8) -> u8 {
    setf(setf(p, FLAG_Z, value == 0), FLAG_N, value & FLAG_N != 0)
}

/// Sign-extension of a byte into 16 bits.
pub open spec fn sign_extend(value: u8) -> u16 {
    if value & 0x80 != 0 {
        ((value as u16) | 0xFF00) as u16
    } else {
        value as u16
    }
}

/// Executable twin of [`sign_extend`]: widens a raw displacement byte to
/// the 16-bit value it denotes as a signed offset.
pub fn s8_to_u16(value: u8) -> (r: u16)
    ensures
        r == sign_extend(value),
{
    if value & 0x80 != 0 {
        (value as u16) | 0xFF00
    } else {
        value as u16
    }
}

/// The CPU's register file, as one plain value so that instruction
/// semantics can be written as pure functions over it.
pub struct CpuState {
    /// Accumulator `A`.
    pub accumulator: u8,
    /// Index register `X`.
    pub x_register: u8,
    /// Index register `Y`.
    pub y_register: u8,
    /// Program counter.
    pub program_counter: u16,
    /// Stack pointer within page $01.
    pub stack_pointer: u8,
    /// Status register `P`.
    pub status: u8,
    /// Cycles still owed for the instruction in flight.
    pub remaining_cycles: u8,
    /// Total cycles since power-on.
    pub total_cycles: u64,
}

/// Address of the stack cell the stack pointer names, in page $01.
pub open spec fn stack_slot(sp: u8) -> u16 {
    (0x0100 + sp) as u16
}

/// The register file and bus after pushing `value`: the byte goes to the
/// cell under the stack pointer, which then moves down with 8-bit wrap.
pub open spec fn stack_push<B: Bus>(s: CpuState, b: B::V, value: u8) -> (CpuState, B::V) {
    (
        CpuState { stack_pointer: wrap8(s.stack_pointer - 1), ..s },
        B::post_write(b, stack_slot(s.stack_pointer), value),
    )
}

/// The popped byte, register file and bus after a pop: the stack pointer
/// moves up with 8-bit wrap, then the cell under it is read.
pub open spec fn stack_pop<B: Bus>(s: CpuState, b: B::V) -> (u8, CpuState, B::V) {
    let sp = wrap8(s.stack_pointer + 1);
    (
        B::read_value(b, stack_slot(sp)),
        CpuState { stack_pointer: sp, ..s },
        B::post_read(b, stack_slot(sp)),
    )
}

/// Push of a 16-bit value: high byte first, then low.
pub open spec fn stack_push16<B: Bus>(s: CpuState, b: B::V, value: u16) -> (CpuState, B::V) {
    let (s1, b1) = stack_push::<B>(s, b, ((value >> 8) & 0xFF) as u8);
    stack_push::<B>(s1, b1, (value & 0xFF) as u8)
}

/// Pop of a 16-bit value: low byte first, then high.
pub open spec fn stack_pop16<B: Bus>(s: CpuState, b: B::V) -> (u16, CpuState, B::V) {
    let (lo, s1, b1) = stack_pop::<B>(s, b);
    let (hi, s2, b2) = stack_pop::<B>(s1, b1);
    ((((hi as u16) << 8) | (lo as u16)) as u16, s2, b2)
}

/// The resolved operand and the bus after resolution (operand fetches go
/// through the bus and carry its side effects), for each addressing mode.
/// `s.program_counter` already points at the first operand byte.
pub open spec fn resolve_spec<B: Bus>(s: CpuState, b: B::V, mode: AddressingMode) -> (
    Address,
    B::V,
) {
    match mode {
        AddressingMode::Implied => (Address::Implied, b),
        AddressingMode::Immediate => (Address::Absolute(s.program_counter), b),
        AddressingMode::Relative => (
            Address::Relative(B::read_value(b, s.program_counter)),
            B::post_read(b, s.program_counter),
        ),
        AddressingMode::ZeroPage => zero_page_spec::<B>(s, b, 0),
        AddressingMode::ZeroPageX => zero_page_spec::<B>(s, b, s.x_register),
        AddressingMode::ZeroPageY => zero_page_spec::<B>(s, b, s.y_register),
        AddressingMode::Absolute => absolute_spec::<B>(s, b, 0),
        AddressingMode::AbsoluteX => absolute_spec::<B>(s, b, s.x_register),
        AddressingMode::AbsoluteY => absolute_spec::<B>(s, b, s.y_register),
        AddressingMode::Indirect => indirect_spec::<B>(s, b),
        AddressingMode::IndirectX => indirect_x_spec::<B>(s, b),
        AddressingMode::IndirectY => indirect_y_spec::<B>(s, b),
    }
}

/// Zero-page resolution: one operand byte plus the index, wrapping within
/// the zero page.
pub open spec fn zero_page_spec<B: Bus>(s: CpuState, b: B::V, offset: u8) -> (Address, B::V) {
    let operand = B::read_value(b, s.program_counter);
    (
        Address::Absolute(wrap8(operand + offset) as u16),
        B::post_read(b, s.program_counter),
    )
}

/// Absolute resolution: a 16-bit operand plus the index, wrapping in the
/// full address space.
pub open spec fn absolute_spec<B: Bus>(s: CpuState, b: B::V, offset: u8) -> (Address, B::V) {
    let base = crate::bus::read16_value::<B>(b, s.program_counter);
    (
        Address::Absolute(wrap16(base + offset)),
        crate::bus::post_read16::<B>(b, s.program_counter),
    )
}

/// Indirect resolution (`JMP (ptr)`), with the 6502 page-wrap quirk: the
/// high byte comes from the pointer's page, not the next one, when the
/// pointer's low byte is $FF. The high byte is fetched first, as the
/// hardware-facing read order of this core has it.
pub open spec fn indirect_spec<B: Bus>(s: CpuState, b: B::V) -> (Address, B::V) {
    let ptr = crate::bus::read16_value::<B>(b, s.program_counter);
    let b1 = crate::bus::post_read16::<B>(b, s.program_counter);
    let page = ptr & 0xFF00;
    let hi_src = (page | (wrap16(ptr + 1) & 0x00FF)) as u16;
    let hi = B::read_value(b1, hi_src);
    let b2 = B::post_read(b1, hi_src);
    let lo = B::read_value(b2, ptr);
    let b3 = B::post_read(b2, ptr);
    (Address::Absolute((((hi as u16) << 8) | (lo as u16)) as u16), b3)
}

/// Indexed-indirect resolution (`(zp,X)`): the pointer lives in the zero
/// page at `operand + X` with 8-bit wrap; its high byte is fetched first.
pub open spec fn indirect_x_spec<B: Bus>(s: CpuState, b: B::V) -> (Address, B::V) {
    let operand = B::read_value(b, s.program_counter);
    let b1 = B::post_read(b, s.program_counter);
    let ptr = wrap8(operand + s.x_register);
    let hi = B::read_value(b1, wrap8(ptr + 1) as u16);
    let b2 = B::post_read(b1, wrap8(ptr + 1) as u16);
    let lo = B::read_value(b2, ptr as u16);
    let b3 = B::post_read(b2, ptr as u16);
    (Address::Absolute((((hi as u16) << 8) | (lo as u16)) as u16), b3)
}

/// Indirect-indexed resolution (`(zp),Y`): a zero-page pointer with 8-bit
/// wrap, plus `Y` with 16-bit wrap; the pointer's high byte is fetched
/// first.
pub open spec fn indirect_y_spec<B: Bus>(s: CpuState, b: B::V) -> (Address, B::V) {
    let operand = B::read_value(b, s.program_counter);
    let b1 = B::post_read(b, s.program_counter);
    let hi = B::read_value(b1, wrap8(operand + 1) as u16);
    let b2 = B::post_read(b1, wrap8(operand + 1) as u16);
    let lo = B::read_value(b2, operand as u16);
    let b3 = B::post_read(b2, operand as u16);
    (Address::Absolute(wrap16((((hi as u16) << 8) | (lo as u16)) + s.y_register)), b3)
}

/// Why the CPU refused to run further.
#[derive(Debug, Clone, Copy, PartialEq, Eq, Structural)]
pub enum CpuError {
    /// The opcode byte fetched at `pc` names one of the unstable
    /// unofficial instructions (or a halt opcode) this core declines to
    /// execute.
    UnimplementedOpcode {
        /// The offending opcode byte.
        opcode: u8,
        /// Where it was fetched.
        pc: u16,
    },
    /// The step budget ran out before `BRK` set the break flag.
    StepLimit,
}

/// One cycle of latency bookkeeping: the total count rises, the count
/// still owed falls.
pub open spec fn tick(s: CpuState) -> CpuState {
    CpuState {
        total_cycles: wrap64(s.total_cycles + 1),
        remaining_cycles: wrap8(s.remaining_cycles - 1),
        ..s
    }
}

/// One clock cycle of the CPU. With latency still owed it only counts the
/// cycle down. Otherwise it fetches the opcode at the program counter,
/// refuses an unimplemented instruction (registers untouched, the fetch's
/// bus side effect kept), and else resolves the operand, advances the
/// program counter past the instruction, runs the instruction's effect,
/// and charges its base cycle cost.
pub open spec fn cycle_spec<B: Bus>(s: CpuState, b: B::V) -> (CpuState, B::V, Result<
    (),
    CpuError,
>) {
    if s.remaining_cycles == 0 {
        let opcode = B::read_value(b, s.program_counter);
        let b1 = B::post_read(b, s.program_counter);
        let info = op_entry(opcode);
        if !mnemonic_implemented(info.mnemonic) {
            (
                s,
                b1,
                Err(CpuError::UnimplementedOpcode { opcode, pc: s.program_counter }),
            )
        } else {
            let s1 = CpuState { program_counter: wrap16(s.program_counter + 1), ..s };
            let (address, b2) = resolve_spec::<B>(s1, b1, info.mode);
            let s2 = CpuState {
                program_counter: wrap16(s1.program_counter + instruction_len(info.mode) - 1),
                ..s1
            };
            let (s3, b3) = instr_effect::<B>(s2, b2, info.mnemonic, address);
            let s4 = CpuState {
                remaining_cycles: wrap8(s3.remaining_cycles + info.cycles),
                ..s3
            };
            (tick(s4), b3, Ok(()))
        }
    } else {
        (tick(s), b, Ok(()))
    }
}

/// One full instruction: the fetch-and-execute cycle, then the owed
/// cycles counted down to zero in one stroke.
pub open spec fn step_spec<B: Bus>(s: CpuState, b: B::V) -> (CpuState, B::V, Result<
    (),
    CpuError,
>) {
    let (s1, b1, res) = cycle_spec::<B>(s, b);
    if res is Err {
        (s1, b1, res)
    } else {
        (
            CpuState {
                total_cycles: wrap64(s1.total_cycles + s1.remaining_cycles),
                remaining_cycles: 0,
                ..s1
            },
            b1,
            res,
        )
    }
}

/// Up to `fuel` instructions, stopping as soon as the break flag is set;
/// running out of fuel or meeting an unimplemented opcode stops with the
/// error.
pub open spec fn run_spec<B: Bus>(s: CpuState, b: B::V, fuel: nat) -> (CpuState, B::V, Result<
    (),
    CpuError,
>)
    decreases fuel,
{
    if flag(s.status, FLAG_B) {
        (s, b, Ok(()))
    } else if fuel == 0 {
        (s, b, Err(CpuError::StepLimit))
    } else {
        let (s1, b1, res) = step_spec::<B>(s, b);
        if res is Err {
            (s1, b1, res)
        } else {
            run_spec::<B>(s1, b1, (fuel - 1) as nat)
        }
    }
}

/// The instructions that load the program counter themselves: jumps,
/// subroutine calls and returns, and the conditional branches.
pub open spec fn loads_pc(m: Mnemonic) -> bool {
    match m {
        Mnemonic::Jmp => true,
        Mnemonic::Jsr => true,
        Mnemonic::Rts => true,
        Mnemonic::Rti => true,
        Mnemonic::Bcc => true,
        Mnemonic::Bcs => true,
        Mnemonic::Beq => true,
        Mnemonic::Bmi => true,
        Mnemonic::Bne => true,
        Mnemonic::Bpl => true,
        Mnemonic::Bvc => true,
        Mnemonic::Bvs => true,
        _ => false,
    }
}

/// Law: for every opcode, the instruction length determined by its
/// addressing mode lies in 1..=3, and one step advances the program
/// counter by exactly that many bytes whenever the instruction is not
/// itself one that loads the program counter.
#[verifier::rlimit(60)]
pub proof fn lemma_step_advances_pc_by_len<B: Bus>(s: CpuState, b: B::V)
    requires
        s.remaining_cycles == 0,
        mnemonic_implemented(op_entry(B::read_value(b, s.program_counter)).mnemonic),
        !loads_pc(op_entry(B::read_value(b, s.program_counter)).mnemonic),
    ensures
        ({
            let len = instruction_len(op_entry(B::read_value(b, s.program_counter)).mode);
            let (s1, b1, res) = step_spec::<B>(s, b);
            &&& 1 <= len <= 3
            &&& res is Ok
            &&& s1.program_counter == wrap16(s.program_counter + len)
        }),
{
    crate::opcodes::lemma_instruction_len_range(B::read_value(b, s.program_counter));
    reveal(instr_effect);
    let len = instruction_len(op_entry(B::read_value(b, s.program_counter)).mode);
    vstd::arithmetic::div_mod::lemma_add_mod_noop(
        s.program_counter + 1,
        len - 1,
        0x10000,
    );
    vstd::arithmetic::div_mod::lemma_small_mod((len - 1) as nat, 0x10000);
}

/// The 6502-family CPU, wired to a bus.
pub struct CPU<B: Bus> {
    /// Accumulator `A`.
    pub accumulator: u8,
    /// Index register `X`.
    pub x_register: u8,
    /// Index register `Y`.
    pub y_register: u8,
    /// Program counter.
    pub program_counter: u16,
    /// Cycles still owed for the instruction in flight.
    pub remaining_cycles: u8,
    /// The bus the CPU fetches and stores through.
    pub bus: B,
    /// Status register `P`.
    pub status: u8,
    /// Total cycles since power-on.
    pub total_cycles: u64,
    /// Stack pointer within page $01.
    pub stack_pointer: u8,
}

impl<B: Bus> CPU<B> {
    /// The register file as one value.
    pub open spec fn regs(&self) -> CpuState {
        CpuState {
            accumulator: self.accumulator,
            x_register: self.x_register,
            y_register: self.y_register,
            program_counter: self.program_counter,
            stack_pointer: self.stack_pointer,
            status: self.status,
            remaining_cycles: self.remaining_cycles,
            total_cycles: self.total_cycles,
        }
    }

    /// A CPU at power-on: registers clear, stack pointer at $FD, the
    /// unused and interrupt-disable status bits set, and the program
    /// counter at `pc`.
    pub fn new(pc: u16, bus: B) -> (r: CPU<B>)
        ensures
            r.regs() == (CpuState {
                accumulator: 0,
                x_register: 0,
                y_register: 0,
                program_counter: pc,
                stack_pointer: 0xFD,
                status: 0x24,
                remaining_cycles: 0,
                total_cycles: 0,
            }),
            r.bus == bus,
    {
        CPU {
            accumulator: 0x00,
            x_register: 0x00,
            y_register: 0x00,
            program_counter: pc,
            remaining_cycles: 0,
            total_cycles: 0,
            stack_pointer: 0xFD,
            bus,
            status: 0x24,
        }
    }

    /// Set the zero and negative flags from `value`.
    pub(crate) fn set_zero_or_neg_flags(&mut self, value: u8)
        ensures
            final(self).regs() == (CpuState { status: zn(old(self).regs().status, value), ..old(
                self,
            ).regs() }),
            final(self).bus == old(self).bus,
    {
        self.status = set_flag_value(self.status, FLAG_Z, value == 0);
        self.status = set_flag_value(self.status, FLAG_N, value & FLAG_N != 0);
    }

    /// Push one byte onto the stack.
    pub(crate) fn push_stack(&mut self, data: u8)
        ensures
            (final(self).regs(), final(self).bus@) == stack_push::<B>(
                old(self).regs(),
                old(self).bus@,
                data,
            ),
    {
        self.bus.write(0x0100 + (self.stack_pointer as u16), data);
        self.stack_pointer = self.stack_pointer.wrapping_sub(1);
    }

    /// Pop one byte from the stack.
    pub(crate) fn pop_stack(&mut self) -> (r: u8)
        ensures
            ({
                let (value, s, b) = stack_pop::<B>(old(self).regs(), old(self).bus@);
                r == value && final(self).regs() == s && final(self).bus@ == b
            }),
    {
        self.stack_pointer = self.stack_pointer.wrapping_add(1);
        self.bus.read(0x0100 + (self.stack_pointer as u16))
    }

    /// Push a 16-bit value, high byte first.
    pub(crate) fn push_stack_16(&mut self, data: u16)
        ensures
            (final(self).regs(), final(self).bus@) == stack_push16::<B>(
                old(self).regs(),
                old(self).bus@,
                data,
            ),
    {
        self.push_stack(((data >> 8) & 0xFF) as u8);
        self.push_stack((data & 0xFF) as u8);
    }

    /// Pop a 16-bit value, low byte first.
    pub(crate) fn pop_stack_16(&mut self) -> (r: u16)
        ensures
            ({
                let (value, s, b) = stack_pop16::<B>(old(self).regs(), old(self).bus@);
                r == value && final(self).regs() == s && final(self).bus@ == b
            }),
    {
        let lo = self.pop_stack() as u16;
        let hi = self.pop_stack() as u16;
        (hi << 8) | lo
    }

    /// One clock cycle: fetch and run an instruction when no latency is
    /// owed, else count the owed latency down by one.
    fn cycle(&mut self) -> (r: Result<(), CpuError>)
        ensures
            ({
                let (s, b, res) = cycle_spec::<B>(old(self).regs(), old(self).bus@);
                final(self).regs() == s && final(self).bus@ == b && r == res
            }),
    {
        if self.remaining_cycles == 0 {
            let pc = self.program_counter;
            let opcode = self.bus.read(pc);
            let info = opcode_entry(opcode);
            if !opcode_implemented(info.mnemonic) {
                return Err(CpuError::UnimplementedOpcode { opcode, pc });
            }
            self.program_counter = self.program_counter.wrapping_add(1);
            let address = self.resolve_address(info.mode);
            let len = opcode_len(info.mode);
            self.program_counter = self.program_counter.wrapping_add(len - 1);
            self.execute(info.mnemonic, address);
            self.remaining_cycles = self.remaining_cycles.wrapping_add(info.cycles);
        }
        self.total_cycles = self.total_cycles.wrapping_add(1);
        self.remaining_cycles = self.remaining_cycles.wrapping_sub(1);
        Ok(())
    }

    /// Run one complete instruction: after a successful step no cycles
    /// remain owed. On an unimplemented opcode the registers are left
    /// untouched and the error names the opcode byte and its address.
    pub fn step(&mut self) -> (r: Result<(), CpuError>)
        ensures
            ({
                let (s, b, res) = step_spec::<B>(old(self).regs(), old(self).bus@);
                final(self).regs() == s && final(self).bus@ == b && r == res
            }),
            r is Ok ==> final(self).regs().remaining_cycles == 0,
    {
        let first = self.cycle();
        if first.is_err() {
            return first;
        }
        let ghost s1 = cycle_spec::<B>(old(self).regs(), old(self).bus@).0;
        let ghost b1 = cycle_spec::<B>(old(self).regs(), old(self).bus@).1;
        while self.remaining_cycles != 0
            invariant
                self.bus@ == b1,
                self.remaining_cycles <= s1.remaining_cycles,
                self.regs() == (CpuState {
                    total_cycles: wrap64(
                        s1.total_cycles + s1.remaining_cycles - self.remaining_cycles,
                    ),
                    remaining_cycles: self.remaining_cycles,
                    ..s1
                }),
            decreases self.remaining_cycles,
        {
            let again = self.cycle();
        }
        Ok(())
    }

    /// Run instructions until `BRK` sets the break flag, for at most
    /// `max_steps` instructions. Returns the step-limit error when the
    /// budget runs out first, or the decode error of an unimplemented
    /// opcode.
    pub fn run_until_brk(&mut self, max_steps: u64) -> (r: Result<(), CpuError>)
        ensures
            ({
                let (s, b, res) = run_spec::<B>(old(self).regs(), old(self).bus@, max_steps as nat);
                final(self).regs() == s && final(self).bus@ == b && r == res
            }),
            r is Ok ==> flag(final(self).regs().status, FLAG_B),
    {
        let mut steps: u64 = 0;
        loop
            invariant
                steps <= max_steps,
                run_spec::<B>(old(self).regs(), old(self).bus@, max_steps as nat) == run_spec::<B>(
                    self.regs(),
                    self.bus@,
                    (max_steps - steps) as nat,
                ),
            decreases max_steps - steps,
        {
            if self.status & FLAG_B != 0 {
                return Ok(());
            }
            if steps == max_steps {
                return Err(CpuError::StepLimit);
            }
            let res = self.step();
            if res.is_err() {
                return res;
            }
            steps = steps + 1;
        }
    }

    /// Resolve the operand for `mode`; the program counter must already
    /// point at the first operand byte. Operand fetches go through the bus
    /// and carry its side effects; the registers are untouched.
    pub(crate) fn resolve_address(&mut self, mode: AddressingMode) -> (r: Address)
        ensures
            ({
                let (address, b) = resolve_spec::<B>(old(self).regs(), old(self).bus@, mode);
                r == address && final(self).bus@ == b && final(self).regs() == old(self).regs()
            }),
    {
        match mode {
            AddressingMode::Absolute => self.absolute(0),
            AddressingMode::AbsoluteX => self.absolute(self.x_register),
            AddressingMode::AbsoluteY => self.absolute(self.y_register),
            AddressingMode::Immediate => Address::Absolute(self.program_counter),
            AddressingMode::Implied => Address::Implied,
            AddressingMode::Indirect => self.indirect(),
            AddressingMode::IndirectX => self.indirect_x(),
            AddressingMode::IndirectY => self.indirect_y(),
            AddressingMode::Relative => self.relative(),
            AddressingMode::ZeroPage => self.zero_page(0),
            AddressingMode::ZeroPageX => self.zero_page(self.x_register),
            AddressingMode::ZeroPageY => self.zero_page(self.y_register),
        }
    }

    /// Fetch the raw displacement byte of a relative operand.
    pub(crate) fn relative(&mut self) -> (r: Address)
        ensures
            ({
                let (address, b) = resolve_spec::<B>(
                    old(self).regs(),
                    old(self).bus@,
                    AddressingMode::Relative,
                );
                r == address && final(self).bus@ == b && final(self).regs() == old(self).regs()
            }),
    {
        let relative_address = self.bus.read(self.program_counter);
        Address::Relative(relative_address)
    }

    /// Resolve a zero-page operand with the given index.
    pub(crate) fn zero_page(&mut self, offset: u8) -> (r: Address)
        ensures
            ({
                let (address, b) = zero_page_spec::<B>(old(self).regs(), old(self).bus@, offset);
                r == address && final(self).bus@ == b && final(self).regs() == old(self).regs()
            }),
    {
        let address = self.bus.read(self.program_counter).wrapping_add(offset);
        Address::Absolute(address as u16)
    }

    /// Resolve an absolute operand with the given index.
    pub(crate) fn absolute(&mut self, offset: u8) -> (r: Address)
        ensures
            ({
                let (address, b) = absolute_spec::<B>(old(self).regs(), old(self).bus@, offset);
                r == address && final(self).bus@ == b && final(self).regs() == old(self).regs()
            }),
    {
        let address = self.bus.read16(self.program_counter);
        let offset_address: u16 = address.wrapping_add(offset as u16);
        Address::Absolute(offset_address)
    }

    /// Resolve an indirect operand, with the 6502 page-wrap quirk.
    pub(crate) fn indirect(&mut self) -> (r: Address)
        ensures
            ({
                let (address, b) = indirect_spec::<B>(old(self).regs(), old(self).bus@);
                r == address && final(self).bus@ == b && final(self).regs() == old(self).regs()
            }),
    {
        let indirect_address = self.bus.read16(self.program_counter);
        let page = indirect_address & 0xFF00;
        let hi_src = page | (indirect_address.wrapping_add(1) & 0x00FF);
        let address_hi = (self.bus.read(hi_src) as u16) << 8;
        let address_lo = self.bus.read(indirect_address) as u16;
        Address::Absolute(address_hi | address_lo)
    }

    /// Resolve an indexed-indirect (`(zp,X)`) operand.
    pub(crate) fn indirect_x(&mut self) -> (r: Address)
        ensures
            ({
                let (address, b) = indirect_x_spec::<B>(old(self).regs(), old(self).bus@);
                r == address && final(self).bus@ == b && final(self).regs() == old(self).regs()
            }),
    {
        let indirect_address = self.bus.read(self.program_counter).wrapping_add(self.x_register);
        let indirect_address_plus_one = indirect_address.wrapping_add(1) as u16;
        let address_hi = (self.bus.read(indirect_address_plus_one) as u16) << 8;
        let address_lo = self.bus.read(indirect_address as u16) as u16;
        Address::Absolute(address_hi | address_lo)
    }

    /// Resolve an indirect-indexed (`(zp),Y`) operand.
    pub(crate) fn indirect_y(&mut self) -> (r: Address)
        ensures
            ({
                let (address, b) = indirect_y_spec::<B>(old(self).regs(), old(self).bus@);
                r == address && final(self).bus@ == b && final(self).regs() == old(self).regs()
            }),
    {
        let indirect_address = self.bus.read(self.program_counter);
        let indirect_address_plus_one = indirect_address.wrapping_add(1) as u16;
        let address_hi = (self.bus.read(indirect_address_plus_one) as u16) << 8;
        let address_lo = self.bus.read(indirect_address as u16) as u16;
        let address = address_hi | address_lo;
        Address::Absolute(address.wrapping_add(self.y_register as u16))
    }
}

} // verus!
