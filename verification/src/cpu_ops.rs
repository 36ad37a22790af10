//! The instruction set: one pure spec function per instruction over the
//! register file and the bus model, one verified handler per instruction,
//! and the dispatcher that ties a mnemonic to its effect.
//!
//! Handlers take the resolved operand ([`Address`]) and are total: an
//! operand kind an instruction does not use leaves the machine unchanged
//! (the opcode table never produces such a pairing).

use vstd::prelude::*;
use crate::bus::{wrap16, wrap8, Bus};
use crate::cpu::{
    flag, s8_to_u16, set_flag_value, setf, sign_extend, stack_pop, stack_pop16, stack_push,
    stack_push16, zn, CpuState, CPU, FLAG_B, FLAG_C, FLAG_D, FLAG_I, FLAG_N, FLAG_V, FLAG_X,
    FLAG_Z,
};
use crate::opcodes::{Address, Mnemonic};

verus! {

// ---------------------------------------------------------------------
// Arithmetic and logic
// ---------------------------------------------------------------------
/// `ADC`: add memory and carry to the accumulator; C is the carry out, V
/// the signed overflow, Z and N follow the 8-bit result.
pub open spec fn op_adc<B: Bus>(s: CpuState, b: B::V, address: Address) -> (CpuState, B::V) {
    match address {
        Address::Absolute(a) => {
            let value = B::read_value(b, a);
            let carry: int = if flag(s.status, FLAG_C) {
                1
            } else {
                0
            };
            let sum = s.accumulator + value + carry;
            let result = wrap8(sum);
            let p1 = setf(s.status, FLAG_C, sum > 0xFF);
            let p2 = setf(p1, FLAG_V, !(s.accumulator ^ value) & (s.accumulator ^ result) & 0x80
                != 0);
            (
                CpuState { accumulator: result, status: zn(p2, result), ..s },
                B::post_read(b, a),
            )
        },
        _ => (s, b),
    }
}

/// `SBC`: subtract memory from the accumulator with borrow, computed as
/// `A + !M + C`; the overflow rule is the `ADC` rule with the operand
/// inverted.
pub open spec fn op_sbc<B: Bus>(s: CpuState, b: B::V, address: Address) -> (CpuState, B::V) {
    match address {
        Address::Absolute(a) => {
            let value = B::read_value(b, a);
            let carry: int = if flag(s.status, FLAG_C) {
                1
            } else {
                0
            };
            let sum = s.accumulator + (!value) + carry;
            let result = wrap8(sum);
            let p1 = setf(s.status, FLAG_C, sum > 0xFF);
            let p2 = setf(p1, FLAG_Z, result == 0);
            let p3 = setf(p2, FLAG_V, (s.accumulator ^ value) & (s.accumulator ^ result) & 0x80
                != 0);
            let p4 = setf(p3, FLAG_N, result & FLAG_N != 0);
            (CpuState { accumulator: result, status: p4, ..s }, B::post_read(b, a))
        },
        _ => (s, b),
    }
}

/// `AND`: bitwise and into the accumulator; Z and N follow the result.
pub open spec fn op_and<B: Bus>(s: CpuState, b: B::V, address: Address) -> (CpuState, B::V) {
    match address {
        Address::Absolute(a) => {
            let result = (s.accumulator & B::read_value(b, a)) as u8;
            (
                CpuState { accumulator: result, status: zn(s.status, result), ..s },
                B::post_read(b, a),
            )
        },
        _ => (s, b),
    }
}

/// `ORA`: bitwise or into the accumulator; Z and N follow the result.
pub open spec fn op_ora<B: Bus>(s: CpuState, b: B::V, address: Address) -> (CpuState, B::V) {
    match address {
        Address::Absolute(a) => {
            let result = (s.accumulator | B::read_value(b, a)) as u8;
            (
                CpuState { accumulator: result, status: zn(s.status, result), ..s },
                B::post_read(b, a),
            )
        },
        _ => (s, b),
    }
}

/// `EOR`: bitwise exclusive-or into the accumulator; Z and N follow the
/// result.
pub open spec fn op_eor<B: Bus>(s: CpuState, b: B::V, address: Address) -> (CpuState, B::V) {
    match address {
        Address::Absolute(a) => {
            let result = (s.accumulator ^ B::read_value(b, a)) as u8;
            (
                CpuState { accumulator: result, status: zn(s.status, result), ..s },
                B::post_read(b, a),
            )
        },
        _ => (s, b),
    }
}

/// `BIT`: Z from `A & M`, V from bit 6 of memory, N from bit 7.
pub open spec fn op_bit<B: Bus>(s: CpuState, b: B::V, address: Address) -> (CpuState, B::V) {
    match address {
        Address::Absolute(a) => {
            let value = B::read_value(b, a);
            let p1 = setf(s.status, FLAG_Z, s.accumulator & value == 0);
            let p2 = setf(p1, FLAG_V, value & FLAG_V != 0);
            let p3 = setf(p2, FLAG_N, value & FLAG_N != 0);
            (CpuState { status: p3, ..s }, B::post_read(b, a))
        },
        _ => (s, b),
    }
}

/// The comparison shared by `CMP`, `CPX` and `CPY`: C when the register is
/// at least the operand, Z and N from the byte difference.
pub open spec fn compare_spec<B: Bus>(s: CpuState, b: B::V, address: Address, register: u8) -> (
    CpuState,
    B::V,
) {
    match address {
        Address::Absolute(a) => {
            let value = B::read_value(b, a);
            let p1 = setf(s.status, FLAG_C, register >= value);
            (
                CpuState { status: zn(p1, wrap8(register - value)), ..s },
                B::post_read(b, a),
            )
        },
        _ => (s, b),
    }
}

// ---------------------------------------------------------------------
// Shifts and rotates
// ---------------------------------------------------------------------
/// One left shift: carry out of bit 7, Z and N from the shifted value.
pub open spec fn asl_value(p: u8, value: u8) -> (u8, u8) {
    let shifted = (value << 1) as u8;
    let p1 = setf(p, FLAG_C, value >> 7 == 1);
    let p2 = setf(p1, FLAG_Z, shifted == 0);
    let p3 = setf(p2, FLAG_N, shifted & FLAG_N != 0);
    (shifted, p3)
}

/// One right shift: carry out of bit 0, Z from the shifted value, N
/// cleared.
pub open spec fn lsr_value(p: u8, value: u8) -> (u8, u8) {
    let shifted = (value >> 1) as u8;
    let p1 = setf(p, FLAG_C, value & 1 == 1);
    let p2 = setf(p1, FLAG_Z, shifted == 0);
    let p3 = setf(p2, FLAG_N, false);
    (shifted, p3)
}

/// One left rotate through carry.
pub open spec fn rol_value(p: u8, value: u8) -> (u8, u8) {
    let carry: u8 = if flag(p, FLAG_C) {
        1
    } else {
        0
    };
    let rotated = ((value << 1) | carry) as u8;
    let p1 = setf(p, FLAG_C, value >> 7 == 1);
    let p2 = setf(p1, FLAG_Z, rotated == 0);
    let p3 = setf(p2, FLAG_N, rotated & FLAG_N != 0);
    (rotated, p3)
}

/// One right rotate through carry.
pub open spec fn ror_value(p: u8, value: u8) -> (u8, u8) {
    let carry: u8 = if flag(p, FLAG_C) {
        1
    } else {
        0
    };
    let rotated = ((value >> 1) | (carry << 7)) as u8;
    let p1 = setf(p, FLAG_C, value & 1 == 1);
    let p2 = setf(p1, FLAG_Z, rotated == 0);
    let p3 = setf(p2, FLAG_N, rotated & FLAG_N != 0);
    (rotated, p3)
}

/// A read-modify-write instruction: on the accumulator for an implied
/// operand, else read from memory, transform, and write back.
pub open spec fn rmw_effect<B: Bus>(
    s: CpuState,
    b: B::V,
    address: Address,
    new_value: u8,
    new_status: u8,
) -> (CpuState, B::V) {
    match address {
        Address::Implied => (CpuState { accumulator: new_value, status: new_status, ..s }, b),
        Address::Absolute(a) => (
            CpuState { status: new_status, ..s },
            B::post_write(B::post_read(b, a), a, new_value),
        ),
        _ => (s, b),
    }
}

/// `ASL` over the resolved operand.
pub open spec fn op_asl<B: Bus>(s: CpuState, b: B::V, address: Address) -> (CpuState, B::V) {
    let source = match address {
        Address::Implied => s.accumulator,
        Address::Absolute(a) => B::read_value(b, a),
        _ => 0u8,
    };
    let (new_value, new_status) = asl_value(s.status, source);
    rmw_effect::<B>(s, b, address, new_value, new_status)
}

/// `LSR` over the resolved operand.
pub open spec fn op_lsr<B: Bus>(s: CpuState, b: B::V, address: Address) -> (CpuState, B::V) {
    let source = match address {
        Address::Implied => s.accumulator,
        Address::Absolute(a) => B::read_value(b, a),
        _ => 0u8,
    };
    let (new_value, new_status) = lsr_value(s.status, source);
    rmw_effect::<B>(s, b, address, new_value, new_status)
}

/// `ROL` over the resolved operand.
pub open spec fn op_rol<B: Bus>(s: CpuState, b: B::V, address: Address) -> (CpuState, B::V) {
    let source = match address {
        Address::Implied => s.accumulator,
        Address::Absolute(a) => B::read_value(b, a),
        _ => 0u8,
    };
    let (new_value, new_status) = rol_value(s.status, source);
    rmw_effect::<B>(s, b, address, new_value, new_status)
}

/// `ROR` over the resolved operand.
pub open spec fn op_ror<B: Bus>(s: CpuState, b: B::V, address: Address) -> (CpuState, B::V) {
    let source = match address {
        Address::Implied => s.accumulator,
        Address::Absolute(a) => B::read_value(b, a),
        _ => 0u8,
    };
    let (new_value, new_status) = ror_value(s.status, source);
    rmw_effect::<B>(s, b, address, new_value, new_status)
}

// ---------------------------------------------------------------------
// Memory increment / decrement
// ---------------------------------------------------------------------
/// `INC`: add one to a memory byte with wrap; Z and N follow the result.
pub open spec fn op_inc<B: Bus>(s: CpuState, b: B::V, address: Address) -> (CpuState, B::V) {
    match address {
        Address::Absolute(a) => {
            let value = wrap8(B::read_value(b, a) + 1);
            (
                CpuState { status: zn(s.status, value), ..s },
                B::post_write(B::post_read(b, a), a, value),
            )
        },
        _ => (s, b),
    }
}

/// `DEC`: subtract one from a memory byte with wrap; Z and N follow the
/// result.
pub open spec fn op_dec<B: Bus>(s: CpuState, b: B::V, address: Address) -> (CpuState, B::V) {
    match address {
        Address::Absolute(a) => {
            let value = wrap8(B::read_value(b, a) - 1);
            (
                CpuState { status: zn(s.status, value), ..s },
                B::post_write(B::post_read(b, a), a, value),
            )
        },
        _ => (s, b),
    }
}

// ---------------------------------------------------------------------
// Loads, stores, transfers
// ---------------------------------------------------------------------
/// `LDA`: load the accumulator; Z and N follow the value.
pub open spec fn op_lda<B: Bus>(s: CpuState, b: B::V, address: Address) -> (CpuState, B::V) {
    match address {
        Address::Absolute(a) => {
            let value = B::read_value(b, a);
            (
                CpuState { accumulator: value, status: zn(s.status, value), ..s },
                B::post_read(b, a),
            )
        },
        _ => (s, b),
    }
}

/// `LDX`: load `X`; Z and N follow the value.
pub open spec fn op_ldx<B: Bus>(s: CpuState, b: B::V, address: Address) -> (CpuState, B::V) {
    match address {
        Address::Absolute(a) => {
            let value = B::read_value(b, a);
            (
                CpuState { x_register: value, status: zn(s.status, value), ..s },
                B::post_read(b, a),
            )
        },
        _ => (s, b),
    }
}

/// `LDY`: load `Y`; Z and N follow the value.
pub open spec fn op_ldy<B: Bus>(s: CpuState, b: B::V, address: Address) -> (CpuState, B::V) {
    match address {
        Address::Absolute(a) => {
            let value = B::read_value(b, a);
            (
                CpuState { y_register: value, status: zn(s.status, value), ..s },
                B::post_read(b, a),
            )
        },
        _ => (s, b),
    }
}

/// A plain store of `value` to the resolved address, flags untouched.
pub open spec fn store_effect<B: Bus>(s: CpuState, b: B::V, address: Address, value: u8) -> (
    CpuState,
    B::V,
) {
    match address {
        Address::Absolute(a) => (s, B::post_write(b, a, value)),
        _ => (s, b),
    }
}

// ---------------------------------------------------------------------
// Branches, jumps, subroutines
// ---------------------------------------------------------------------
/// A conditional branch: when taken, the sign-extended displacement is
/// added to the program counter; a taken branch costs one extra cycle,
/// two when it lands on a different 256-byte page.
pub open spec fn branch_taken(s: CpuState, displacement: u8, cond: bool) -> CpuState {
    let target = wrap16(sign_extend(displacement) + s.program_counter);
    if cond {
        let extra: u8 = if target & 0xFF00 != s.program_counter & 0xFF00 {
            2
        } else {
            1
        };
        CpuState {
            program_counter: target,
            remaining_cycles: wrap8(s.remaining_cycles + extra),
            ..s
        }
    } else {
        s
    }
}

/// A branch instruction over the resolved operand.
pub open spec fn branch_effect<B: Bus>(s: CpuState, b: B::V, address: Address, cond: bool) -> (
    CpuState,
    B::V,
) {
    match address {
        Address::Relative(d) => (branch_taken(s, d, cond), b),
        _ => (s, b),
    }
}

/// `JMP`: load the program counter with the resolved address.
pub open spec fn op_jmp<B: Bus>(s: CpuState, b: B::V, address: Address) -> (CpuState, B::V) {
    match address {
        Address::Absolute(a) => (CpuState { program_counter: a, ..s }, b),
        _ => (s, b),
    }
}

/// `JSR`: push the address of the instruction's last byte (`PC - 1`),
/// then jump.
pub open spec fn op_jsr<B: Bus>(s: CpuState, b: B::V, address: Address) -> (CpuState, B::V) {
    match address {
        Address::Absolute(a) => {
            let (s1, b1) = stack_push16::<B>(s, b, wrap16(s.program_counter - 1));
            (CpuState { program_counter: a, ..s1 }, b1)
        },
        _ => (s, b),
    }
}

/// `RTS`: pop the return address and resume one byte past it.
pub open spec fn op_rts<B: Bus>(s: CpuState, b: B::V) -> (CpuState, B::V) {
    let (value, s1, b1) = stack_pop16::<B>(s, b);
    (CpuState { program_counter: wrap16(value + 1), ..s1 }, b1)
}

/// `BRK`, in this core's halt interpretation: set the break flag so that
/// `run_until_brk` returns; no interrupt sequence is performed.
pub open spec fn op_brk(s: CpuState) -> CpuState {
    CpuState { status: (s.status | FLAG_B) as u8, ..s }
}

// ---------------------------------------------------------------------
// Stack instructions
// ---------------------------------------------------------------------
/// `PHA`: push the accumulator.
pub open spec fn op_pha<B: Bus>(s: CpuState, b: B::V) -> (CpuState, B::V) {
    stack_push::<B>(s, b, s.accumulator)
}

/// `PHP`: push the status byte with the break and unused bits set.
pub open spec fn op_php<B: Bus>(s: CpuState, b: B::V) -> (CpuState, B::V) {
    stack_push::<B>(s, b, (s.status | FLAG_B | FLAG_X) as u8)
}

/// `PLA`: pop into the accumulator; Z and N follow the value.
pub open spec fn op_pla<B: Bus>(s: CpuState, b: B::V) -> (CpuState, B::V) {
    let (value, s1, b1) = stack_pop::<B>(s, b);
    (CpuState { accumulator: value, status: zn(s1.status, value), ..s1 }, b1)
}

/// `PLP`: pop into the status register, but keep the caller's break and
/// unused bits.
pub open spec fn op_plp<B: Bus>(s: CpuState, b: B::V) -> (CpuState, B::V) {
    let (value, s1, b1) = stack_pop::<B>(s, b);
    let p1 = setf(value, FLAG_B, flag(s.status, FLAG_B));
    let p2 = setf(p1, FLAG_X, flag(s.status, FLAG_X));
    (CpuState { status: p2, ..s1 }, b1)
}

/// `RTI`: restore the status register as `PLP` does, then pop the program
/// counter.
pub open spec fn op_rti<B: Bus>(s: CpuState, b: B::V) -> (CpuState, B::V) {
    let (s1, b1) = op_plp::<B>(s, b);
    let (value, s2, b2) = stack_pop16::<B>(s1, b1);
    (CpuState { program_counter: value, ..s2 }, b2)
}

// ---------------------------------------------------------------------
// The dispatcher
// ---------------------------------------------------------------------
/// The effect of one instruction on the register file and the bus model.
/// The unstable unofficial opcodes and the halt opcodes have no effect
/// here: the fetch logic refuses them before dispatch.
#[verifier::opaque]
pub open spec fn instr_effect<B: Bus>(s: CpuState, b: B::V, m: Mnemonic, address: Address) -> (
    CpuState,
    B::V,
) {
    match m {
        Mnemonic::Adc => op_adc::<B>(s, b, address),
        Mnemonic::Alr => {
            let (s1, b1) = op_and::<B>(s, b, address);
            op_lsr::<B>(s1, b1, Address::Implied)
        },
        Mnemonic::Anc => {
            let (s1, b1) = op_and::<B>(s, b, address);
            (
                CpuState { status: setf(s1.status, FLAG_C, s1.accumulator >> 7 == 1), ..s1 },
                b1,
            )
        },
        Mnemonic::And => op_and::<B>(s, b, address),
        Mnemonic::Asl => op_asl::<B>(s, b, address),
        Mnemonic::Bcc => branch_effect::<B>(s, b, address, !flag(s.status, FLAG_C)),
        Mnemonic::Bcs => branch_effect::<B>(s, b, address, flag(s.status, FLAG_C)),
        Mnemonic::Beq => branch_effect::<B>(s, b, address, flag(s.status, FLAG_Z)),
        Mnemonic::Bit => op_bit::<B>(s, b, address),
        Mnemonic::Bmi => branch_effect::<B>(s, b, address, flag(s.status, FLAG_N)),
        Mnemonic::Bne => branch_effect::<B>(s, b, address, !flag(s.status, FLAG_Z)),
        Mnemonic::Bpl => branch_effect::<B>(s, b, address, !flag(s.status, FLAG_N)),
        Mnemonic::Brk => (op_brk(s), b),
        Mnemonic::Bvc => branch_effect::<B>(s, b, address, !flag(s.status, FLAG_V)),
        Mnemonic::Bvs => branch_effect::<B>(s, b, address, flag(s.status, FLAG_V)),
        Mnemonic::Clc => (CpuState { status: (s.status & !FLAG_C) as u8, ..s }, b),
        Mnemonic::Cld => (CpuState { status: (s.status & !FLAG_D) as u8, ..s }, b),
        Mnemonic::Cli => (CpuState { status: (s.status & !FLAG_I) as u8, ..s }, b),
        Mnemonic::Clv => (CpuState { status: (s.status & !FLAG_V) as u8, ..s }, b),
        Mnemonic::Cmp => compare_spec::<B>(s, b, address, s.accumulator),
        Mnemonic::Cpx => compare_spec::<B>(s, b, address, s.x_register),
        Mnemonic::Cpy => compare_spec::<B>(s, b, address, s.y_register),
        Mnemonic::Dcp => {
            let (s1, b1) = op_dec::<B>(s, b, address);
            compare_spec::<B>(s1, b1, address, s1.accumulator)
        },
        Mnemonic::Dec => op_dec::<B>(s, b, address),
        Mnemonic::Dex => {
            let value = wrap8(s.x_register - 1);
            (CpuState { x_register: value, status: zn(s.status, value), ..s }, b)
        },
        Mnemonic::Dey => {
            let value = wrap8(s.y_register - 1);
            (CpuState { y_register: value, status: zn(s.status, value), ..s }, b)
        },
        Mnemonic::Eor => op_eor::<B>(s, b, address),
        Mnemonic::Inc => op_inc::<B>(s, b, address),
        Mnemonic::Inx => {
            let value = wrap8(s.x_register + 1);
            (CpuState { x_register: value, status: zn(s.status, value), ..s }, b)
        },
        Mnemonic::Iny => {
            let value = wrap8(s.y_register + 1);
            (CpuState { y_register: value, status: zn(s.status, value), ..s }, b)
        },
        Mnemonic::Isc => {
            let (s1, b1) = op_inc::<B>(s, b, address);
            op_sbc::<B>(s1, b1, address)
        },
        Mnemonic::Jmp => op_jmp::<B>(s, b, address),
        Mnemonic::Jsr => op_jsr::<B>(s, b, address),
        Mnemonic::Lax => {
            let (s1, b1) = op_lda::<B>(s, b, address);
            op_ldx::<B>(s1, b1, address)
        },
        Mnemonic::Lda => op_lda::<B>(s, b, address),
        Mnemonic::Ldx => op_ldx::<B>(s, b, address),
        Mnemonic::Ldy => op_ldy::<B>(s, b, address),
        Mnemonic::Lsr => op_lsr::<B>(s, b, address),
        Mnemonic::Nop => (s, b),
        Mnemonic::Ora => op_ora::<B>(s, b, address),
        Mnemonic::Pha => op_pha::<B>(s, b),
        Mnemonic::Php => op_php::<B>(s, b),
        Mnemonic::Pla => op_pla::<B>(s, b),
        Mnemonic::Plp => op_plp::<B>(s, b),
        Mnemonic::Rla => {
            let (s1, b1) = op_rol::<B>(s, b, address);
            op_and::<B>(s1, b1, address)
        },
        Mnemonic::Rol => op_rol::<B>(s, b, address),
        Mnemonic::Ror => op_ror::<B>(s, b, address),
        Mnemonic::Rra => {
            let (s1, b1) = op_ror::<B>(s, b, address);
            op_adc::<B>(s1, b1, address)
        },
        Mnemonic::Rti => op_rti::<B>(s, b),
        Mnemonic::Rts => op_rts::<B>(s, b),
        Mnemonic::Sax => store_effect::<B>(s, b, address, (s.accumulator & s.x_register) as u8),
        Mnemonic::Sbc => op_sbc::<B>(s, b, address),
        Mnemonic::Sec => (CpuState { status: (s.status | FLAG_C) as u8, ..s }, b),
        Mnemonic::Sed => (CpuState { status: (s.status | FLAG_D) as u8, ..s }, b),
        Mnemonic::Sei => (CpuState { status: (s.status | FLAG_I) as u8, ..s }, b),
        Mnemonic::Slo => {
            let (s1, b1) = op_asl::<B>(s, b, address);
            op_ora::<B>(s1, b1, address)
        },
        Mnemonic::Sre => {
            let (s1, b1) = op_lsr::<B>(s, b, address);
            op_eor::<B>(s1, b1, address)
        },
        Mnemonic::Sta => store_effect::<B>(s, b, address, s.accumulator),
        Mnemonic::Stx => store_effect::<B>(s, b, address, s.x_register),
        Mnemonic::Sty => store_effect::<B>(s, b, address, s.y_register),
        Mnemonic::Tax => (
            CpuState {
                x_register: s.accumulator,
                status: zn(s.status, s.accumulator),
                ..s
            },
            b,
        ),
        Mnemonic::Tay => (
            CpuState {
                y_register: s.accumulator,
                status: zn(s.status, s.accumulator),
                ..s
            },
            b,
        ),
        Mnemonic::Tsx => (
            CpuState {
                x_register: s.stack_pointer,
                status: zn(s.status, s.stack_pointer),
                ..s
            },
            b,
        ),
        Mnemonic::Txa => (
            CpuState {
                accumulator: s.x_register,
                status: zn(s.status, s.x_register),
                ..s
            },
            b,
        ),
        Mnemonic::Txs => (CpuState { stack_pointer: s.x_register, ..s }, b),
        Mnemonic::Tya => (
            CpuState {
                accumulator: s.y_register,
                status: zn(s.status, s.y_register),
                ..s
            },
            b,
        ),
        _ => (s, b),
    }
}

impl<B: Bus> CPU<B> {
    /// `ADC`.
    pub(crate) fn adc(&mut self, address: Address)
        ensures
            (final(self).regs(), final(self).bus@) == op_adc::<B>(
                old(self).regs(),
                old(self).bus@,
                address,
            ),
    {
        match address {
            Address::Absolute(a) => {
                let value = self.bus.read(a);
                let carry: u16 = if self.status & FLAG_C != 0 {
                    1
                } else {
                    0
                };
                let result: u16 = (self.accumulator as u16) + (value as u16) + carry;
                let result_u8: u8 = (result % 256) as u8;
                self.status = set_flag_value(self.status, FLAG_C, result > 0xFF);
                self.status = set_flag_value(
                    self.status,
                    FLAG_V,
                    !(self.accumulator ^ value) & (self.accumulator ^ result_u8) & 0x80 != 0,
                );
                self.set_zero_or_neg_flags(result_u8);
                self.accumulator = result_u8;
            },
            _ => {},
        }
    }

    /// `SBC`.
    pub(crate) fn sbc(&mut self, address: Address)
        ensures
            (final(self).regs(), final(self).bus@) == op_sbc::<B>(
                old(self).regs(),
                old(self).bus@,
                address,
            ),
    {
        match address {
            Address::Absolute(a) => {
                let value = self.bus.read(a);
                let carry: u16 = if self.status & FLAG_C != 0 {
                    1
                } else {
                    0
                };
                let result: u16 = (self.accumulator as u16) + ((!value) as u16) + carry;
                let result_u8: u8 = (result % 256) as u8;
                self.status = set_flag_value(self.status, FLAG_C, result > 0xFF);
                self.status = set_flag_value(self.status, FLAG_Z, result_u8 == 0);
                self.status = set_flag_value(
                    self.status,
                    FLAG_V,
                    (self.accumulator ^ value) & (self.accumulator ^ result_u8) & 0x80 != 0,
                );
                self.status = set_flag_value(self.status, FLAG_N, result_u8 & FLAG_N != 0);
                self.accumulator = result_u8;
            },
            _ => {},
        }
    }

    /// `AND`.
    pub(crate) fn and(&mut self, address: Address)
        ensures
            (final(self).regs(), final(self).bus@) == op_and::<B>(
                old(self).regs(),
                old(self).bus@,
                address,
            ),
    {
        match address {
            Address::Absolute(a) => {
                let value = self.bus.read(a);
                self.accumulator = self.accumulator & value;
                let result = self.accumulator;
                self.set_zero_or_neg_flags(result);
            },
            _ => {},
        }
    }

    /// `ORA`.
    pub(crate) fn ora(&mut self, address: Address)
        ensures
            (final(self).regs(), final(self).bus@) == op_ora::<B>(
                old(self).regs(),
                old(self).bus@,
                address,
            ),
    {
        match address {
            Address::Absolute(a) => {
                let value = self.bus.read(a);
                self.accumulator = self.accumulator | value;
                let result = self.accumulator;
                self.set_zero_or_neg_flags(result);
            },
            _ => {},
        }
    }

    /// `EOR`.
    pub(crate) fn eor(&mut self, address: Address)
        ensures
            (final(self).regs(), final(self).bus@) == op_eor::<B>(
                old(self).regs(),
                old(self).bus@,
                address,
            ),
    {
        match address {
            Address::Absolute(a) => {
                let value = self.bus.read(a);
                self.accumulator = self.accumulator ^ value;
                let result = self.accumulator;
                self.set_zero_or_neg_flags(result);
            },
            _ => {},
        }
    }

    /// `BIT`.
    pub(crate) fn bit(&mut self, address: Address)
        ensures
            (final(self).regs(), final(self).bus@) == op_bit::<B>(
                old(self).regs(),
                old(self).bus@,
                address,
            ),
    {
        match address {
            Address::Absolute(a) => {
                let value = self.bus.read(a);
                self.status = set_flag_value(self.status, FLAG_Z, self.accumulator & value == 0);
                self.status = set_flag_value(self.status, FLAG_V, value & FLAG_V != 0);
                self.status = set_flag_value(self.status, FLAG_N, value & FLAG_N != 0);
            },
            _ => {},
        }
    }

    /// The comparison shared by `CMP`, `CPX` and `CPY`.
    pub(crate) fn compare(&mut self, address: Address, register_value: u8)
        ensures
            (final(self).regs(), final(self).bus@) == compare_spec::<B>(
                old(self).regs(),
                old(self).bus@,
                address,
                register_value,
            ),
    {
        match address {
            Address::Absolute(a) => {
                let value = self.bus.read(a);
                self.status = set_flag_value(self.status, FLAG_C, register_value >= value);
                let cmp = register_value.wrapping_sub(value);
                self.set_zero_or_neg_flags(cmp);
            },
            _ => {},
        }
    }

    /// `CMP`.
    pub(crate) fn cmp(&mut self, address: Address)
        ensures
            (final(self).regs(), final(self).bus@) == compare_spec::<B>(
                old(self).regs(),
                old(self).bus@,
                address,
                old(self).regs().accumulator,
            ),
    {
        let register_value = self.accumulator;
        self.compare(address, register_value);
    }

    /// `CPX`.
    pub(crate) fn cpx(&mut self, address: Address)
        ensures
            (final(self).regs(), final(self).bus@) == compare_spec::<B>(
                old(self).regs(),
                old(self).bus@,
                address,
                old(self).regs().x_register,
            ),
    {
        let register_value = self.x_register;
        self.compare(address, register_value);
    }

    /// `CPY`.
    pub(crate) fn cpy(&mut self, address: Address)
        ensures
            (final(self).regs(), final(self).bus@) == compare_spec::<B>(
                old(self).regs(),
                old(self).bus@,
                address,
                old(self).regs().y_register,
            ),
    {
        let register_value = self.y_register;
        self.compare(address, register_value);
    }

    /// `ASL`.
    pub(crate) fn asl(&mut self, address: Address)
        ensures
            (final(self).regs(), final(self).bus@) == op_asl::<B>(
                old(self).regs(),
                old(self).bus@,
                address,
            ),
    {
        match address {
            Address::Implied => {
                let value = self.accumulator;
                self.status = set_flag_value(self.status, FLAG_C, value >> 7 == 1);
                let shifted = value << 1;
                self.status = set_flag_value(self.status, FLAG_Z, shifted == 0);
                self.status = set_flag_value(self.status, FLAG_N, shifted & FLAG_N != 0);
                self.accumulator = shifted;
            },
            Address::Absolute(a) => {
                let value = self.bus.read(a);
                self.status = set_flag_value(self.status, FLAG_C, value >> 7 == 1);
                let shifted = value << 1;
                self.status = set_flag_value(self.status, FLAG_Z, shifted == 0);
                self.status = set_flag_value(self.status, FLAG_N, shifted & FLAG_N != 0);
                self.bus.write(a, shifted);
            },
            _ => {},
        }
    }

    /// `LSR`.
    pub(crate) fn lsr(&mut self, address: Address)
        ensures
            (final(self).regs(), final(self).bus@) == op_lsr::<B>(
                old(self).regs(),
                old(self).bus@,
                address,
            ),
    {
        match address {
            Address::Implied => {
                let value = self.accumulator;
                self.status = set_flag_value(self.status, FLAG_C, value & 1 == 1);
                let shifted = value >> 1;
                self.status = set_flag_value(self.status, FLAG_Z, shifted == 0);
                self.status = set_flag_value(self.status, FLAG_N, false);
                self.accumulator = shifted;
            },
            Address::Absolute(a) => {
                let value = self.bus.read(a);
                self.status = set_flag_value(self.status, FLAG_C, value & 1 == 1);
                let shifted = value >> 1;
                self.status = set_flag_value(self.status, FLAG_Z, shifted == 0);
                self.status = set_flag_value(self.status, FLAG_N, false);
                self.bus.write(a, shifted);
            },
            _ => {},
        }
    }

    /// `ROL`.
    pub(crate) fn rol(&mut self, address: Address)
        ensures
            (final(self).regs(), final(self).bus@) == op_rol::<B>(
                old(self).regs(),
                old(self).bus@,
                address,
            ),
    {
        let carry: u8 = if self.status & FLAG_C != 0 {
            1
        } else {
            0
        };
        match address {
            Address::Implied => {
                let value = self.accumulator;
                self.status = set_flag_value(self.status, FLAG_C, value >> 7 == 1);
                let rotated = (value << 1) | carry;
                self.status = set_flag_value(self.status, FLAG_Z, rotated == 0);
                self.status = set_flag_value(self.status, FLAG_N, rotated & FLAG_N != 0);
                self.accumulator = rotated;
            },
            Address::Absolute(a) => {
                let value = self.bus.read(a);
                self.status = set_flag_value(self.status, FLAG_C, value >> 7 == 1);
                let rotated = (value << 1) | carry;
                self.status = set_flag_value(self.status, FLAG_Z, rotated == 0);
                self.status = set_flag_value(self.status, FLAG_N, rotated & FLAG_N != 0);
                self.bus.write(a, rotated);
            },
            _ => {},
        }
    }

    /// `ROR`.
    pub(crate) fn ror(&mut self, address: Address)
        ensures
            (final(self).regs(), final(self).bus@) == op_ror::<B>(
                old(self).regs(),
                old(self).bus@,
                address,
            ),
    {
        let carry: u8 = if self.status & FLAG_C != 0 {
            1
        } else {
            0
        };
        match address {
            Address::Implied => {
                let value = self.accumulator;
                self.status = set_flag_value(self.status, FLAG_C, value & 1 == 1);
                let rotated = (value >> 1) | (carry << 7);
                self.status = set_flag_value(self.status, FLAG_Z, rotated == 0);
                self.status = set_flag_value(self.status, FLAG_N, rotated & FLAG_N != 0);
                self.accumulator = rotated;
            },
            Address::Absolute(a) => {
                let value = self.bus.read(a);
                self.status = set_flag_value(self.status, FLAG_C, value & 1 == 1);
                let rotated = (value >> 1) | (carry << 7);
                self.status = set_flag_value(self.status, FLAG_Z, rotated == 0);
                self.status = set_flag_value(self.status, FLAG_N, rotated & FLAG_N != 0);
                self.bus.write(a, rotated);
            },
            _ => {},
        }
    }

    /// `INC`.
    pub(crate) fn inc(&mut self, address: Address)
        ensures
            (final(self).regs(), final(self).bus@) == op_inc::<B>(
                old(self).regs(),
                old(self).bus@,
                address,
            ),
    {
        match address {
            Address::Absolute(a) => {
                let value = self.bus.read(a).wrapping_add(1);
                self.set_zero_or_neg_flags(value);
                self.bus.write(a, value);
            },
            _ => {},
        }
    }

    /// `DEC`.
    pub(crate) fn dec(&mut self, address: Address)
        ensures
            (final(self).regs(), final(self).bus@) == op_dec::<B>(
                old(self).regs(),
                old(self).bus@,
                address,
            ),
    {
        match address {
            Address::Absolute(a) => {
                let value = self.bus.read(a).wrapping_sub(1);
                self.set_zero_or_neg_flags(value);
                self.bus.write(a, value);
            },
            _ => {},
        }
    }

    /// `INX`.
    pub(crate) fn inx(&mut self, _address: Address)
        ensures
            (final(self).regs(), final(self).bus@) == instr_effect::<B>(
                old(self).regs(),
                old(self).bus@,
                Mnemonic::Inx,
                _address,
            ),
    {
        proof {
            reveal(instr_effect);
        }
        self.x_register = self.x_register.wrapping_add(1);
        let value = self.x_register;
        self.set_zero_or_neg_flags(value);
    }

    /// `INY`.
    pub(crate) fn iny(&mut self, _address: Address)
        ensures
            (final(self).regs(), final(self).bus@) == instr_effect::<B>(
                old(self).regs(),
                old(self).bus@,
                Mnemonic::Iny,
                _address,
            ),
    {
        proof {
            reveal(instr_effect);
        }
        self.y_register = self.y_register.wrapping_add(1);
        let value = self.y_register;
        self.set_zero_or_neg_flags(value);
    }

    /// `DEX`.
    pub(crate) fn dex(&mut self, _address: Address)
        ensures
            (final(self).regs(), final(self).bus@) == instr_effect::<B>(
                old(self).regs(),
                old(self).bus@,
                Mnemonic::Dex,
                _address,
            ),
    {
        proof {
            reveal(instr_effect);
        }
        self.x_register = self.x_register.wrapping_sub(1);
        let value = self.x_register;
        self.set_zero_or_neg_flags(value);
    }

    /// `DEY`.
    pub(crate) fn dey(&mut self, _address: Address)
        ensures
            (final(self).regs(), final(self).bus@) == instr_effect::<B>(
                old(self).regs(),
                old(self).bus@,
                Mnemonic::Dey,
                _address,
            ),
    {
        proof {
            reveal(instr_effect);
        }
        self.y_register = self.y_register.wrapping_sub(1);
        let value = self.y_register;
        self.set_zero_or_neg_flags(value);
    }

    /// `LDA`.
    pub(crate) fn lda(&mut self, address: Address)
        ensures
            (final(self).regs(), final(self).bus@) == op_lda::<B>(
                old(self).regs(),
                old(self).bus@,
                address,
            ),
    {
        match address {
            Address::Absolute(a) => {
                self.accumulator = self.bus.read(a);
                let value = self.accumulator;
                self.set_zero_or_neg_flags(value);
            },
            _ => {},
        }
    }

    /// `LDX`.
    pub(crate) fn ldx(&mut self, address: Address)
        ensures
            (final(self).regs(), final(self).bus@) == op_ldx::<B>(
                old(self).regs(),
                old(self).bus@,
                address,
            ),
    {
        match address {
            Address::Absolute(a) => {
                self.x_register = self.bus.read(a);
                let value = self.x_register;
                self.set_zero_or_neg_flags(value);
            },
            _ => {},
        }
    }

    /// `LDY`.
    pub(crate) fn ldy(&mut self, address: Address)
        ensures
            (final(self).regs(), final(self).bus@) == op_ldy::<B>(
                old(self).regs(),
                old(self).bus@,
                address,
            ),
    {
        match address {
            Address::Absolute(a) => {
                self.y_register = self.bus.read(a);
                let value = self.y_register;
                self.set_zero_or_neg_flags(value);
            },
            _ => {},
        }
    }

    /// `LAX`: `LDA` and `LDX` of the same operand.
    pub(crate) fn lax(&mut self, address: Address)
        ensures
            (final(self).regs(), final(self).bus@) == instr_effect::<B>(
                old(self).regs(),
                old(self).bus@,
                Mnemonic::Lax,
                address,
            ),
    {
        proof {
            reveal(instr_effect);
        }
        self.lda(address);
        self.ldx(address);
    }

    /// `STA`.
    pub(crate) fn sta(&mut self, address: Address)
        ensures
            (final(self).regs(), final(self).bus@) == store_effect::<B>(
                old(self).regs(),
                old(self).bus@,
                address,
                old(self).regs().accumulator,
            ),
    {
        match address {
            Address::Absolute(a) => {
                let value = self.accumulator;
                self.bus.write(a, value);
            },
            _ => {},
        }
    }

    /// `STX`.
    pub(crate) fn stx(&mut self, address: Address)
        ensures
            (final(self).regs(), final(self).bus@) == store_effect::<B>(
                old(self).regs(),
                old(self).bus@,
                address,
                old(self).regs().x_register,
            ),
    {
        match address {
            Address::Absolute(a) => {
                let value = self.x_register;
                self.bus.write(a, value);
            },
            _ => {},
        }
    }

    /// `STY`.
    pub(crate) fn sty(&mut self, address: Address)
        ensures
            (final(self).regs(), final(self).bus@) == store_effect::<B>(
                old(self).regs(),
                old(self).bus@,
                address,
                old(self).regs().y_register,
            ),
    {
        match address {
            Address::Absolute(a) => {
                let value = self.y_register;
                self.bus.write(a, value);
            },
            _ => {},
        }
    }

    /// `SAX`: store `A & X`.
    pub(crate) fn sax(&mut self, address: Address)
        ensures
            (final(self).regs(), final(self).bus@) == store_effect::<B>(
                old(self).regs(),
                old(self).bus@,
                address,
                (old(self).regs().accumulator & old(self).regs().x_register) as u8,
            ),
    {
        match address {
            Address::Absolute(a) => {
                let value = self.accumulator & self.x_register;
                self.bus.write(a, value);
            },
            _ => {},
        }
    }

    /// The conditional branch shared by the eight branch instructions.
    pub(crate) fn branch(&mut self, address: Address, cond: bool)
        ensures
            (final(self).regs(), final(self).bus@) == branch_effect::<B>(
                old(self).regs(),
                old(self).bus@,
                address,
                cond,
            ),
    {
        match address {
            Address::Relative(d) => {
                let target = s8_to_u16(d).wrapping_add(self.program_counter);
                if cond {
                    if target & 0xFF00 != self.program_counter & 0xFF00 {
                        self.remaining_cycles = self.remaining_cycles.wrapping_add(2);
                    } else {
                        self.remaining_cycles = self.remaining_cycles.wrapping_add(1);
                    }
                    self.program_counter = target;
                }
            },
            _ => {},
        }
    }

    /// `BCC`.
    pub(crate) fn bcc(&mut self, address: Address)
        ensures
            (final(self).regs(), final(self).bus@) == instr_effect::<B>(
                old(self).regs(),
                old(self).bus@,
                Mnemonic::Bcc,
                address,
            ),
    {
        proof {
            reveal(instr_effect);
        }
        let cond = self.status & FLAG_C == 0;
        self.branch(address, cond);
    }

    /// `BCS`.
    pub(crate) fn bcs(&mut self, address: Address)
        ensures
            (final(self).regs(), final(self).bus@) == instr_effect::<B>(
                old(self).regs(),
                old(self).bus@,
                Mnemonic::Bcs,
                address,
            ),
    {
        proof {
            reveal(instr_effect);
        }
        let cond = self.status & FLAG_C != 0;
        self.branch(address, cond);
    }

    /// `BEQ`.
    pub(crate) fn beq(&mut self, address: Address)
        ensures
            (final(self).regs(), final(self).bus@) == instr_effect::<B>(
                old(self).regs(),
                old(self).bus@,
                Mnemonic::Beq,
                address,
            ),
    {
        proof {
            reveal(instr_effect);
        }
        let cond = self.status & FLAG_Z != 0;
        self.branch(address, cond);
    }

    /// `BNE`.
    pub(crate) fn bne(&mut self, address: Address)
        ensures
            (final(self).regs(), final(self).bus@) == instr_effect::<B>(
                old(self).regs(),
                old(self).bus@,
                Mnemonic::Bne,
                address,
            ),
    {
        proof {
            reveal(instr_effect);
        }
        let cond = self.status & FLAG_Z == 0;
        self.branch(address, cond);
    }

    /// `BMI`.
    pub(crate) fn bmi(&mut self, address: Address)
        ensures
            (final(self).regs(), final(self).bus@) == instr_effect::<B>(
                old(self).regs(),
                old(self).bus@,
                Mnemonic::Bmi,
                address,
            ),
    {
        proof {
            reveal(instr_effect);
        }
        let cond = self.status & FLAG_N != 0;
        self.branch(address, cond);
    }

    /// `BPL`.
    pub(crate) fn bpl(&mut self, address: Address)
        ensures
            (final(self).regs(), final(self).bus@) == instr_effect::<B>(
                old(self).regs(),
                old(self).bus@,
                Mnemonic::Bpl,
                address,
            ),
    {
        proof {
            reveal(instr_effect);
        }
        let cond = self.status & FLAG_N == 0;
        self.branch(address, cond);
    }

    /// `BVC`.
    pub(crate) fn bvc(&mut self, address: Address)
        ensures
            (final(self).regs(), final(self).bus@) == instr_effect::<B>(
                old(self).regs(),
                old(self).bus@,
                Mnemonic::Bvc,
                address,
            ),
    {
        proof {
            reveal(instr_effect);
        }
        let cond = self.status & FLAG_V == 0;
        self.branch(address, cond);
    }

    /// `BVS`.
    pub(crate) fn bvs(&mut self, address: Address)
        ensures
            (final(self).regs(), final(self).bus@) == instr_effect::<B>(
                old(self).regs(),
                old(self).bus@,
                Mnemonic::Bvs,
                address,
            ),
    {
        proof {
            reveal(instr_effect);
        }
        let cond = self.status & FLAG_V != 0;
        self.branch(address, cond);
    }

    /// `JMP`.
    pub(crate) fn jmp(&mut self, address: Address)
        ensures
            (final(self).regs(), final(self).bus@) == op_jmp::<B>(
                old(self).regs(),
                old(self).bus@,
                address,
            ),
    {
        match address {
            Address::Absolute(a) => {
                self.program_counter = a;
            },
            _ => {},
        }
    }

    /// `JSR`.
    pub(crate) fn jsr(&mut self, address: Address)
        ensures
            (final(self).regs(), final(self).bus@) == op_jsr::<B>(
                old(self).regs(),
                old(self).bus@,
                address,
            ),
    {
        match address {
            Address::Absolute(a) => {
                let return_addr = self.program_counter.wrapping_sub(1);
                self.push_stack_16(return_addr);
                self.program_counter = a;
            },
            _ => {},
        }
    }

    /// `RTS`.
    pub(crate) fn rts(&mut self, _address: Address)
        ensures
            (final(self).regs(), final(self).bus@) == op_rts::<B>(old(self).regs(), old(self).bus@),
    {
        let value = self.pop_stack_16();
        self.program_counter = value.wrapping_add(1);
    }

    /// `BRK` (halt interpretation: set the break flag only).
    pub(crate) fn brk(&mut self, _address: Address)
        ensures
            (final(self).regs(), final(self).bus@) == (
                op_brk(old(self).regs()),
                old(self).bus@,
            ),
    {
        self.status = self.status | FLAG_B;
    }

    /// `PHA`.
    pub(crate) fn pha(&mut self, _address: Address)
        ensures
            (final(self).regs(), final(self).bus@) == op_pha::<B>(old(self).regs(), old(self).bus@),
    {
        let value = self.accumulator;
        self.push_stack(value);
    }

    /// `PHP`.
    pub(crate) fn php(&mut self, _address: Address)
        ensures
            (final(self).regs(), final(self).bus@) == op_php::<B>(old(self).regs(), old(self).bus@),
    {
        let value = self.status | FLAG_B | FLAG_X;
        self.push_stack(value);
    }

    /// `PLA`.
    pub(crate) fn pla(&mut self, _address: Address)
        ensures
            (final(self).regs(), final(self).bus@) == op_pla::<B>(old(self).regs(), old(self).bus@),
    {
        self.accumulator = self.pop_stack();
        let value = self.accumulator;
        self.set_zero_or_neg_flags(value);
    }

    /// `PLP`.
    pub(crate) fn plp(&mut self, _address: Address)
        ensures
            (final(self).regs(), final(self).bus@) == op_plp::<B>(old(self).regs(), old(self).bus@),
    {
        let old_status = self.status;
        let popped = self.pop_stack();
        let p1 = set_flag_value(popped, FLAG_B, old_status & FLAG_B != 0);
        let p2 = set_flag_value(p1, FLAG_X, old_status & FLAG_X != 0);
        self.status = p2;
    }

    /// `RTI`.
    pub(crate) fn rti(&mut self, address: Address)
        ensures
            (final(self).regs(), final(self).bus@) == op_rti::<B>(old(self).regs(), old(self).bus@),
    {
        self.plp(address);
        self.program_counter = self.pop_stack_16();
    }

    /// `CLC`.
    pub(crate) fn clc(&mut self, _address: Address)
        ensures
            (final(self).regs(), final(self).bus@) == instr_effect::<B>(
                old(self).regs(),
                old(self).bus@,
                Mnemonic::Clc,
                _address,
            ),
    {
        proof {
            reveal(instr_effect);
        }
        self.status = self.status & !FLAG_C;
    }

    /// `CLD`.
    pub(crate) fn cld(&mut self, _address: Address)
        ensures
            (final(self).regs(), final(self).bus@) == instr_effect::<B>(
                old(self).regs(),
                old(self).bus@,
                Mnemonic::Cld,
                _address,
            ),
    {
        proof {
            reveal(instr_effect);
        }
        self.status = self.status & !FLAG_D;
    }

    /// `CLI`.
    pub(crate) fn cli(&mut self, _address: Address)
        ensures
            (final(self).regs(), final(self).bus@) == instr_effect::<B>(
                old(self).regs(),
                old(self).bus@,
                Mnemonic::Cli,
                _address,
            ),
    {
        proof {
            reveal(instr_effect);
        }
        self.status = self.status & !FLAG_I;
    }

    /// `CLV`.
    pub(crate) fn clv(&mut self, _address: Address)
        ensures
            (final(self).regs(), final(self).bus@) == instr_effect::<B>(
                old(self).regs(),
                old(self).bus@,
                Mnemonic::Clv,
                _address,
            ),
    {
        proof {
            reveal(instr_effect);
        }
        self.status = self.status & !FLAG_V;
    }

    /// `SEC`.
    pub(crate) fn sec(&mut self, _address: Address)
        ensures
            (final(self).regs(), final(self).bus@) == instr_effect::<B>(
                old(self).regs(),
                old(self).bus@,
                Mnemonic::Sec,
                _address,
            ),
    {
        proof {
            reveal(instr_effect);
        }
        self.status = self.status | FLAG_C;
    }

    /// `SED`.
    pub(crate) fn sed(&mut self, _address: Address)
        ensures
            (final(self).regs(), final(self).bus@) == instr_effect::<B>(
                old(self).regs(),
                old(self).bus@,
                Mnemonic::Sed,
                _address,
            ),
    {
        proof {
            reveal(instr_effect);
        }
        self.status = self.status | FLAG_D;
    }

    /// `SEI`.
    pub(crate) fn sei(&mut self, _address: Address)
        ensures
            (final(self).regs(), final(self).bus@) == instr_effect::<B>(
                old(self).regs(),
                old(self).bus@,
                Mnemonic::Sei,
                _address,
            ),
    {
        proof {
            reveal(instr_effect);
        }
        self.status = self.status | FLAG_I;
    }

    /// `TAX`.
    pub(crate) fn tax(&mut self, _address: Address)
        ensures
            (final(self).regs(), final(self).bus@) == instr_effect::<B>(
                old(self).regs(),
                old(self).bus@,
                Mnemonic::Tax,
                _address,
            ),
    {
        proof {
            reveal(instr_effect);
        }
        self.x_register = self.accumulator;
        let value = self.x_register;
        self.set_zero_or_neg_flags(value);
    }

    /// `TAY`.
    pub(crate) fn tay(&mut self, _address: Address)
        ensures
            (final(self).regs(), final(self).bus@) == instr_effect::<B>(
                old(self).regs(),
                old(self).bus@,
                Mnemonic::Tay,
                _address,
            ),
    {
        proof {
            reveal(instr_effect);
        }
        self.y_register = self.accumulator;
        let value = self.y_register;
        self.set_zero_or_neg_flags(value);
    }

    /// `TSX`.
    pub(crate) fn tsx(&mut self, _address: Address)
        ensures
            (final(self).regs(), final(self).bus@) == instr_effect::<B>(
                old(self).regs(),
                old(self).bus@,
                Mnemonic::Tsx,
                _address,
            ),
    {
        proof {
            reveal(instr_effect);
        }
        self.x_register = self.stack_pointer;
        let value = self.x_register;
        self.set_zero_or_neg_flags(value);
    }

    /// `TXA`.
    pub(crate) fn txa(&mut self, _address: Address)
        ensures
            (final(self).regs(), final(self).bus@) == instr_effect::<B>(
                old(self).regs(),
                old(self).bus@,
                Mnemonic::Txa,
                _address,
            ),
    {
        proof {
            reveal(instr_effect);
        }
        self.accumulator = self.x_register;
        let value = self.x_register;
        self.set_zero_or_neg_flags(value);
    }

    /// `TXS` (no flags).
    pub(crate) fn txs(&mut self, _address: Address)
        ensures
            (final(self).regs(), final(self).bus@) == instr_effect::<B>(
                old(self).regs(),
                old(self).bus@,
                Mnemonic::Txs,
                _address,
            ),
    {
        proof {
            reveal(instr_effect);
        }
        self.stack_pointer = self.x_register;
    }

    /// `TYA`.
    pub(crate) fn tya(&mut self, _address: Address)
        ensures
            (final(self).regs(), final(self).bus@) == instr_effect::<B>(
                old(self).regs(),
                old(self).bus@,
                Mnemonic::Tya,
                _address,
            ),
    {
        proof {
            reveal(instr_effect);
        }
        self.accumulator = self.y_register;
        let value = self.y_register;
        self.set_zero_or_neg_flags(value);
    }

    /// `NOP`.
    pub(crate) fn nop(&mut self, _address: Address)
        ensures
            (final(self).regs(), final(self).bus@) == (old(self).regs(), old(self).bus@),
    {
    }

    /// `DCP`: `DEC` then `CMP` of the same operand.
    pub(crate) fn dcp(&mut self, address: Address)
        ensures
            (final(self).regs(), final(self).bus@) == instr_effect::<B>(
                old(self).regs(),
                old(self).bus@,
                Mnemonic::Dcp,
                address,
            ),
    {
        proof {
            reveal(instr_effect);
        }
        self.dec(address);
        self.cmp(address);
    }

    /// `ISC`: `INC` then `SBC` of the same operand.
    pub(crate) fn isc(&mut self, address: Address)
        ensures
            (final(self).regs(), final(self).bus@) == instr_effect::<B>(
                old(self).regs(),
                old(self).bus@,
                Mnemonic::Isc,
                address,
            ),
    {
        proof {
            reveal(instr_effect);
        }
        self.inc(address);
        self.sbc(address);
    }

    /// `SLO`: `ASL` then `ORA` of the same operand.
    pub(crate) fn slo(&mut self, address: Address)
        ensures
            (final(self).regs(), final(self).bus@) == instr_effect::<B>(
                old(self).regs(),
                old(self).bus@,
                Mnemonic::Slo,
                address,
            ),
    {
        proof {
            reveal(instr_effect);
        }
        self.asl(address);
        self.ora(address);
    }

    /// `RLA`: `ROL` then `AND` of the same operand.
    pub(crate) fn rla(&mut self, address: Address)
        ensures
            (final(self).regs(), final(self).bus@) == instr_effect::<B>(
                old(self).regs(),
                old(self).bus@,
                Mnemonic::Rla,
                address,
            ),
    {
        proof {
            reveal(instr_effect);
        }
        self.rol(address);
        self.and(address);
    }

    /// `SRE`: `LSR` then `EOR` of the same operand.
    pub(crate) fn sre(&mut self, address: Address)
        ensures
            (final(self).regs(), final(self).bus@) == instr_effect::<B>(
                old(self).regs(),
                old(self).bus@,
                Mnemonic::Sre,
                address,
            ),
    {
        proof {
            reveal(instr_effect);
        }
        self.lsr(address);
        self.eor(address);
    }

    /// `RRA`: `ROR` then `ADC` of the same operand.
    pub(crate) fn rra(&mut self, address: Address)
        ensures
            (final(self).regs(), final(self).bus@) == instr_effect::<B>(
                old(self).regs(),
                old(self).bus@,
                Mnemonic::Rra,
                address,
            ),
    {
        proof {
            reveal(instr_effect);
        }
        self.ror(address);
        self.adc(address);
    }

    /// `ALR`: `AND` then a right shift of the accumulator.
    pub(crate) fn alr(&mut self, address: Address)
        ensures
            (final(self).regs(), final(self).bus@) == instr_effect::<B>(
                old(self).regs(),
                old(self).bus@,
                Mnemonic::Alr,
                address,
            ),
    {
        proof {
            reveal(instr_effect);
        }
        self.and(address);
        self.lsr(Address::Implied);
    }

    /// `ANC`: `AND`, then copy the negative bit into carry.
    pub(crate) fn anc(&mut self, address: Address)
        ensures
            (final(self).regs(), final(self).bus@) == instr_effect::<B>(
                old(self).regs(),
                old(self).bus@,
                Mnemonic::Anc,
                address,
            ),
    {
        proof {
            reveal(instr_effect);
        }
        self.and(address);
        let high = self.accumulator >> 7 == 1;
        self.status = set_flag_value(self.status, FLAG_C, high);
    }

    /// Run the instruction `m` names on the resolved operand.
    pub(crate) fn execute(&mut self, m: Mnemonic, address: Address)
        ensures
            (final(self).regs(), final(self).bus@) == instr_effect::<B>(
                old(self).regs(),
                old(self).bus@,
                m,
                address,
            ),
    {
        proof {
            reveal(instr_effect);
        }
        match m {
            Mnemonic::Adc => self.adc(address),
            Mnemonic::Alr => self.alr(address),
            Mnemonic::Anc => self.anc(address),
            Mnemonic::And => self.and(address),
            Mnemonic::Asl => self.asl(address),
            Mnemonic::Bcc => self.bcc(address),
            Mnemonic::Bcs => self.bcs(address),
            Mnemonic::Beq => self.beq(address),
            Mnemonic::Bit => self.bit(address),
            Mnemonic::Bmi => self.bmi(address),
            Mnemonic::Bne => self.bne(address),
            Mnemonic::Bpl => self.bpl(address),
            Mnemonic::Brk => self.brk(address),
            Mnemonic::Bvc => self.bvc(address),
            Mnemonic::Bvs => self.bvs(address),
            Mnemonic::Clc => self.clc(address),
            Mnemonic::Cld => self.cld(address),
            Mnemonic::Cli => self.cli(address),
            Mnemonic::Clv => self.clv(address),
            Mnemonic::Cmp => self.cmp(address),
            Mnemonic::Cpx => self.cpx(address),
            Mnemonic::Cpy => self.cpy(address),
            Mnemonic::Dcp => self.dcp(address),
            Mnemonic::Dec => self.dec(address),
            Mnemonic::Dex => self.dex(address),
            Mnemonic::Dey => self.dey(address),
            Mnemonic::Eor => self.eor(address),
            Mnemonic::Inc => self.inc(address),
            Mnemonic::Inx => self.inx(address),
            Mnemonic::Iny => self.iny(address),
            Mnemonic::Isc => self.isc(address),
            Mnemonic::Jmp => self.jmp(address),
            Mnemonic::Jsr => self.jsr(address),
            Mnemonic::Lax => self.lax(address),
            Mnemonic::Lda => self.lda(address),
            Mnemonic::Ldx => self.ldx(address),
            Mnemonic::Ldy => self.ldy(address),
            Mnemonic::Lsr => self.lsr(address),
            Mnemonic::Nop => self.nop(address),
            Mnemonic::Ora => self.ora(address),
            Mnemonic::Pha => self.pha(address),
            Mnemonic::Php => self.php(address),
            Mnemonic::Pla => self.pla(address),
            Mnemonic::Plp => self.plp(address),
            Mnemonic::Rla => self.rla(address),
            Mnemonic::Rol => self.rol(address),
            Mnemonic::Ror => self.ror(address),
            Mnemonic::Rra => self.rra(address),
            Mnemonic::Rti => self.rti(address),
            Mnemonic::Rts => self.rts(address),
            Mnemonic::Sax => self.sax(address),
            Mnemonic::Sbc => self.sbc(address),
            Mnemonic::Sec => self.sec(address),
            Mnemonic::Sed => self.sed(address),
            Mnemonic::Sei => self.sei(address),
            Mnemonic::Slo => self.slo(address),
            Mnemonic::Sre => self.sre(address),
            Mnemonic::Sta => self.sta(address),
            Mnemonic::Stx => self.stx(address),
            Mnemonic::Sty => self.sty(address),
            Mnemonic::Tax => self.tax(address),
            Mnemonic::Tay => self.tay(address),
            Mnemonic::Tsx => self.tsx(address),
            Mnemonic::Txa => self.txa(address),
            Mnemonic::Txs => self.txs(address),
            Mnemonic::Tya => self.tya(address),
            _ => {},
        }
    }
}

} // verus!
