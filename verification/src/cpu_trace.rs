//! The instruction tracer: renders one line per instruction in the fixed
//! column layout of the well-known `nestest` execution logs, so that a run
//! can be compared against a golden log byte by byte.
//!
//! The whole line is specified as a sequence of ASCII codes; the only
//! trusted step is the final conversion of those bytes into a `String`.

use vstd::prelude::*;
use crate::bus::{wrap16, wrap64, Bus};
use crate::cpu::{CpuState, CPU};
use crate::opcodes::{instruction_len, op_entry, opcode_entry, opcode_len, Mnemonic};

verus! {

/// The ASCII code of the hexadecimal digit for `value` (0..=15),
/// uppercase.
pub open spec fn hex_digit(value: u8) -> u8 {
    if value < 10 {
        (48 + value) as u8
    } else {
        (55 + value) as u8
    }
}

/// Two uppercase hexadecimal digits for a byte.
pub open spec fn hex2(value: u8) -> Seq<u8> {
    seq![hex_digit((value / 16) as u8), hex_digit((value % 16) as u8)]
}

/// Four uppercase hexadecimal digits for a 16-bit value.
pub open spec fn hex4(value: u16) -> Seq<u8> {
    hex2((value / 256) as u8) + hex2((value % 256) as u8)
}

/// `count` ASCII spaces.
pub open spec fn spaces(count: nat) -> Seq<u8> {
    Seq::new(count, |i: int| 32u8)
}

/// The decimal digits of `value`, most significant first.
pub open spec fn dec_bytes(value: nat) -> Seq<u8>
    decreases value,
{
    if value < 10 {
        seq![(48 + value) as u8]
    } else {
        dec_bytes(value / 10) + seq![(48 + value % 10) as u8]
    }
}

/// The three ASCII letters of a mnemonic, as the `nestest` logs print
/// them (`ISC` appears there under its other customary name `ISB`).
pub open spec fn mnemonic_bytes(m: Mnemonic) -> Seq<u8> {
    match m {
        Mnemonic::Adc => seq![65u8, 68u8, 67u8],
        Mnemonic::Ahx => seq![65u8, 72u8, 88u8],
        Mnemonic::Alr => seq![65u8, 76u8, 82u8],
        Mnemonic::Anc => seq![65u8, 78u8, 67u8],
        Mnemonic::And => seq![65u8, 78u8, 68u8],
        Mnemonic::Arr => seq![65u8, 82u8, 82u8],
        Mnemonic::Asl => seq![65u8, 83u8, 76u8],
        Mnemonic::Axs => seq![65u8, 88u8, 83u8],
        Mnemonic::Bcc => seq![66u8, 67u8, 67u8],
        Mnemonic::Bcs => seq![66u8, 67u8, 83u8],
        Mnemonic::Beq => seq![66u8, 69u8, 81u8],
        Mnemonic::Bit => seq![66u8, 73u8, 84u8],
        Mnemonic::Bmi => seq![66u8, 77u8, 73u8],
        Mnemonic::Bne => seq![66u8, 78u8, 69u8],
        Mnemonic::Bpl => seq![66u8, 80u8, 76u8],
        Mnemonic::Brk => seq![66u8, 82u8, 75u8],
        Mnemonic::Bvc => seq![66u8, 86u8, 67u8],
        Mnemonic::Bvs => seq![66u8, 86u8, 83u8],
        Mnemonic::Clc => seq![67u8, 76u8, 67u8],
        Mnemonic::Cld => seq![67u8, 76u8, 68u8],
        Mnemonic::Cli => seq![67u8, 76u8, 73u8],
        Mnemonic::Clv => seq![67u8, 76u8, 86u8],
        Mnemonic::Cmp => seq![67u8, 77u8, 80u8],
        Mnemonic::Cpx => seq![67u8, 80u8, 88u8],
        Mnemonic::Cpy => seq![67u8, 80u8, 89u8],
        Mnemonic::Dcp => seq![68u8, 67u8, 80u8],
        Mnemonic::Dec => seq![68u8, 69u8, 67u8],
        Mnemonic::Dex => seq![68u8, 69u8, 88u8],
        Mnemonic::Dey => seq![68u8, 69u8, 89u8],
        Mnemonic::Eor => seq![69u8, 79u8, 82u8],
        Mnemonic::Inc => seq![73u8, 78u8, 67u8],
        Mnemonic::Inx => seq![73u8, 78u8, 88u8],
        Mnemonic::Iny => seq![73u8, 78u8, 89u8],
        Mnemonic::Isc => seq![73u8, 83u8, 66u8],
        Mnemonic::Jam => seq![74u8, 65u8, 77u8],
        Mnemonic::Jmp => seq![74u8, 77u8, 80u8],
        Mnemonic::Jsr => seq![74u8, 83u8, 82u8],
        Mnemonic::Las => seq![76u8, 65u8, 83u8],
        Mnemonic::Lax => seq![76u8, 65u8, 88u8],
        Mnemonic::Lda => seq![76u8, 68u8, 65u8],
        Mnemonic::Ldx => seq![76u8, 68u8, 88u8],
        Mnemonic::Ldy => seq![76u8, 68u8, 89u8],
        Mnemonic::Lsr => seq![76u8, 83u8, 82u8],
        Mnemonic::Nop => seq![78u8, 79u8, 80u8],
        Mnemonic::Ora => seq![79u8, 82u8, 65u8],
        Mnemonic::Pha => seq![80u8, 72u8, 65u8],
        Mnemonic::Php => seq![80u8, 72u8, 80u8],
        Mnemonic::Pla => seq![80u8, 76u8, 65u8],
        Mnemonic::Plp => seq![80u8, 76u8, 80u8],
        Mnemonic::Rla => seq![82u8, 76u8, 65u8],
        Mnemonic::Rol => seq![82u8, 79u8, 76u8],
        Mnemonic::Ror => seq![82u8, 79u8, 82u8],
        Mnemonic::Rra => seq![82u8, 82u8, 65u8],
        Mnemonic::Rti => seq![82u8, 84u8, 73u8],
        Mnemonic::Rts => seq![82u8, 84u8, 83u8],
        Mnemonic::Sax => seq![83u8, 65u8, 88u8],
        Mnemonic::Sbc => seq![83u8, 66u8, 67u8],
        Mnemonic::Sec => seq![83u8, 69u8, 67u8],
        Mnemonic::Sed => seq![83u8, 69u8, 68u8],
        Mnemonic::Sei => seq![83u8, 69u8, 73u8],
        Mnemonic::Shx => seq![83u8, 72u8, 88u8],
        Mnemonic::Shy => seq![83u8, 72u8, 89u8],
        Mnemonic::Slo => seq![83u8, 76u8, 79u8],
        Mnemonic::Sre => seq![83u8, 82u8, 69u8],
        Mnemonic::Sta => seq![83u8, 84u8, 65u8],
        Mnemonic::Stx => seq![83u8, 84u8, 88u8],
        Mnemonic::Sty => seq![83u8, 84u8, 89u8],
        Mnemonic::Tas => seq![84u8, 65u8, 83u8],
        Mnemonic::Tax => seq![84u8, 65u8, 88u8],
        Mnemonic::Tay => seq![84u8, 65u8, 89u8],
        Mnemonic::Tsx => seq![84u8, 83u8, 88u8],
        Mnemonic::Txa => seq![84u8, 88u8, 65u8],
        Mnemonic::Txs => seq![84u8, 88u8, 83u8],
        Mnemonic::Tya => seq![84u8, 89u8, 65u8],
        Mnemonic::Xaa => seq![88u8, 65u8, 65u8],
    }
}

/// `count` bytes peeked from successive addresses starting at `start`,
/// each rendered as two hexadecimal digits and a space.
pub open spec fn hexdump_bytes<B: Bus>(b: B::V, start: u16, count: nat) -> Seq<u8>
    decreases count,
{
    if count == 0 {
        Seq::<u8>::empty()
    } else {
        hexdump_bytes::<B>(b, start, (count - 1) as nat) + hex2(
            B::read_value(b, wrap16(start + count - 1)),
        ) + seq![32u8]
    }
}

/// Width of the padding that brings a hex dump of `len` bytes up to the
/// nine-character dump column.
pub open spec fn pad_to9(len: nat) -> nat {
    if len >= 9 {
        0
    } else {
        (9 - len) as nat
    }
}

/// The full trace line for the instruction the program counter rests on:
/// the program counter, the instruction's bytes, its mnemonic, the
/// registers, an empty PPU column, and the cycle counter offset by the
/// seven power-up cycles, all in the `nestest` log columns.
pub open spec fn trace_bytes<B: Bus>(s: CpuState, b: B::V) -> Seq<u8> {
    let opcode = B::read_value(b, s.program_counter);
    let info = op_entry(opcode);
    let dump_len = 3 * instruction_len(info.mode) as nat;
    hex4(s.program_counter) + seq![32u8, 32u8] + hexdump_bytes::<B>(
        b,
        s.program_counter,
        instruction_len(info.mode) as nat,
    ) + spaces(pad_to9(dump_len)) + seq![32u8] + mnemonic_bytes(info.mnemonic) + spaces(28)
        + seq![32u8, 65u8, 58u8] + hex2(s.accumulator) + seq![32u8, 88u8, 58u8] + hex2(
        s.x_register,
    ) + seq![32u8, 89u8, 58u8] + hex2(s.y_register) + seq![32u8, 80u8, 58u8] + hex2(s.status)
        + seq![32u8, 83u8, 80u8, 58u8] + hex2(s.stack_pointer) + seq![32u8] + spaces(11) + seq![
        32u8,
        67u8,
        89u8,
        67u8,
        58u8,
    ] + dec_bytes(wrap64(s.total_cycles + 7) as nat)
}

/// Whether every byte of `s` is an ASCII code.
pub open spec fn ascii_seq(s: Seq<u8>) -> bool {
    forall|i: int| 0 <= i < s.len() ==> s[i] < 0x80
}

/// Appending ASCII bytes to ASCII bytes yields ASCII bytes.
proof fn lemma_ascii_append(a: Seq<u8>, b: Seq<u8>)
    requires
        ascii_seq(a),
        ascii_seq(b),
    ensures
        ascii_seq(a + b),
{
    assert forall|i: int| 0 <= i < (a + b).len() implies (a + b)[i] < 0x80 by {
        if i < a.len() {
            assert((a + b)[i] == a[i]);
        } else {
            assert((a + b)[i] == b[i - a.len()]);
        }
    }
}

/// The length of a hex dump: three characters per byte.
proof fn lemma_hexdump_len<B: Bus>(b: B::V, start: u16, count: nat)
    ensures
        hexdump_bytes::<B>(b, start, count).len() == 3 * count,
    decreases count,
{
    if count > 0 {
        lemma_hexdump_len::<B>(b, start, (count - 1) as nat);
    }
}

/// A hex dump is ASCII.
proof fn lemma_hexdump_ascii<B: Bus>(b: B::V, start: u16, count: nat)
    ensures
        ascii_seq(hexdump_bytes::<B>(b, start, count)),
    decreases count,
{
    if count > 0 {
        lemma_hexdump_ascii::<B>(b, start, (count - 1) as nat);
        let prefix = hexdump_bytes::<B>(b, start, (count - 1) as nat);
        let pair = hex2(B::read_value(b, wrap16(start + count - 1)));
        lemma_ascii_append(prefix, pair);
        lemma_ascii_append(prefix + pair, seq![32u8]);
    }
}

/// Append one byte.
fn push1(out: &mut Vec<u8>, a: u8)
    requires
        a < 0x80,
    ensures
        final(out)@ == old(out)@ + seq![a],
        ascii_seq(old(out)@) ==> ascii_seq(final(out)@),
{
    proof {
        if ascii_seq(old(out)@) {
            lemma_ascii_append(old(out)@, seq![a]);
        }
    }
    out.push(a);
    proof {
        assert(out@ =~= old(out)@ + seq![a]);
    }
}

/// Append two bytes.
fn push2(out: &mut Vec<u8>, a: u8, b: u8)
    requires
        a < 0x80,
        b < 0x80,
    ensures
        final(out)@ == old(out)@ + seq![a, b],
        ascii_seq(old(out)@) ==> ascii_seq(final(out)@),
{
    proof {
        if ascii_seq(old(out)@) {
            lemma_ascii_append(old(out)@, seq![a, b]);
        }
    }
    out.push(a);
    out.push(b);
    proof {
        assert(out@ =~= old(out)@ + seq![a, b]);
    }
}

/// Append three bytes.
fn push3(out: &mut Vec<u8>, a: u8, b: u8, c: u8)
    requires
        a < 0x80,
        b < 0x80,
        c < 0x80,
    ensures
        final(out)@ == old(out)@ + seq![a, b, c],
        ascii_seq(old(out)@) ==> ascii_seq(final(out)@),
{
    proof {
        if ascii_seq(old(out)@) {
            lemma_ascii_append(old(out)@, seq![a, b, c]);
        }
    }
    out.push(a);
    out.push(b);
    out.push(c);
    proof {
        assert(out@ =~= old(out)@ + seq![a, b, c]);
    }
}

/// Append four bytes.
fn push4(out: &mut Vec<u8>, a: u8, b: u8, c: u8, d: u8)
    requires
        a < 0x80,
        b < 0x80,
        c < 0x80,
        d < 0x80,
    ensures
        final(out)@ == old(out)@ + seq![a, b, c, d],
        ascii_seq(old(out)@) ==> ascii_seq(final(out)@),
{
    proof {
        if ascii_seq(old(out)@) {
            lemma_ascii_append(old(out)@, seq![a, b, c, d]);
        }
    }
    out.push(a);
    out.push(b);
    out.push(c);
    out.push(d);
    proof {
        assert(out@ =~= old(out)@ + seq![a, b, c, d]);
    }
}

/// Append five bytes.
fn push5(out: &mut Vec<u8>, a: u8, b: u8, c: u8, d: u8, e: u8)
    requires
        a < 0x80,
        b < 0x80,
        c < 0x80,
        d < 0x80,
        e < 0x80,
    ensures
        final(out)@ == old(out)@ + seq![a, b, c, d, e],
        ascii_seq(old(out)@) ==> ascii_seq(final(out)@),
{
    proof {
        if ascii_seq(old(out)@) {
            lemma_ascii_append(old(out)@, seq![a, b, c, d, e]);
        }
    }
    out.push(a);
    out.push(b);
    out.push(c);
    out.push(d);
    out.push(e);
    proof {
        assert(out@ =~= old(out)@ + seq![a, b, c, d, e]);
    }
}

/// Append a byte as two uppercase hexadecimal digits.
fn push_hex2(out: &mut Vec<u8>, value: u8)
    ensures
        final(out)@ == old(out)@ + hex2(value),
        ascii_seq(old(out)@) ==> ascii_seq(final(out)@),
{
    let hi = value / 16;
    let lo = value % 16;
    let hi_digit: u8 = if hi < 10 {
        48 + hi
    } else {
        55 + hi
    };
    let lo_digit: u8 = if lo < 10 {
        48 + lo
    } else {
        55 + lo
    };
    push2(out, hi_digit, lo_digit);
}

/// Append a 16-bit value as four uppercase hexadecimal digits.
fn push_hex4(out: &mut Vec<u8>, value: u16)
    ensures
        final(out)@ == old(out)@ + hex4(value),
        ascii_seq(old(out)@) ==> ascii_seq(final(out)@),
{
    push_hex2(out, (value / 256) as u8);
    push_hex2(out, (value % 256) as u8);
    proof {
        assert(out@ =~= old(out)@ + hex4(value));
    }
}

/// Append `count` spaces.
fn push_spaces(out: &mut Vec<u8>, count: usize)
    ensures
        final(out)@ == old(out)@ + spaces(count as nat),
        ascii_seq(old(out)@) ==> ascii_seq(final(out)@),
{
    let mut i: usize = 0;
    while i < count
        invariant
            i <= count,
            out@ == old(out)@ + spaces(i as nat),
            ascii_seq(old(out)@) ==> ascii_seq(out@),
        decreases count - i,
    {
        out.push(32);
        proof {
            assert(out@ =~= old(out)@ + spaces((i + 1) as nat));
        }
        i = i + 1;
    }
}

/// Append the decimal digits of `value`.
fn push_dec(out: &mut Vec<u8>, value: u64)
    ensures
        final(out)@ == old(out)@ + dec_bytes(value as nat),
        ascii_seq(old(out)@) ==> ascii_seq(final(out)@),
    decreases value,
{
    if value < 10 {
        push1(out, 48 + (value as u8));
    } else {
        push_dec(out, value / 10);
        push1(out, 48 + ((value % 10) as u8));
        proof {
            assert(out@ =~= old(out)@ + dec_bytes(value as nat));
        }
    }
}

/// The three letters of a mnemonic as printed in the trace.
fn mnemonic_letters(m: Mnemonic) -> (r: (u8, u8, u8))
    ensures
        seq![r.0, r.1, r.2] == mnemonic_bytes(m),
        r.0 < 0x80 && r.1 < 0x80 && r.2 < 0x80,
{
    match m {
        Mnemonic::Adc => (65, 68, 67),
        Mnemonic::Ahx => (65, 72, 88),
        Mnemonic::Alr => (65, 76, 82),
        Mnemonic::Anc => (65, 78, 67),
        Mnemonic::And => (65, 78, 68),
        Mnemonic::Arr => (65, 82, 82),
        Mnemonic::Asl => (65, 83, 76),
        Mnemonic::Axs => (65, 88, 83),
        Mnemonic::Bcc => (66, 67, 67),
        Mnemonic::Bcs => (66, 67, 83),
        Mnemonic::Beq => (66, 69, 81),
        Mnemonic::Bit => (66, 73, 84),
        Mnemonic::Bmi => (66, 77, 73),
        Mnemonic::Bne => (66, 78, 69),
        Mnemonic::Bpl => (66, 80, 76),
        Mnemonic::Brk => (66, 82, 75),
        Mnemonic::Bvc => (66, 86, 67),
        Mnemonic::Bvs => (66, 86, 83),
        Mnemonic::Clc => (67, 76, 67),
        Mnemonic::Cld => (67, 76, 68),
        Mnemonic::Cli => (67, 76, 73),
        Mnemonic::Clv => (67, 76, 86),
        Mnemonic::Cmp => (67, 77, 80),
        Mnemonic::Cpx => (67, 80, 88),
        Mnemonic::Cpy => (67, 80, 89),
        Mnemonic::Dcp => (68, 67, 80),
        Mnemonic::Dec => (68, 69, 67),
        Mnemonic::Dex => (68, 69, 88),
        Mnemonic::Dey => (68, 69, 89),
        Mnemonic::Eor => (69, 79, 82),
        Mnemonic::Inc => (73, 78, 67),
        Mnemonic::Inx => (73, 78, 88),
        Mnemonic::Iny => (73, 78, 89),
        Mnemonic::Isc => (73, 83, 66),
        Mnemonic::Jam => (74, 65, 77),
        Mnemonic::Jmp => (74, 77, 80),
        Mnemonic::Jsr => (74, 83, 82),
        Mnemonic::Las => (76, 65, 83),
        Mnemonic::Lax => (76, 65, 88),
        Mnemonic::Lda => (76, 68, 65),
        Mnemonic::Ldx => (76, 68, 88),
        Mnemonic::Ldy => (76, 68, 89),
        Mnemonic::Lsr => (76, 83, 82),
        Mnemonic::Nop => (78, 79, 80),
        Mnemonic::Ora => (79, 82, 65),
        Mnemonic::Pha => (80, 72, 65),
        Mnemonic::Php => (80, 72, 80),
        Mnemonic::Pla => (80, 76, 65),
        Mnemonic::Plp => (80, 76, 80),
        Mnemonic::Rla => (82, 76, 65),
        Mnemonic::Rol => (82, 79, 76),
        Mnemonic::Ror => (82, 79, 82),
        Mnemonic::Rra => (82, 82, 65),
        Mnemonic::Rti => (82, 84, 73),
        Mnemonic::Rts => (82, 84, 83),
        Mnemonic::Sax => (83, 65, 88),
        Mnemonic::Sbc => (83, 66, 67),
        Mnemonic::Sec => (83, 69, 67),
        Mnemonic::Sed => (83, 69, 68),
        Mnemonic::Sei => (83, 69, 73),
        Mnemonic::Shx => (83, 72, 88),
        Mnemonic::Shy => (83, 72, 89),
        Mnemonic::Slo => (83, 76, 79),
        Mnemonic::Sre => (83, 82, 69),
        Mnemonic::Sta => (83, 84, 65),
        Mnemonic::Stx => (83, 84, 88),
        Mnemonic::Sty => (83, 84, 89),
        Mnemonic::Tas => (84, 65, 83),
        Mnemonic::Tax => (84, 65, 88),
        Mnemonic::Tay => (84, 65, 89),
        Mnemonic::Tsx => (84, 83, 88),
        Mnemonic::Txa => (84, 88, 65),
        Mnemonic::Txs => (84, 88, 83),
        Mnemonic::Tya => (84, 89, 65),
        Mnemonic::Xaa => (88, 65, 65),
    }
}

/// Converts ASCII bytes into the `String` holding the same characters.
/// Relies on `String::from_utf8`: bytes below 0x80 are single-byte UTF-8
/// sequences decoding to the characters with the same code points.
#[verifier::external_body]
fn ascii_to_string(bytes: Vec<u8>) -> (r: String)
    requires
        ascii_seq(bytes@),
    ensures
        r@.len() == bytes@.len(),
        forall|i: int| 0 <= i < bytes@.len() ==> r@[i] == bytes@[i] as char,
{
    match String::from_utf8(bytes) {
        Ok(s) => s,
        Err(_) => String::new(),
    }
}

impl<B: Bus> CPU<B> {
    /// `count` bytes peeked from `start` on, as space-separated hex pairs.
    fn hexdump(&self, start: u16, count: u16) -> (r: Vec<u8>)
        ensures
            r@ == hexdump_bytes::<B>(self.bus@, start, count as nat),
            r@.len() == 3 * count,
            ascii_seq(r@),
    {
        proof {
            lemma_hexdump_len::<B>(self.bus@, start, count as nat);
            lemma_hexdump_ascii::<B>(self.bus@, start, count as nat);
        }
        let mut out: Vec<u8> = Vec::new();
        let mut i: u16 = 0;
        while i < count
            invariant
                i <= count,
                out@ == hexdump_bytes::<B>(self.bus@, start, i as nat),
            decreases count - i,
        {
            let value = self.bus.peek(start.wrapping_add(i));
            push_hex2(&mut out, value);
            push1(&mut out, 32);
            proof {
                assert(out@ =~= hexdump_bytes::<B>(self.bus@, start, (i + 1) as nat));
            }
            i = i + 1;
        }
        out
    }

    /// One trace line for the instruction under the program counter, in
    /// the `nestest` log columns. Uses only side-effect-free peeks: the
    /// machine is left exactly as it was.
    pub fn trace(&self) -> (r: String)
        ensures
            r@.len() == trace_bytes::<B>(self.regs(), self.bus@).len(),
            forall|i: int|
                0 <= i < r@.len() ==> r@[i] == trace_bytes::<B>(self.regs(), self.bus@)[i] as char,
    {
        let pc = self.program_counter;
        let opcode = self.bus.peek(pc);
        let info = opcode_entry(opcode);
        let len = opcode_len(info.mode);
        let mut out: Vec<u8> = Vec::new();
        push_hex4(&mut out, pc);
        push2(&mut out, 32, 32);
        let mut dump = self.hexdump(pc, len);
        let dump_len = dump.len();
        proof {
            lemma_ascii_append(out@, dump@);
        }
        out.append(&mut dump);
        let pad: usize = if dump_len >= 9 {
            0
        } else {
            9 - dump_len
        };
        push_spaces(&mut out, pad);
        push1(&mut out, 32);
        let letters = mnemonic_letters(info.mnemonic);
        push3(&mut out, letters.0, letters.1, letters.2);
        push_spaces(&mut out, 28);
        push3(&mut out, 32, 65, 58);
        push_hex2(&mut out, self.accumulator);
        push3(&mut out, 32, 88, 58);
        push_hex2(&mut out, self.x_register);
        push3(&mut out, 32, 89, 58);
        push_hex2(&mut out, self.y_register);
        push3(&mut out, 32, 80, 58);
        push_hex2(&mut out, self.status);
        push4(&mut out, 32, 83, 80, 58);
        push_hex2(&mut out, self.stack_pointer);
        push1(&mut out, 32);
        push_spaces(&mut out, 11);
        push5(&mut out, 32, 67, 89, 67, 58);
        push_dec(&mut out, self.total_cycles.wrapping_add(7));
        proof {
            assert(out@ == trace_bytes::<B>(self.regs(), self.bus@));
            assert(ascii_seq(out@));
        }
        ascii_to_string(out)
    }
}

} // verus!
