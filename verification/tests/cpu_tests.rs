use nessie::bus::{Bus, FlatRam};
use nessie::cpu::{CpuError, CPU, FLAG_C, FLAG_N, FLAG_V, FLAG_Z};

fn flat_ram_with(program: &[u8], start: u16) -> FlatRam {
    let mut ram = FlatRam::new();
    let mut address = start;
    for &byte in program {
        ram.write(address, byte);
        address = address.wrapping_add(1);
    }
    ram
}

#[test]
fn test_simple_program() {
    let program = [
        0xa9, 0x10, // LDA #$10     -> A = #$10
        0x85, 0x20, // STA $20      -> $20 = #$10
        0xa9, 0x01, // LDA #$1      -> A = #$1
        0x65, 0x20, // ADC $20      -> A = #$11
        0x85, 0x21, // STA $21      -> $21=#$11
        0xe6, 0x21, // INC $21      -> $21=#$12
        0xa4, 0x21, // LDY $21      -> Y=#$12
        0xc8, // INY          -> Y=#$13
        0x00, // BRK
    ];

    let ram = flat_ram_with(&program, 0x0000);
    let mut cpu = CPU::new(0x00, ram);

    // LDA #$10
    cpu.step().unwrap();
    assert_eq!(cpu.accumulator, 0x10);

    // STA $20
    cpu.step().unwrap();
    assert_eq!(cpu.bus.peek(0x20), 0x10);

    // LDA #$1
    cpu.step().unwrap();
    assert_eq!(cpu.accumulator, 0x01);

    // ADC $20
    cpu.step().unwrap();
    assert_eq!(cpu.accumulator, 0x11);

    // STA $21
    cpu.step().unwrap();
    assert_eq!(cpu.bus.peek(0x21), 0x11);

    // INC $21
    cpu.step().unwrap();
    assert_eq!(cpu.bus.peek(0x21), 0x12);

    // LDY $21
    cpu.step().unwrap();
    assert_eq!(cpu.y_register, 0x12);

    // INY
    cpu.step().unwrap();
    assert_eq!(cpu.y_register, 0x13);
}

#[test]
fn test_euclid_algo() {
    // Euclid's algorithm by repeated subtraction, with operand swap.
    let program = [
        // .algo
        0xa5, 0x00, // LDA $00
        // .algo_
        0x38, // SEC
        0xe5, 0x01, // SBC $01
        0xf0, 0x07, // BEQ end
        0x30, 0x08, // BMI swap
        0x85, 0x00, // STA $00
        0x4c, 0x12, 0x00, // JMP algo_
        // .end
        0xa5, 0x00, // LDA $00
        0x00, // .swap
        0xa6, 0x00, // LDX $00
        0xa4, 0x01, // LDY $01
        0x86, 0x01, // STX $01
        0x84, 0x00, // STY $00
        0x4c, 0x10, 0x00, // JMP algo
    ];

    let mut ram = flat_ram_with(&program, 0x10);
    ram.write(0x00, 30);
    ram.write(0x01, 20);

    let mut cpu = CPU::new(0x10, ram);
    cpu.run_until_brk(65536).unwrap();

    assert_eq!(10, cpu.accumulator);
}

#[test]
fn test_jmp_indirect_page_wrap() {
    // JMP ($10FF): the high byte of the target must come from $1000, not
    // $1100 (the 6502 page-wrap quirk).
    let ram = {
        let mut ram = flat_ram_with(&[0x6c, 0xff, 0x10], 0x0000);
        ram.write(0x10ff, 0x34);
        ram.write(0x1000, 0x12);
        ram.write(0x1100, 0x56);
        ram
    };
    let mut cpu = CPU::new(0x0000, ram);
    cpu.step().unwrap();
    assert_eq!(cpu.program_counter, 0x1234);
}

#[test]
fn test_zero_page_x_wraps_in_zero_page() {
    // LDA $FF,X with X = 1 reads $00, not $0100.
    let mut ram = flat_ram_with(
        &[
            0xa2, 0x01, // LDX #$01
            0xb5, 0xff, // LDA $FF,X
        ],
        0x0000,
    );
    ram.write(0x0000, 0xa2); // also the byte the wrapped read lands on
    ram.write(0x0100, 0x77);
    let mut cpu = CPU::new(0x0000, ram);
    cpu.step().unwrap();
    cpu.step().unwrap();
    assert_eq!(cpu.accumulator, 0xa2);
    assert_ne!(cpu.accumulator, 0x77);
}

#[test]
fn test_branch_cycles_same_page_and_cross_page() {
    // A taken branch costs one extra cycle on the same page...
    let ram = flat_ram_with(&[0x90, 0x05], 0x0000); // BCC +5
    let mut cpu = CPU::new(0x0000, ram);
    let before = cpu.total_cycles;
    cpu.step().unwrap();
    assert_eq!(cpu.total_cycles - before, 3); // 2 base + 1 taken
    assert_eq!(cpu.program_counter, 0x0007);

    // ...and two extra cycles when it crosses a page boundary.
    let ram = flat_ram_with(&[0x90, 0x20], 0x00f0); // BCC +32 from $00F0
    let mut cpu = CPU::new(0x00f0, ram);
    let before = cpu.total_cycles;
    cpu.step().unwrap();
    assert_eq!(cpu.total_cycles - before, 4); // 2 base + 2 cross-page
    assert_eq!(cpu.program_counter, 0x0112);
}

#[test]
fn test_adc_overflow_flags() {
    // ADC of $50 + $50 with carry clear: A = $A0, V and N set, C and Z
    // clear.
    let ram = flat_ram_with(
        &[
            0xa9, 0x50, // LDA #$50
            0x69, 0x50, // ADC #$50
        ],
        0x0000,
    );
    let mut cpu = CPU::new(0x0000, ram);
    cpu.step().unwrap();
    cpu.step().unwrap();
    assert_eq!(cpu.accumulator, 0xa0);
    assert_ne!(cpu.status & FLAG_V, 0);
    assert_ne!(cpu.status & FLAG_N, 0);
    assert_eq!(cpu.status & FLAG_C, 0);
    assert_eq!(cpu.status & FLAG_Z, 0);
}

#[test]
fn test_step_remaining_cycles_zero() {
    let ram = flat_ram_with(&[0xea, 0xea, 0xa9, 0x07], 0x0000); // NOP NOP LDA #$07
    let mut cpu = CPU::new(0x0000, ram);
    for _ in 0..3 {
        cpu.step().unwrap();
        assert_eq!(cpu.remaining_cycles, 0);
    }
    assert_eq!(cpu.accumulator, 0x07);
}

#[test]
fn test_unimplemented_opcode_reported() {
    // $02 is a halt opcode: stepping it reports the opcode and address
    // and leaves the registers untouched.
    let ram = flat_ram_with(&[0x02], 0x0000);
    let mut cpu = CPU::new(0x0000, ram);
    let result = cpu.step();
    assert_eq!(
        result,
        Err(CpuError::UnimplementedOpcode { opcode: 0x02, pc: 0x0000 })
    );
    assert_eq!(cpu.program_counter, 0x0000);

    // $9C is SHY, one of the unstable unofficial opcodes left out.
    let ram = flat_ram_with(&[0x9c, 0x00, 0x20], 0x0000);
    let mut cpu = CPU::new(0x0000, ram);
    assert_eq!(
        cpu.step(),
        Err(CpuError::UnimplementedOpcode { opcode: 0x9c, pc: 0x0000 })
    );
}

#[test]
fn test_run_until_brk_step_limit() {
    // JMP $0000 loops forever; the step budget must stop it.
    let ram = flat_ram_with(&[0x4c, 0x00, 0x00], 0x0000);
    let mut cpu = CPU::new(0x0000, ram);
    assert_eq!(cpu.run_until_brk(10), Err(CpuError::StepLimit));
}

#[test]
fn test_stack_push_pop_round_trip() {
    let ram = flat_ram_with(
        &[
            0xa9, 0x3c, // LDA #$3C
            0x48, // PHA
            0xa9, 0x00, // LDA #$00
            0x68, // PLA
        ],
        0x0000,
    );
    let mut cpu = CPU::new(0x0000, ram);
    let sp = cpu.stack_pointer;
    cpu.step().unwrap();
    cpu.step().unwrap();
    assert_eq!(cpu.stack_pointer, sp.wrapping_sub(1));
    assert_eq!(cpu.bus.peek(0x0100 + sp as u16), 0x3c);
    cpu.step().unwrap();
    assert_eq!(cpu.accumulator, 0x00);
    cpu.step().unwrap();
    assert_eq!(cpu.accumulator, 0x3c);
    assert_eq!(cpu.stack_pointer, sp);
}

#[test]
fn test_trace_format() {
    // JMP $C5F5 at $C000 in a freshly powered CPU renders the familiar
    // first line of a `nestest` log, minus the disassembled operand and
    // the live PPU column.
    let ram = flat_ram_with(&[0x4c, 0xf5, 0xc5], 0xc000);
    let cpu = CPU::new(0xc000, ram);
    let trace = cpu.trace();
    let expected = format!(
        "C000  4C F5 C5  JMP{} A:00 X:00 Y:00 P:24 SP:FD {} CYC:7",
        " ".repeat(28),
        " ".repeat(11),
    );
    assert_eq!(trace, expected);
    // The column slices a golden-log comparison would take:
    assert_eq!(&trace[0..15], "C000  4C F5 C5 ");
    assert_eq!(&trace[16..19], "JMP");
    assert_eq!(&trace[48..73], "A:00 X:00 Y:00 P:24 SP:FD");
    assert_eq!(&trace[86..], "CYC:7");
}

#[test]
fn test_base_cycle_costs_and_lengths() {
    // Spot-check documented base cycle costs and instruction lengths
    // through the cycle counter and the program counter.
    let cases: &[(&[u8], u64, u16)] = &[
        (&[0xa9, 0x01], 2, 2),       // LDA #imm
        (&[0xa5, 0x10], 3, 2),       // LDA zp
        (&[0xad, 0x00, 0x03], 4, 3), // LDA abs
        (&[0xe6, 0x10], 5, 2),       // INC zp
        (&[0x4c, 0x05, 0x00], 3, 0), // JMP abs (PC checked separately)
        (&[0x48], 3, 1),             // PHA
        (&[0x68], 4, 1),             // PLA
        (&[0xea], 2, 1),             // NOP
        (&[0x04, 0x10], 3, 2),       // unofficial NOP zp
        (&[0xc7, 0x10], 5, 2),       // unofficial DCP zp
    ];
    for &(program, cycles, length) in cases {
        let ram = flat_ram_with(program, 0x0000);
        let mut cpu = CPU::new(0x0000, ram);
        cpu.step().unwrap();
        assert_eq!(cpu.total_cycles, cycles, "cycles of {:02X?}", program);
        if length != 0 {
            assert_eq!(cpu.program_counter, length, "length of {:02X?}", program);
        }
    }
    // JSR then RTS: 6 cycles each, and the return lands after the JSR.
    let mut program = vec![0x20, 0x05, 0x00, 0xea, 0xea, 0x60]; // JSR $0005; ...; RTS
    program[3] = 0xea;
    let ram = flat_ram_with(&program, 0x0000);
    let mut cpu = CPU::new(0x0000, ram);
    cpu.step().unwrap();
    assert_eq!(cpu.total_cycles, 6);
    assert_eq!(cpu.program_counter, 0x0005);
    cpu.step().unwrap(); // RTS
    assert_eq!(cpu.total_cycles, 12);
    assert_eq!(cpu.program_counter, 0x0003);
}

#[test]
fn test_trace_leaves_machine_unchanged() {
    let ram = flat_ram_with(&[0xa9, 0x10], 0x0000);
    let mut cpu = CPU::new(0x0000, ram);
    let first = cpu.trace();
    let second = cpu.trace();
    assert_eq!(first, second);
    cpu.step().unwrap();
    assert_eq!(cpu.accumulator, 0x10);
}
