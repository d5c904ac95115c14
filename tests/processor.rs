use nes_cpu::{Flag, CPU, IRQ_VECTOR, RESET_VECTOR};

const START: u16 = 0x0600;

/// A processor with `program` at 0x0600, reset to run it.
fn machine(program: &[u8]) -> CPU {
    let mut cpu = CPU::default();
    cpu.load_program(START, program);
    cpu.load_vector(RESET_VECTOR, START);
    cpu.reset();
    cpu
}

fn run(cpu: &mut CPU, steps: usize) {
    for _ in 0..steps {
        cpu.step();
    }
}

#[test]
fn update_status_sets_zero_and_negative_exactly() {
    let mut cpu = CPU::default();
    for v in 0..=255u8 {
        cpu.update_status(v);
        assert_eq!(cpu.is_set(Flag::Zero), v == 0);
        assert_eq!(cpu.is_set(Flag::Negative), v >= 0x80);
        assert!(!(cpu.is_set(Flag::Zero) && cpu.is_set(Flag::Negative)));
    }
    cpu.update_status(0x80);
    cpu.update_status(0x01);
    assert!(!cpu.is_set(Flag::Negative));
    assert!(!cpu.is_set(Flag::Zero));
}

#[test]
fn update_status_keeps_other_flags() {
    let mut cpu = CPU::default();
    cpu.set_flag(Flag::Carry, true);
    cpu.set_flag(Flag::Overflow, true);
    cpu.update_status(0);
    assert_eq!(cpu.status(), 0b0100_0011);
}

#[test]
fn indirect_jump_reads_high_byte_from_same_page() {
    // JMP ($02FF)
    let mut cpu = machine(&[0x6c, 0xff, 0x02]);
    cpu.write_memory(0x02ff, 0x34);
    cpu.write_memory(0x0200, 0x12);
    cpu.write_memory(0x0300, 0x56);
    cpu.step();
    assert_eq!(cpu.program_counter(), 0x1234);
}

#[test]
fn indirect_jump_inside_page() {
    // JMP ($0280)
    let mut cpu = machine(&[0x6c, 0x80, 0x02]);
    cpu.write_memory(0x0280, 0xcd);
    cpu.write_memory(0x0281, 0xab);
    cpu.step();
    assert_eq!(cpu.program_counter(), 0xabcd);
    assert_eq!(cpu.cycle_count(), 5);
}

#[test]
fn push_then_pop_returns_value() {
    let mut cpu = machine(&[]);
    for v in 0..=255u8 {
        let sp = cpu.stack_pointer();
        cpu.push(v);
        assert_eq!(cpu.stack_pointer(), sp.wrapping_sub(1));
        assert_eq!(cpu.read_memory(0x0100 + sp as u16), v);
        assert_eq!(cpu.pop(), v);
        assert_eq!(cpu.stack_pointer(), sp);
    }
}

#[test]
fn stack_wraps_after_256_pushes() {
    let mut cpu = machine(&[]);
    assert_eq!(cpu.stack_pointer(), 0xff);
    for i in 0..256u32 {
        cpu.push(i as u8);
    }
    assert_eq!(cpu.stack_pointer(), 0xff);
    for i in 0..44u32 {
        cpu.push(i as u8);
    }
    assert_eq!(cpu.stack_pointer(), 0xd3);
    assert_eq!(cpu.read_memory(0x01ff), 0);
    assert_eq!(cpu.read_memory(0x0200), 0);
    assert_eq!(cpu.read_memory(0x00ff), 0);
}

#[test]
fn pop_on_empty_stack_wraps() {
    let mut cpu = machine(&[]);
    cpu.write_memory(0x0100, 0x42);
    assert_eq!(cpu.pop(), 0x42);
    assert_eq!(cpu.stack_pointer(), 0x00);
}

#[test]
fn jsr_then_rts_returns_after_call() {
    // JSR $0700
    let mut cpu = machine(&[0x20, 0x00, 0x07]);
    cpu.write_memory(0x0700, 0x60); // RTS
    cpu.step();
    assert_eq!(cpu.program_counter(), 0x0700);
    assert_eq!(cpu.stack_pointer(), 0xfd);
    assert_eq!(cpu.read_memory(0x01ff), 0x06);
    assert_eq!(cpu.read_memory(0x01fe), 0x02);
    cpu.step();
    assert_eq!(cpu.program_counter(), 0x0603);
    assert_eq!(cpu.stack_pointer(), 0xff);
    assert_eq!(cpu.cycle_count(), 12);
}

#[test]
fn adc_positive_operands_overflow() {
    // CLC; LDA #$50; ADC #$50
    let mut cpu = machine(&[0x18, 0xa9, 0x50, 0x69, 0x50]);
    run(&mut cpu, 3);
    assert_eq!(cpu.accumulator(), 0xa0);
    assert!(cpu.is_set(Flag::Overflow));
    assert!(!cpu.is_set(Flag::Carry));
    assert!(cpu.is_set(Flag::Negative));
    assert!(!cpu.is_set(Flag::Zero));
}

#[test]
fn adc_negative_operands_carry() {
    // CLC; LDA #$D0; ADC #$90: -48 + -112 leaves the signed range, and carries out.
    let mut cpu = machine(&[0x18, 0xa9, 0xd0, 0x69, 0x90]);
    run(&mut cpu, 3);
    assert_eq!(cpu.accumulator(), 0x60);
    assert!(cpu.is_set(Flag::Carry));
    assert!(cpu.is_set(Flag::Overflow));
    assert!(!cpu.is_set(Flag::Negative));
}

#[test]
fn adc_mixed_signs_never_overflow() {
    // CLC; LDA #$50; ADC #$D0
    let mut cpu = machine(&[0x18, 0xa9, 0x50, 0x69, 0xd0]);
    run(&mut cpu, 3);
    assert_eq!(cpu.accumulator(), 0x20);
    assert!(!cpu.is_set(Flag::Overflow));
    assert!(cpu.is_set(Flag::Carry));
    let mut cpu = machine(&[0x38, 0xa9, 0x00, 0x69, 0x00]);
    for a in 0..=255u8 {
        for b in 0..=255u8 {
            cpu.write_memory(START + 2, a);
            cpu.write_memory(START + 4, b);
            cpu.reset();
            run(&mut cpu, 3);
            let signed = a as i8 as i32 + b as i8 as i32 + 1;
            assert_eq!(cpu.is_set(Flag::Overflow), !(-128..=127).contains(&signed));
            assert_eq!(cpu.is_set(Flag::Carry), a as u32 + b as u32 + 1 > 0xff);
            if (a < 0x80) != (b < 0x80) {
                assert!(!cpu.is_set(Flag::Overflow));
            }
        }
    }
}

#[test]
fn adc_adds_carry_in() {
    // SEC; LDA #$FF; ADC #$00
    let mut cpu = machine(&[0x38, 0xa9, 0xff, 0x69, 0x00]);
    run(&mut cpu, 3);
    assert_eq!(cpu.accumulator(), 0x00);
    assert!(cpu.is_set(Flag::Carry));
    assert!(cpu.is_set(Flag::Zero));
    assert!(!cpu.is_set(Flag::Overflow));
}

#[test]
fn adc_ignores_decimal_mode() {
    // SED; CLC; LDA #$09; ADC #$01
    let mut cpu = machine(&[0xf8, 0x18, 0xa9, 0x09, 0x69, 0x01]);
    run(&mut cpu, 4);
    assert_eq!(cpu.accumulator(), 0x0a);
    assert!(cpu.is_set(Flag::Decimal));
}

#[test]
fn sbc_with_carry_clear() {
    // CLC; LDA #$50; SBC #$10
    let mut cpu = machine(&[0x18, 0xa9, 0x50, 0xe9, 0x10]);
    run(&mut cpu, 3);
    assert_eq!(cpu.accumulator(), 0x40);
    assert!(cpu.is_set(Flag::Carry));
    assert!(!cpu.is_set(Flag::Overflow));
}

#[test]
fn sbc_with_carry_set() {
    // SEC; LDA #$50; SBC #$10: the difference 0x140 exceeds a byte.
    let mut cpu = machine(&[0x38, 0xa9, 0x50, 0xe9, 0x10]);
    run(&mut cpu, 3);
    assert_eq!(cpu.accumulator(), 0x40);
    assert!(!cpu.is_set(Flag::Carry));
    assert!(!cpu.is_set(Flag::Overflow));
}

#[test]
fn sbc_below_zero_wraps() {
    // CLC; LDA #$10; SBC #$50
    let mut cpu = machine(&[0x18, 0xa9, 0x10, 0xe9, 0x50]);
    run(&mut cpu, 3);
    assert_eq!(cpu.accumulator(), 0xc0);
    assert!(!cpu.is_set(Flag::Carry));
    assert!(!cpu.is_set(Flag::Overflow));
    assert!(cpu.is_set(Flag::Negative));
}

#[test]
fn sbc_signed_overflow() {
    // SEC; LDA #$50; SBC #$B0: operands of different sign, difference 0xA0.
    let mut cpu = machine(&[0x38, 0xa9, 0x50, 0xe9, 0xb0]);
    run(&mut cpu, 3);
    assert_eq!(cpu.accumulator(), 0xa0);
    assert!(cpu.is_set(Flag::Overflow));
    assert!(cpu.is_set(Flag::Carry));
}

#[test]
fn load_store_load_increment_program() {
    // LDA #$05; STA $00; LDX $00; INX
    let mut cpu = machine(&[0xa9, 0x05, 0x85, 0x00, 0xa6, 0x00, 0xe8]);
    run(&mut cpu, 4);
    assert_eq!(cpu.accumulator(), 0x05);
    assert_eq!(cpu.read_memory(0x0000), 0x05);
    assert_eq!(cpu.index_x(), 0x06);
    assert!(!cpu.is_set(Flag::Zero));
    assert!(!cpu.is_set(Flag::Negative));
    assert_eq!(cpu.program_counter(), 0x0607);
    assert_eq!(cpu.cycle_count(), 10);
    assert!(cpu.is_running());
}

#[test]
fn reset_loads_vector() {
    let mut cpu = CPU::default();
    cpu.write_memory(0xfffc, 0x34);
    cpu.write_memory(0xfffd, 0x12);
    cpu.reset();
    assert_eq!(cpu.program_counter(), 0x1234);
    assert_eq!(cpu.stack_pointer(), 0xff);
    assert!(cpu.is_running());
}

#[test]
fn load_vector_is_little_endian() {
    let mut cpu = CPU::default();
    cpu.load_vector(RESET_VECTOR, 0x1234);
    assert_eq!(cpu.read_memory(0xfffc), 0x34);
    assert_eq!(cpu.read_memory(0xfffd), 0x12);
    cpu.load_vector(0xffff, 0xabcd);
    assert_eq!(cpu.read_memory(0xffff), 0xcd);
    assert_eq!(cpu.read_memory(0x0000), 0xab);
}

#[test]
fn branch_backwards_wraps_below_zero() {
    // BNE -1 at 0xFFFE: after the operand the counter is 0x0000.
    let mut cpu = CPU::default();
    cpu.write_memory(0xfffe, 0xd0);
    cpu.write_memory(0xffff, 0xff);
    cpu.load_vector(RESET_VECTOR, 0xfffe);
    cpu.reset();
    cpu.step();
    assert_eq!(cpu.program_counter(), 0xffff);
}

#[test]
fn branch_forward_and_not_taken() {
    // LDA #$00; BEQ +4; BNE +4
    let mut cpu = machine(&[0xa9, 0x00, 0xf0, 0x04]);
    run(&mut cpu, 2);
    assert_eq!(cpu.program_counter(), 0x0608);
    let mut cpu = machine(&[0xa9, 0x00, 0xd0, 0x04]);
    run(&mut cpu, 2);
    assert_eq!(cpu.program_counter(), 0x0604);
    // BPL -128 from 0x0602.
    let mut cpu = machine(&[0x10, 0x80]);
    cpu.step();
    assert_eq!(cpu.program_counter(), 0x0582);
}

#[test]
fn unknown_opcode_halts() {
    let mut cpu = machine(&[0x02]);
    cpu.step();
    assert!(!cpu.is_running());
    assert_eq!(cpu.cycle_count(), 0);
    assert_eq!(cpu.program_counter(), 0x0601);
}

#[test]
fn unstable_opcodes_halt() {
    for opcode in [0x8bu8, 0xab] {
        let mut cpu = machine(&[opcode, 0x00]);
        cpu.step();
        assert!(!cpu.is_running());
        assert_eq!(cpu.accumulator(), 0);
    }
}

#[test]
fn brk_enters_interrupt_and_rti_returns() {
    // BRK; padding
    let mut cpu = machine(&[0x00, 0xea]);
    cpu.load_vector(IRQ_VECTOR, 0x8000);
    cpu.write_memory(0x8000, 0x40); // RTI
    cpu.step();
    assert_eq!(cpu.program_counter(), 0x8000);
    assert_eq!(cpu.stack_pointer(), 0xfc);
    assert_eq!(cpu.read_memory(0x01ff), 0x06);
    assert_eq!(cpu.read_memory(0x01fe), 0x02);
    assert_eq!(cpu.read_memory(0x01fd), 0b0001_0000);
    assert!(cpu.is_set(Flag::Interrupt));
    assert!(cpu.is_set(Flag::B));
    assert_eq!(cpu.cycle_count(), 7);
    cpu.step();
    assert_eq!(cpu.program_counter(), 0x0602);
    assert_eq!(cpu.stack_pointer(), 0xff);
    assert_eq!(cpu.status(), 0b0001_0000);
}

#[test]
fn zero_page_indexing_stays_in_page_zero() {
    // LDX #$02; LDA $FF,X
    let mut cpu = machine(&[0xa2, 0x02, 0xb5, 0xff]);
    cpu.write_memory(0x0001, 0x77);
    cpu.write_memory(0x0101, 0x88);
    run(&mut cpu, 2);
    assert_eq!(cpu.accumulator(), 0x77);
}

#[test]
fn absolute_indexed_addressing() {
    // LDY #$10; LDA $1234,Y; LDX #$FF; STA $FFF0,X
    let mut cpu = machine(&[0xa0, 0x10, 0xb9, 0x34, 0x12, 0xa2, 0xff, 0x9d, 0xf0, 0xff]);
    cpu.write_memory(0x1244, 0x99);
    run(&mut cpu, 4);
    assert_eq!(cpu.accumulator(), 0x99);
    assert_eq!(cpu.read_memory(0x00ef), 0x99);
}

#[test]
fn indexed_indirect_addressing() {
    // LDX #$01; LDA ($FE,X): the pointer sits at 0x00FF and 0x0000.
    let mut cpu = machine(&[0xa2, 0x01, 0xa1, 0xfe]);
    cpu.write_memory(0x00ff, 0x00);
    cpu.write_memory(0x0000, 0x30);
    cpu.write_memory(0x3000, 0x5a);
    run(&mut cpu, 2);
    assert_eq!(cpu.accumulator(), 0x5a);
}

#[test]
fn indirect_indexed_addressing() {
    // LDY #$05; LDA ($40),Y
    let mut cpu = machine(&[0xa0, 0x05, 0xb1, 0x40]);
    cpu.write_memory(0x0040, 0xfe);
    cpu.write_memory(0x0041, 0x20);
    cpu.write_memory(0x2103, 0x3c);
    run(&mut cpu, 2);
    assert_eq!(cpu.accumulator(), 0x3c);
    assert_eq!(cpu.cycle_count(), 7);
}

#[test]
fn shifts_on_accumulator() {
    // LDA #$81; ASL A
    let mut cpu = machine(&[0xa9, 0x81, 0x0a]);
    run(&mut cpu, 2);
    assert_eq!(cpu.accumulator(), 0x02);
    assert!(cpu.is_set(Flag::Carry));
    // LDA #$81; LSR A
    let mut cpu = machine(&[0xa9, 0x81, 0x4a]);
    run(&mut cpu, 2);
    assert_eq!(cpu.accumulator(), 0x40);
    assert!(cpu.is_set(Flag::Carry));
    // SEC; LDA #$40; ROL A
    let mut cpu = machine(&[0x38, 0xa9, 0x40, 0x2a]);
    run(&mut cpu, 3);
    assert_eq!(cpu.accumulator(), 0x81);
    assert!(!cpu.is_set(Flag::Carry));
    assert!(cpu.is_set(Flag::Negative));
    // SEC; LDA #$02; ROR A
    let mut cpu = machine(&[0x38, 0xa9, 0x02, 0x6a]);
    run(&mut cpu, 3);
    assert_eq!(cpu.accumulator(), 0x81);
    assert!(!cpu.is_set(Flag::Carry));
}

#[test]
fn shifts_on_memory() {
    // LSR $10: bit 0 goes to the carry.
    let mut cpu = machine(&[0x46, 0x10]);
    cpu.write_memory(0x0010, 0x01);
    cpu.step();
    assert_eq!(cpu.read_memory(0x0010), 0x00);
    assert!(cpu.is_set(Flag::Carry));
    assert!(cpu.is_set(Flag::Zero));
    assert_eq!(cpu.cycle_count(), 5);
    // ASL $0300
    let mut cpu = machine(&[0x0e, 0x00, 0x03]);
    cpu.write_memory(0x0300, 0x40);
    cpu.step();
    assert_eq!(cpu.read_memory(0x0300), 0x80);
    assert!(!cpu.is_set(Flag::Carry));
    assert!(cpu.is_set(Flag::Negative));
    // SEC; ROR $10
    let mut cpu = machine(&[0x38, 0x66, 0x10]);
    cpu.write_memory(0x0010, 0x02);
    run(&mut cpu, 2);
    assert_eq!(cpu.read_memory(0x0010), 0x81);
    // SEC; ROL $10
    let mut cpu = machine(&[0x38, 0x26, 0x10]);
    cpu.write_memory(0x0010, 0x80);
    run(&mut cpu, 2);
    assert_eq!(cpu.read_memory(0x0010), 0x01);
    assert!(cpu.is_set(Flag::Carry));
}

#[test]
fn compare_sets_flags_from_left_operand() {
    // LDA #$90; CMP #$10
    let mut cpu = machine(&[0xa9, 0x90, 0xc9, 0x10]);
    run(&mut cpu, 2);
    assert!(cpu.is_set(Flag::Carry));
    assert!(!cpu.is_set(Flag::Zero));
    assert!(cpu.is_set(Flag::Negative));
    // LDX #$10; CPX #$10
    let mut cpu = machine(&[0xa2, 0x10, 0xe0, 0x10]);
    run(&mut cpu, 2);
    assert!(cpu.is_set(Flag::Zero));
    assert!(cpu.is_set(Flag::Carry));
    assert!(!cpu.is_set(Flag::Negative));
    // LDY #$01; CPY #$02
    let mut cpu = machine(&[0xa0, 0x01, 0xc0, 0x02]);
    run(&mut cpu, 2);
    assert!(!cpu.is_set(Flag::Zero));
    assert!(!cpu.is_set(Flag::Carry));
}

#[test]
fn bit_test_flags() {
    // LDA #$01; BIT $20
    let mut cpu = machine(&[0xa9, 0x01, 0x24, 0x20]);
    cpu.write_memory(0x0020, 0xc0);
    run(&mut cpu, 2);
    assert!(cpu.is_set(Flag::Zero));
    assert!(cpu.is_set(Flag::Negative));
    assert!(cpu.is_set(Flag::Overflow));
    assert_eq!(cpu.accumulator(), 0x01);
    // LDA #$41; BIT $20
    let mut cpu = machine(&[0xa9, 0x41, 0x24, 0x20]);
    cpu.write_memory(0x0020, 0x41);
    run(&mut cpu, 2);
    assert!(!cpu.is_set(Flag::Zero));
    assert!(!cpu.is_set(Flag::Negative));
    assert!(cpu.is_set(Flag::Overflow));
}

#[test]
fn increments_and_decrements_wrap() {
    // DEC $10; INC $11; LDX #$00; DEX; LDY #$FF; INY
    let mut cpu = machine(&[0xc6, 0x10, 0xe6, 0x11, 0xa2, 0x00, 0xca, 0xa0, 0xff, 0xc8]);
    cpu.write_memory(0x0011, 0xff);
    run(&mut cpu, 2);
    assert_eq!(cpu.read_memory(0x0010), 0xff);
    assert_eq!(cpu.read_memory(0x0011), 0x00);
    assert!(cpu.is_set(Flag::Zero));
    run(&mut cpu, 2);
    assert_eq!(cpu.index_x(), 0xff);
    assert!(cpu.is_set(Flag::Negative));
    run(&mut cpu, 2);
    assert_eq!(cpu.index_y(), 0x00);
    assert!(cpu.is_set(Flag::Zero));
}

#[test]
fn logic_operations() {
    // LDA #$F0; AND #$3C; ORA #$01; EOR #$FF
    let mut cpu = machine(&[0xa9, 0xf0, 0x29, 0x3c, 0x09, 0x01, 0x49, 0xff]);
    run(&mut cpu, 2);
    assert_eq!(cpu.accumulator(), 0x30);
    run(&mut cpu, 1);
    assert_eq!(cpu.accumulator(), 0x31);
    run(&mut cpu, 1);
    assert_eq!(cpu.accumulator(), 0xce);
    assert!(cpu.is_set(Flag::Negative));
}

#[test]
fn transfers_and_stack_operations() {
    // LDA #$80; TAX; TAY; LDA #$00; TXA; PHA; PHP; LDA #$01; PLP; PLA; TSX
    let mut cpu = machine(&[
        0xa9, 0x80, 0xaa, 0xa8, 0xa9, 0x00, 0x8a, 0x48, 0x08, 0xa9, 0x01, 0x28, 0x68, 0xba,
    ]);
    run(&mut cpu, 3);
    assert_eq!(cpu.index_x(), 0x80);
    assert_eq!(cpu.index_y(), 0x80);
    run(&mut cpu, 2);
    assert_eq!(cpu.accumulator(), 0x80);
    run(&mut cpu, 2);
    assert_eq!(cpu.stack_pointer(), 0xfd);
    assert_eq!(cpu.read_memory(0x01ff), 0x80);
    assert_eq!(cpu.read_memory(0x01fe), 0b1000_0000);
    run(&mut cpu, 2);
    assert!(cpu.is_set(Flag::Negative));
    run(&mut cpu, 1);
    assert_eq!(cpu.accumulator(), 0x80);
    run(&mut cpu, 1);
    assert_eq!(cpu.index_x(), 0xff);
    assert!(cpu.is_set(Flag::Negative));
}

#[test]
fn txs_sets_stack_pointer() {
    // LDX #$00; TXS
    let mut cpu = machine(&[0xa2, 0x00, 0x9a]);
    run(&mut cpu, 2);
    assert_eq!(cpu.stack_pointer(), 0x00);
    assert!(cpu.is_set(Flag::Zero));
}

#[test]
fn flag_instructions() {
    // SEC; SEI; SED; CLC; CLI; CLD; CLV
    let mut cpu = machine(&[0x38, 0x78, 0xf8]);
    run(&mut cpu, 3);
    assert_eq!(cpu.status(), 0b0000_1101);
    let mut cpu = machine(&[0x38, 0x78, 0xf8, 0x18, 0x58, 0xd8, 0xb8]);
    cpu.set_flag(Flag::Overflow, true);
    run(&mut cpu, 7);
    assert_eq!(cpu.status(), 0);
    assert_eq!(cpu.cycle_count(), 14);
}

#[test]
fn store_register_variants() {
    // LDX #$11; LDY #$22; STX $30; STY $0400; LDA #$33; LDX #$00; STA ($40,X)
    let mut cpu = machine(&[
        0xa2, 0x11, 0xa0, 0x22, 0x86, 0x30, 0x8c, 0x00, 0x04, 0xa9, 0x33, 0xa2, 0x00, 0x81, 0x40,
    ]);
    cpu.write_memory(0x0040, 0x00);
    cpu.write_memory(0x0041, 0x05);
    run(&mut cpu, 7);
    assert_eq!(cpu.read_memory(0x0030), 0x11);
    assert_eq!(cpu.read_memory(0x0400), 0x22);
    assert_eq!(cpu.read_memory(0x0500), 0x33);
}

#[test]
fn nop_does_nothing_but_count() {
    let mut cpu = machine(&[0xea]);
    cpu.step();
    assert_eq!(cpu.program_counter(), 0x0601);
    assert_eq!(cpu.cycle_count(), 2);
    assert_eq!(cpu.accumulator(), 0);
    assert_eq!(cpu.status(), 0);
}

#[test]
fn cycle_count_resets() {
    let mut cpu = machine(&[0xea, 0xea]);
    run(&mut cpu, 2);
    assert_eq!(cpu.cycle_count(), 4);
    cpu.reset_cycle_count();
    assert_eq!(cpu.cycle_count(), 0);
    assert_eq!(cpu.program_counter(), 0x0602);
}

#[test]
fn fresh_processor_is_zeroed_and_halted() {
    let cpu = CPU::default();
    assert!(!cpu.is_running());
    assert_eq!(cpu.cycle_count(), 0);
    assert_eq!(cpu.program_counter(), 0);
    assert_eq!(cpu.stack_pointer(), 0);
    assert_eq!(cpu.status(), 0);
    assert_eq!(cpu.read_memory(0xffff), 0);
}

#[test]
fn load_program_places_bytes() {
    let mut cpu = CPU::default();
    cpu.load_program(0xfffd, &[1, 2, 3]);
    assert_eq!(cpu.read_memory(0xfffd), 1);
    assert_eq!(cpu.read_memory(0xfffe), 2);
    assert_eq!(cpu.read_memory(0xffff), 3);
    assert_eq!(cpu.read_memory(0x0000), 0);
}
