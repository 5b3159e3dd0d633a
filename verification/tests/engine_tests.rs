use mos6502::cpu::CPU;
use mos6502::instruction::Instruction;
use mos6502::memory::Memory;

fn opcode(i: Instruction) -> u8 {
    u8::from(i)
}

#[test]
fn test_lda_immediate_sets_negative() {
    let mut cpu = CPU::default();
    let mut memory = Memory::default();
    cpu.reset();

    memory.write_byte(0x0000, 0xA9);
    memory.write_byte(0x0001, 0x80);

    assert!(cpu.step(&mut memory));

    assert_eq!(cpu.get_a(), 0x80);
    assert_eq!(cpu.get_pc(), 0x0002);
    assert_eq!(cpu.get_cycles(), 2);
    assert!(cpu.get_negative());
    assert!(!cpu.get_zero());
    assert!(!cpu.get_carry());
    assert!(!cpu.get_overflow());
    assert!(!cpu.get_interrupt_disable());
    assert!(!cpu.get_decimal_mode());
    assert!(!cpu.get_break_command());
}

#[test]
fn test_adc_signed_overflow() {
    let mut cpu = CPU::default();
    let mut memory = Memory::default();
    cpu.reset();

    // LDA #$7F; ADC #$01 with carry clear
    memory.write_byte(0x0000, 0xA9);
    memory.write_byte(0x0001, 0x7F);
    memory.write_byte(0x0002, 0x69);
    memory.write_byte(0x0003, 0x01);

    assert!(cpu.step(&mut memory));
    assert!(cpu.step(&mut memory));

    assert_eq!(cpu.get_a(), 0x80);
    assert!(cpu.get_negative());
    assert!(cpu.get_overflow());
    assert!(!cpu.get_carry());
    assert!(!cpu.get_zero());
    assert_eq!(cpu.get_cycles(), 4);
    assert_eq!(cpu.get_pc(), 0x0004);
}

#[test]
fn test_branch_taken_page_cross() {
    let mut cpu = CPU::default();
    let mut memory = Memory::default();
    cpu.reset();
    cpu.set_pc(0x00FD);

    // BCC +5 with carry clear: the target $0104 is on another page than
    // the next instruction at $00FF
    memory.write_byte(0x00FD, 0x90);
    memory.write_byte(0x00FE, 0x05);

    assert!(cpu.step(&mut memory));

    assert_eq!(cpu.get_pc(), 0x0104);
    assert_eq!(cpu.get_cycles(), 4);
}

#[test]
fn test_branch_not_taken_falls_through() {
    let mut cpu = CPU::default();
    let mut memory = Memory::default();
    cpu.reset();
    cpu.set_carry(true);

    memory.write_byte(0x0000, 0x90);
    memory.write_byte(0x0001, 0x05);

    assert!(cpu.step(&mut memory));

    assert_eq!(cpu.get_pc(), 0x0002);
    assert_eq!(cpu.get_cycles(), 2);
}

#[test]
fn test_branch_negative_offset() {
    let mut cpu = CPU::default();
    let mut memory = Memory::default();
    cpu.reset();
    cpu.set_pc(0x0010);
    cpu.set_zero(true);

    // BEQ -4: from the next instruction at $0012 back to $000E
    memory.write_byte(0x0010, 0xF0);
    memory.write_byte(0x0011, 0xFC);

    assert!(cpu.step(&mut memory));

    assert_eq!(cpu.get_pc(), 0x000E);
    assert_eq!(cpu.get_cycles(), 3);
}

#[test]
fn test_jsr_rts_scenario() {
    let mut cpu = CPU::default();
    let mut memory = Memory::default();
    cpu.reset();
    cpu.set_sp(0xFF);

    memory.write_byte(0x0000, 0x20); // JSR $1234
    memory.write_byte(0x0001, 0x34);
    memory.write_byte(0x0002, 0x12);
    memory.write_byte(0x1234, 0x60); // RTS

    assert!(cpu.step(&mut memory));
    assert_eq!(cpu.get_pc(), 0x1234);
    assert_eq!(cpu.get_sp(), 0xFD);
    assert_eq!(memory.read_byte(0x01FE), 0x02);
    assert_eq!(memory.read_byte(0x01FF), 0x00);

    assert!(cpu.step(&mut memory));
    assert_eq!(cpu.get_pc(), 0x0003);
    assert_eq!(cpu.get_sp(), 0xFF);
    assert_eq!(cpu.get_cycles(), 12);
}

#[test]
fn test_jmp_indirect_page_wrap() {
    let mut cpu = CPU::default();
    let mut memory = Memory::default();
    cpu.reset();

    // JMP ($02FF): the high byte comes from $0200, not $0300
    memory.write_byte(0x0000, 0x6C);
    memory.write_byte(0x0001, 0xFF);
    memory.write_byte(0x0002, 0x02);
    memory.write_byte(0x02FF, 0x34);
    memory.write_byte(0x0200, 0x12);
    memory.write_byte(0x0300, 0x77);

    assert!(cpu.step(&mut memory));

    assert_eq!(cpu.get_pc(), 0x1234);
    assert_eq!(cpu.get_cycles(), 5);
}

#[test]
fn test_jmp_absolute_no_wrap() {
    let mut cpu = CPU::default();
    let mut memory = Memory::default();
    cpu.reset();

    memory.write_byte(0x0000, 0x4C);
    memory.write_byte(0x0001, 0xCD);
    memory.write_byte(0x0002, 0xAB);

    assert!(cpu.step(&mut memory));

    assert_eq!(cpu.get_pc(), 0xABCD);
    assert_eq!(cpu.get_cycles(), 3);
}

#[test]
fn test_inc_wraps_and_sets_zero() {
    let mut cpu = CPU::default();
    let mut memory = Memory::default();
    cpu.reset();

    memory.write_byte(0x0000, 0xE6); // INC $10
    memory.write_byte(0x0001, 0x10);
    memory.write_byte(0x0010, 0xFF);

    assert!(cpu.step(&mut memory));

    assert_eq!(memory.read_byte(0x0010), 0x00);
    assert!(cpu.get_zero());
    assert!(!cpu.get_negative());
    assert_eq!(cpu.get_cycles(), 5);
    assert_eq!(cpu.get_pc(), 0x0002);
}

#[test]
fn test_dec_wraps_to_ff() {
    let mut cpu = CPU::default();
    let mut memory = Memory::default();
    cpu.reset();

    memory.write_byte(0x0000, 0xC6); // DEC $10
    memory.write_byte(0x0001, 0x10);
    memory.write_byte(0x0010, 0x00);

    assert!(cpu.step(&mut memory));

    assert_eq!(memory.read_byte(0x0010), 0xFF);
    assert!(!cpu.get_zero());
    assert!(cpu.get_negative());
    assert_eq!(cpu.get_cycles(), 5);
}

#[test]
fn test_decode_encode_round_trip_all_bytes() {
    for b in 0..=255u8 {
        let i = Instruction::from(b);
        if !matches!(i, Instruction::INVALID) {
            assert_eq!(u8::from(i), b);
        }
    }
    // spot checks that known opcodes map where documented
    assert!(matches!(Instruction::from(0xA9), Instruction::LDA_IM));
    assert!(matches!(Instruction::from(0x20), Instruction::JSR_ABS));
    assert!(matches!(Instruction::from(0x6C), Instruction::JMP_IN));
    assert!(matches!(Instruction::from(0xFF), Instruction::INVALID));
}

#[test]
fn test_invalid_opcode_leaves_engine_usable() {
    let mut cpu = CPU::default();
    let mut memory = Memory::default();
    cpu.reset();

    memory.write_byte(0x0000, 0xFF); // unmapped byte
    memory.write_byte(0x0001, 0xA9); // LDA #$01
    memory.write_byte(0x0002, 0x01);

    assert!(!cpu.step(&mut memory));
    assert_eq!(cpu.get_pc(), 0x0001);
    assert_eq!(cpu.get_cycles(), 0);
    assert_eq!(cpu.get_a(), 0);

    assert!(cpu.step(&mut memory));
    assert_eq!(cpu.get_a(), 0x01);
    assert_eq!(cpu.get_pc(), 0x0003);
    assert_eq!(cpu.get_cycles(), 2);
}

#[test]
fn test_lda_preserves_unrelated_flags() {
    let mut cpu = CPU::default();
    let mut memory = Memory::default();
    cpu.reset();
    cpu.set_carry(true);
    cpu.set_overflow(true);
    cpu.set_interrupt_disable(true);
    cpu.set_decimal_mode(true);
    cpu.set_break_command(true);

    memory.write_byte(0x0000, 0xA9);
    memory.write_byte(0x0001, 0x42);

    assert!(cpu.step(&mut memory));

    assert_eq!(cpu.get_a(), 0x42);
    assert!(cpu.get_carry());
    assert!(cpu.get_overflow());
    assert!(cpu.get_interrupt_disable());
    assert!(cpu.get_decimal_mode());
    assert!(cpu.get_break_command());
    assert!(!cpu.get_zero());
    assert!(!cpu.get_negative());
}

#[test]
fn test_store_changes_no_flags() {
    let mut cpu = CPU::default();
    let mut memory = Memory::default();
    cpu.reset();
    cpu.set_a(0x80);
    cpu.set_carry(true);

    memory.write_byte(0x0000, 0x8D); // STA $0300
    memory.write_byte(0x0001, 0x00);
    memory.write_byte(0x0002, 0x03);

    let status_before = cpu.get_status();
    assert!(cpu.step(&mut memory));

    assert_eq!(cpu.get_status(), status_before);
    assert_eq!(memory.read_byte(0x0300), 0x80);
    assert_eq!(cpu.get_cycles(), 4);
}

#[test]
fn test_pc_advance_matches_instruction_length() {
    let mut cpu = CPU::default();
    let mut memory = Memory::default();
    cpu.reset();

    memory.write_byte(0x0000, opcode(Instruction::INX)); // 1 byte
    memory.write_byte(0x0001, opcode(Instruction::LDA_IM)); // 2 bytes
    memory.write_byte(0x0002, 0x05);
    memory.write_byte(0x0003, opcode(Instruction::LDA_ABS)); // 3 bytes
    memory.write_byte(0x0004, 0x00);
    memory.write_byte(0x0005, 0x03);

    assert!(cpu.step(&mut memory));
    assert_eq!(cpu.get_pc(), 0x0001);
    assert!(cpu.step(&mut memory));
    assert_eq!(cpu.get_pc(), 0x0003);
    assert!(cpu.step(&mut memory));
    assert_eq!(cpu.get_pc(), 0x0006);
}

#[test]
fn test_cycles_accumulate_monotonically() {
    let mut cpu = CPU::default();
    let mut memory = Memory::default();
    cpu.reset();

    memory.write_byte(0x0000, opcode(Instruction::LDA_IM)); // 2 cycles
    memory.write_byte(0x0001, 0x01);
    memory.write_byte(0x0002, opcode(Instruction::STA_ABS)); // 4 cycles
    memory.write_byte(0x0003, 0x00);
    memory.write_byte(0x0004, 0x03);
    memory.write_byte(0x0005, opcode(Instruction::INX)); // 2 cycles

    let mut last = cpu.get_cycles();
    let expected = [2u64, 6, 8];
    for e in expected {
        assert!(cpu.step(&mut memory));
        assert!(cpu.get_cycles() >= last);
        assert_eq!(cpu.get_cycles(), e);
        last = cpu.get_cycles();
    }
}

#[test]
fn test_sta_lda_round_trip() {
    let mut cpu = CPU::default();
    let mut memory = Memory::default();
    cpu.reset();

    // LDA #$C3; STA $0300; LDA #$00; LDA $0300
    memory.write_byte(0x0000, 0xA9);
    memory.write_byte(0x0001, 0xC3);
    memory.write_byte(0x0002, 0x8D);
    memory.write_byte(0x0003, 0x00);
    memory.write_byte(0x0004, 0x03);
    memory.write_byte(0x0005, 0xA9);
    memory.write_byte(0x0006, 0x00);
    memory.write_byte(0x0007, 0xAD);
    memory.write_byte(0x0008, 0x00);
    memory.write_byte(0x0009, 0x03);

    assert!(cpu.step(&mut memory));
    assert!(cpu.step(&mut memory));
    assert_eq!(memory.read_byte(0x0300), 0xC3);

    assert!(cpu.step(&mut memory));
    assert_eq!(cpu.get_a(), 0x00);
    assert!(cpu.get_zero());

    assert!(cpu.step(&mut memory));
    assert_eq!(cpu.get_a(), 0xC3);
    assert!(!cpu.get_zero());
    assert!(cpu.get_negative());
}

#[test]
fn test_stack_push_pull_and_wrap() {
    let mut cpu = CPU::default();
    let mut memory = Memory::default();
    cpu.reset();
    cpu.set_sp(0x00);
    cpu.set_a(0x5A);

    memory.write_byte(0x0000, opcode(Instruction::PHA));
    memory.write_byte(0x0001, opcode(Instruction::LDA_IM));
    memory.write_byte(0x0002, 0x00);
    memory.write_byte(0x0003, opcode(Instruction::PLA));

    assert!(cpu.step(&mut memory));
    // the byte lands at $0100 and SP wraps below the page bottom
    assert_eq!(memory.read_byte(0x0100), 0x5A);
    assert_eq!(cpu.get_sp(), 0xFF);
    assert_eq!(cpu.get_cycles(), 3);

    assert!(cpu.step(&mut memory));
    assert_eq!(cpu.get_a(), 0x00);

    assert!(cpu.step(&mut memory));
    assert_eq!(cpu.get_a(), 0x5A);
    assert_eq!(cpu.get_sp(), 0x00);
    assert!(!cpu.get_zero());
    assert_eq!(cpu.get_cycles(), 3 + 2 + 4);
}

#[test]
fn test_plp_replaces_whole_status() {
    let mut cpu = CPU::default();
    let mut memory = Memory::default();
    cpu.reset();
    cpu.set_sp(0xFF);
    cpu.set_status(0b0101_0101);

    memory.write_byte(0x0000, opcode(Instruction::PHP));
    memory.write_byte(0x0001, opcode(Instruction::PLP));

    assert!(cpu.step(&mut memory));
    cpu.set_status(0x00);
    assert!(cpu.step(&mut memory));

    assert_eq!(cpu.get_status(), 0b0101_0101);
    assert_eq!(cpu.get_sp(), 0xFF);
}

#[test]
fn test_txs_does_not_touch_flags() {
    let mut cpu = CPU::default();
    let mut memory = Memory::default();
    cpu.reset();
    cpu.set_x(0x00);

    memory.write_byte(0x0000, opcode(Instruction::TXS));

    assert!(cpu.step(&mut memory));

    assert_eq!(cpu.get_sp(), 0x00);
    // a zero result, yet TXS must not raise the zero flag
    assert!(!cpu.get_zero());
    assert_eq!(cpu.get_cycles(), 2);
}

#[test]
fn test_tax_sets_flags() {
    let mut cpu = CPU::default();
    let mut memory = Memory::default();
    cpu.reset();
    cpu.set_a(0x00);
    cpu.set_x(0x33);

    memory.write_byte(0x0000, opcode(Instruction::TAX));

    assert!(cpu.step(&mut memory));

    assert_eq!(cpu.get_x(), 0x00);
    assert!(cpu.get_zero());
    assert!(!cpu.get_negative());
}

#[test]
fn test_sbc_borrow_clears_carry() {
    let mut cpu = CPU::default();
    let mut memory = Memory::default();
    cpu.reset();
    cpu.set_a(0x10);
    cpu.set_carry(true);

    memory.write_byte(0x0000, 0xE9); // SBC #$20
    memory.write_byte(0x0001, 0x20);

    assert!(cpu.step(&mut memory));

    assert_eq!(cpu.get_a(), 0xF0);
    assert!(!cpu.get_carry());
    assert!(cpu.get_negative());
    assert!(!cpu.get_zero());
    assert!(!cpu.get_overflow());
}

#[test]
fn test_sbc_no_borrow_sets_carry() {
    let mut cpu = CPU::default();
    let mut memory = Memory::default();
    cpu.reset();
    cpu.set_a(0x50);
    cpu.set_carry(true);

    memory.write_byte(0x0000, 0xE9); // SBC #$20
    memory.write_byte(0x0001, 0x20);

    assert!(cpu.step(&mut memory));

    assert_eq!(cpu.get_a(), 0x30);
    assert!(cpu.get_carry());
    assert!(!cpu.get_negative());
}

#[test]
fn test_adc_carry_out() {
    let mut cpu = CPU::default();
    let mut memory = Memory::default();
    cpu.reset();
    cpu.set_a(0xFF);
    cpu.set_carry(true);

    memory.write_byte(0x0000, 0x69); // ADC #$00 with carry in
    memory.write_byte(0x0001, 0x00);

    assert!(cpu.step(&mut memory));

    assert_eq!(cpu.get_a(), 0x00);
    assert!(cpu.get_carry());
    assert!(cpu.get_zero());
    assert!(!cpu.get_overflow());
}

#[test]
fn test_cmp_equal_sets_zero_and_carry() {
    let mut cpu = CPU::default();
    let mut memory = Memory::default();
    cpu.reset();
    cpu.set_a(0x42);

    memory.write_byte(0x0000, 0xC9); // CMP #$42
    memory.write_byte(0x0001, 0x42);

    assert!(cpu.step(&mut memory));

    assert!(cpu.get_zero());
    assert!(cpu.get_carry());
    assert!(!cpu.get_negative());
    assert_eq!(cpu.get_a(), 0x42);
}

#[test]
fn test_cmp_less_clears_carry() {
    let mut cpu = CPU::default();
    let mut memory = Memory::default();
    cpu.reset();
    cpu.set_a(0x10);

    memory.write_byte(0x0000, 0xC9); // CMP #$20
    memory.write_byte(0x0001, 0x20);

    assert!(cpu.step(&mut memory));

    assert!(!cpu.get_zero());
    assert!(!cpu.get_carry());
    assert!(cpu.get_negative()); // 0x10 - 0x20 == 0xF0, bit 7 set
}

#[test]
fn test_asl_shifts_and_carries() {
    let mut cpu = CPU::default();
    let mut memory = Memory::default();
    cpu.reset();
    cpu.set_a(0xC0);

    memory.write_byte(0x0000, 0x0A); // ASL A

    assert!(cpu.step(&mut memory));

    assert_eq!(cpu.get_a(), 0x80);
    assert!(cpu.get_carry());
    assert!(cpu.get_negative());
    assert_eq!(cpu.get_cycles(), 2);
}

#[test]
fn test_lsr_shifts_out_low_bit() {
    let mut cpu = CPU::default();
    let mut memory = Memory::default();
    cpu.reset();
    cpu.set_a(0x01);

    memory.write_byte(0x0000, 0x4A); // LSR A

    assert!(cpu.step(&mut memory));

    assert_eq!(cpu.get_a(), 0x00);
    assert!(cpu.get_carry());
    assert!(cpu.get_zero());
    assert!(!cpu.get_negative());
}

#[test]
fn test_rol_injects_carry_at_bit_zero() {
    let mut cpu = CPU::default();
    let mut memory = Memory::default();
    cpu.reset();
    cpu.set_a(0x80);
    cpu.set_carry(true);

    memory.write_byte(0x0000, 0x2A); // ROL A

    assert!(cpu.step(&mut memory));

    assert_eq!(cpu.get_a(), 0x01);
    assert!(cpu.get_carry());
    assert!(!cpu.get_zero());
}

#[test]
fn test_ror_injects_carry_at_bit_seven() {
    let mut cpu = CPU::default();
    let mut memory = Memory::default();
    cpu.reset();
    cpu.set_a(0x01);
    cpu.set_carry(true);

    memory.write_byte(0x0000, 0x6A); // ROR A

    assert!(cpu.step(&mut memory));

    assert_eq!(cpu.get_a(), 0x80);
    assert!(cpu.get_carry());
    assert!(cpu.get_negative());
}

#[test]
fn test_shift_memory_writes_back() {
    let mut cpu = CPU::default();
    let mut memory = Memory::default();
    cpu.reset();

    memory.write_byte(0x0000, 0x06); // ASL $10
    memory.write_byte(0x0001, 0x10);
    memory.write_byte(0x0010, 0x41);

    assert!(cpu.step(&mut memory));

    assert_eq!(memory.read_byte(0x0010), 0x82);
    assert!(!cpu.get_carry());
    assert!(cpu.get_negative());
    assert_eq!(cpu.get_cycles(), 5);
}

#[test]
fn test_zero_page_x_wraps_in_page() {
    let mut cpu = CPU::default();
    let mut memory = Memory::default();
    cpu.reset();
    cpu.set_x(0x02);

    memory.write_byte(0x0000, 0xB5); // LDA $FF,X -> wraps to $01
    memory.write_byte(0x0001, 0xFF);
    memory.write_byte(0x0101, 0x77); // must NOT be read

    assert!(cpu.step(&mut memory));

    // the wrapped address $0001 holds the operand byte itself (0xFF)
    assert_eq!(cpu.get_a(), 0xFF);
    assert_eq!(cpu.get_cycles(), 4);
}

#[test]
fn test_absolute_x_page_cross_penalty() {
    let mut cpu = CPU::default();
    let mut memory = Memory::default();
    cpu.reset();
    cpu.set_x(0x20);

    memory.write_byte(0x0000, 0xBD); // LDA $00F0,X -> $0110, crosses a page
    memory.write_byte(0x0001, 0xF0);
    memory.write_byte(0x0002, 0x00);
    memory.write_byte(0x0110, 0x11);

    assert!(cpu.step(&mut memory));
    assert_eq!(cpu.get_a(), 0x11);
    assert_eq!(cpu.get_cycles(), 5); // 4 base + 1 page-cross

    cpu.reset();
    cpu.set_x(0x01);
    memory.write_byte(0x00F1, 0x22);
    assert!(cpu.step(&mut memory));
    assert_eq!(cpu.get_a(), 0x22);
    assert_eq!(cpu.get_cycles(), 4); // same page: no penalty
}

#[test]
fn test_indirect_y_page_cross_penalty() {
    let mut cpu = CPU::default();
    let mut memory = Memory::default();
    cpu.reset();
    cpu.set_y(0x20);

    memory.write_byte(0x0000, 0xB1); // LDA ($10),Y
    memory.write_byte(0x0001, 0x10);
    memory.write_byte(0x0010, 0xF0); // pointer $02F0
    memory.write_byte(0x0011, 0x02);
    memory.write_byte(0x0310, 0x33); // $02F0 + $20 crosses into page 3

    assert!(cpu.step(&mut memory));
    assert_eq!(cpu.get_a(), 0x33);
    assert_eq!(cpu.get_cycles(), 6); // 5 base + 1 page-cross
}

#[test]
fn test_indirect_x_pointer_wraps_in_zero_page() {
    let mut cpu = CPU::default();
    let mut memory = Memory::default();
    cpu.reset();
    cpu.set_x(0x01);

    memory.write_byte(0x0000, 0xA1); // LDA ($FE,X) -> pointer at $FF/$00
    memory.write_byte(0x0001, 0xFE);
    memory.write_byte(0x00FF, 0x34); // pointer low byte
    // pointer high byte comes from $0000 (the opcode byte 0xA1), wrapped
    memory.write_byte(0xA134, 0x55);

    assert!(cpu.step(&mut memory));
    assert_eq!(cpu.get_a(), 0x55);
    assert_eq!(cpu.get_cycles(), 6);
}

#[test]
fn test_sta_absolute_x_pays_fixed_cost() {
    let mut cpu = CPU::default();
    let mut memory = Memory::default();
    cpu.reset();
    cpu.set_a(0x99);
    cpu.set_x(0x01);

    memory.write_byte(0x0000, 0x9D); // STA $0300,X: no page cross, still 5
    memory.write_byte(0x0001, 0x00);
    memory.write_byte(0x0002, 0x03);

    assert!(cpu.step(&mut memory));
    assert_eq!(memory.read_byte(0x0301), 0x99);
    assert_eq!(cpu.get_cycles(), 5);
}

#[test]
fn test_reset_after_work_reads_zero() {
    let mut cpu = CPU::default();
    let mut memory = Memory::default();
    cpu.reset();

    memory.write_byte(0x0000, 0xA9);
    memory.write_byte(0x0001, 0x80);
    assert!(cpu.step(&mut memory));
    assert_ne!(cpu.get_status(), 0);

    cpu.reset();
    assert_eq!(cpu.get_a(), 0);
    assert_eq!(cpu.get_x(), 0);
    assert_eq!(cpu.get_y(), 0);
    assert_eq!(cpu.get_sp(), 0);
    assert_eq!(cpu.get_pc(), 0);
    assert_eq!(cpu.get_cycles(), 0);
    assert_eq!(cpu.get_status(), 0);
    assert!(!cpu.get_carry());
    assert!(!cpu.get_zero());
    assert!(!cpu.get_negative());
    assert!(!cpu.get_overflow());
}

#[test]
fn test_eor_and_ora_results() {
    let mut cpu = CPU::default();
    let mut memory = Memory::default();
    cpu.reset();
    cpu.set_a(0b1010_1010);

    memory.write_byte(0x0000, 0x29); // AND #$0F
    memory.write_byte(0x0001, 0x0F);
    memory.write_byte(0x0002, 0x49); // EOR #$FF
    memory.write_byte(0x0003, 0xFF);
    memory.write_byte(0x0004, 0x09); // ORA #$80
    memory.write_byte(0x0005, 0x80);

    assert!(cpu.step(&mut memory));
    assert_eq!(cpu.get_a(), 0b0000_1010);
    assert!(cpu.step(&mut memory));
    assert_eq!(cpu.get_a(), 0b1111_0101);
    assert!(cpu.step(&mut memory));
    assert_eq!(cpu.get_a(), 0b1111_0101);
    assert!(cpu.get_negative());
}
