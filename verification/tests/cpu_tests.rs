use mos6502::cpu::CPU;
use mos6502::instruction::Instruction;
use mos6502::memory::{Memory, MemoryLike};

fn assert_cpu(cpu: &CPU, cpu_copy: &CPU) {
    assert_eq!(
        cpu.get_cycles(),
        cpu_copy.get_cycles(),
        "Amount of cycles used should be {}, but found {}",
        cpu_copy.get_cycles(),
        cpu.get_cycles()
    );
    assert_eq!(
        cpu.get_a(),
        cpu_copy.get_a(),
        "Register a value should be {}, but found {}",
        cpu_copy.get_a(),
        cpu.get_a()
    );
    assert_eq!(
        cpu.get_x(),
        cpu_copy.get_x(),
        "Register x value should be {}, but found {}",
        cpu_copy.get_x(),
        cpu.get_x()
    );
    assert_eq!(
        cpu.get_y(),
        cpu_copy.get_y(),
        "Register y value should be {}, but found {}",
        cpu_copy.get_y(),
        cpu.get_y()
    );
    assert_eq!(
        cpu.get_pc(),
        cpu_copy.get_pc(),
        "Program counter should be {}, but found {}",
        cpu_copy.get_pc(),
        cpu.get_pc()
    );
    assert_eq!(
        cpu.get_sp(),
        cpu_copy.get_sp(),
        "Stack pointer value should be {}, but found {}",
        cpu_copy.get_sp(),
        cpu.get_sp()
    );
    assert_eq!(
        cpu.get_carry(),
        cpu_copy.get_carry(),
        "Carry flag should be {}, but found {}!",
        cpu.get_carry(),
        cpu_copy.get_carry()
    );
    assert_eq!(
        cpu.get_zero(),
        cpu_copy.get_zero(),
        "Zero flag should be {}, but found {}!",
        cpu.get_zero(),
        cpu_copy.get_zero()
    );
    assert_eq!(
        cpu.get_interrupt_disable(),
        cpu_copy.get_interrupt_disable(),
        "Interrupt disable flag should be {}, but found {}!",
        cpu.get_interrupt_disable(),
        cpu_copy.get_interrupt_disable()
    );
    assert_eq!(
        cpu.get_decimal_mode(),
        cpu_copy.get_decimal_mode(),
        "Decimal mode flag should be {}, but found {}!",
        cpu.get_decimal_mode(),
        cpu_copy.get_decimal_mode()
    );
    assert_eq!(
        cpu.get_break_command(),
        cpu_copy.get_break_command(),
        "Break command flag should be {}, but found {}!",
        cpu.get_break_command(),
        cpu_copy.get_break_command()
    );
    assert_eq!(
        cpu.get_overflow(),
        cpu_copy.get_overflow(),
        "Overflow flag should be {}, but found {}!",
        cpu.get_overflow(),
        cpu_copy.get_overflow()
    );
    assert_eq!(
        cpu.get_negative(),
        cpu_copy.get_negative(),
        "Negative flag should be {}, but found {}!",
        cpu.get_negative(),
        cpu_copy.get_negative()
    );
}

#[test]
fn test_jsr() {
    let mut cpu = CPU::default();
    let mut memory = Memory::default();

    cpu.reset();
    cpu.set_sp(0xff);
    let mut cpu_copy = cpu.clone();

    let addresses: [u16; 4] = [0x1234, 0x4321, 0xABCD, 0x6942];

    for i in 0..3u16 {
        memory.write(i * 3, u8::from(Instruction::JSR_ABS));
        memory.write(i * 3 + 1, addresses[i as usize]);
    }

    for i in 0..3u16 {
        cpu.set_pc(i * 3);
        let cycles = cpu.get_cycles();
        let instruction = cpu.fetch_instruction(&memory);

        cpu.execute(&mut memory, instruction);

        cpu_copy.set_pc(addresses[i as usize]);
        cpu_copy.set_cycles(cycles + 6);
        cpu_copy.set_sp(cpu_copy.get_sp() - 2);

        assert_cpu(&cpu, &cpu_copy);
        let stack_addr: u16 = memory.read(0x100u16 + cpu_copy.get_sp() as u16 + 1);
        assert_eq!(
            stack_addr,
            i * 3 + 3 - 1,
            "Address on stack should be {}, but found {}",
            i * 3 + 3 - 1,
            stack_addr
        );
    }
}

#[test]
fn test_rts() {
    let mut cpu = CPU::default();
    let mut memory = Memory::default();

    cpu.reset();
    cpu.set_sp(0xff);
    let mut cpu_copy = cpu.clone();

    let addresses: [u16; 4] = [0x1234, 0x4321, 0xABCD, 0x6942];

    for i in 0..3u16 {
        memory.write(i * 3, u8::from(Instruction::JSR_ABS));
        memory.write(i * 3 + 1, addresses[i as usize]);
        memory.write(addresses[i as usize], u8::from(Instruction::RTS_IM));
    }

    for i in 0..3u16 {
        let cycles = cpu.get_cycles();
        let instruction_jsr = cpu.fetch_instruction(&memory);

        cpu.execute(&mut memory, instruction_jsr);
        let instruction_rts = cpu.fetch_instruction(&memory);
        cpu.execute(&mut memory, instruction_rts);

        cpu_copy.set_pc(3 * i + 3);
        cpu_copy.set_cycles(cycles + 12);

        assert_cpu(&cpu, &cpu_copy);
    }
}

#[test]
fn test_bit_zero_page() {
    let mut cpu = CPU::default();
    let mut memory = Memory::default();

    cpu.reset();

    let values1 = [0b0000_0000u8, 0b1111_1111, 0b1000_1111];
    let values2 = [0b1111_1111u8, 0b0101_0101, 0b1011_0011];
    let zero_flags = [true, false, false];
    let overflow_flags = [true, true, false];
    let negative_flags = [true, false, true];
    let addresses = [0x10, 0xAB, 0xFF];

    for i in 0..3u16 {
        memory.write_byte(2 * i, Instruction::BIT_ZP.into());
        memory.write_byte(2 * i + 1, addresses[i as usize]);
        memory.write_byte(addresses[i as usize] as u16, values2[i as usize]);
    }

    let mut cpu_copy = cpu.clone();

    for i in 0..3 {
        let pc = cpu.get_pc();
        let cycles = cpu.get_cycles();
        let instruction = cpu.fetch_instruction(&memory);

        cpu.set_a(values1[i]);

        cpu.execute(&mut memory, instruction);

        cpu_copy.set_cycles(cycles + 3);
        cpu_copy.set_pc(pc + 2);
        cpu_copy.set_a(values1[i]);
        cpu_copy.set_zero(zero_flags[i]);
        cpu_copy.set_overflow(overflow_flags[i]);
        cpu_copy.set_negative(negative_flags[i]);
        assert_cpu(&cpu, &cpu_copy);
    }
}

#[test]
fn test_bit_absolute() {
    let mut cpu = CPU::default();
    let mut memory = Memory::default();

    cpu.reset();

    let values1 = [0b0000_0000u8, 0b1111_1111, 0b1000_1111];
    let values2 = [0b1111_1111u8, 0b0101_0101, 0b1011_0011];
    let zero_flags = [true, false, false];
    let overflow_flags = [true, true, false];
    let negative_flags = [true, false, true];
    let addresses: [u16; 3] = [0x1234, 0x4321, 0xABCD];

    for i in 0..3u16 {
        memory.write_byte(3 * i, Instruction::BIT_ABS.into());
        memory.write_word(3 * i + 1, addresses[i as usize]);
        memory.write_byte(addresses[i as usize], values2[i as usize]);
    }

    let mut cpu_copy = cpu.clone();

    for i in 0..3 {
        let pc = cpu.get_pc();
        let cycles = cpu.get_cycles();
        let instruction = cpu.fetch_instruction(&memory);

        cpu.set_a(values1[i]);

        cpu.execute(&mut memory, instruction);

        cpu_copy.set_cycles(cycles + 4);
        cpu_copy.set_pc(pc + 3);
        cpu_copy.set_a(values1[i]);
        cpu_copy.set_zero(zero_flags[i]);
        cpu_copy.set_overflow(overflow_flags[i]);
        cpu_copy.set_negative(negative_flags[i]);
        assert_cpu(&cpu, &cpu_copy);
    }
}

#[test]
fn test_reset() {
    let mut cpu = CPU::default();

    cpu.reset();

    assert_eq!(cpu.get_a(), 0);
    assert_eq!(cpu.get_x(), 0);
    assert_eq!(cpu.get_y(), 0);
    assert_eq!(cpu.get_pc(), 0);
    assert_eq!(cpu.get_sp(), 0);
    assert_eq!(cpu.get_status(), 0);
}

#[test]
fn test_flag_carry() {
    let mut cpu = CPU::default();

    cpu.set_carry(false);
    assert_eq!(cpu.get_carry(), false);
    cpu.set_carry(true);
    assert_eq!(cpu.get_carry(), true);
    cpu.set_carry(false);
    assert_eq!(cpu.get_carry(), false);
}

#[test]
fn test_flag_zero() {
    let mut cpu = CPU::default();

    cpu.set_zero(false);
    assert_eq!(cpu.get_zero(), false);
    cpu.set_zero(true);
    assert_eq!(cpu.get_zero(), true);
    cpu.set_zero(false);
    assert_eq!(cpu.get_zero(), false);
}

#[test]
fn test_flag_interrupt_disable() {
    let mut cpu = CPU::default();

    cpu.set_interrupt_disable(false);
    assert_eq!(cpu.get_interrupt_disable(), false);
    cpu.set_interrupt_disable(true);
    assert_eq!(cpu.get_interrupt_disable(), true);
    cpu.set_interrupt_disable(false);
    assert_eq!(cpu.get_interrupt_disable(), false);
}

#[test]
fn test_flag_decimal_mode() {
    let mut cpu = CPU::default();

    cpu.set_decimal_mode(false);
    assert_eq!(cpu.get_decimal_mode(), false);
    cpu.set_decimal_mode(true);
    assert_eq!(cpu.get_decimal_mode(), true);
    cpu.set_decimal_mode(false);
    assert_eq!(cpu.get_decimal_mode(), false);
}

#[test]
fn test_flag_break_command() {
    let mut cpu = CPU::default();

    cpu.set_break_command(false);
    assert_eq!(cpu.get_break_command(), false);
    cpu.set_break_command(true);
    assert_eq!(cpu.get_break_command(), true);
    cpu.set_break_command(false);
    assert_eq!(cpu.get_break_command(), false);
}

#[test]
fn test_flag_overflow() {
    let mut cpu = CPU::default();

    cpu.set_overflow(false);
    assert_eq!(cpu.get_overflow(), false);
    cpu.set_overflow(true);
    assert_eq!(cpu.get_overflow(), true);
    cpu.set_overflow(false);
    assert_eq!(cpu.get_overflow(), false);
}

#[test]
fn test_flag_negative() {
    let mut cpu = CPU::default();

    cpu.set_negative(false);
    assert_eq!(cpu.get_negative(), false);
    cpu.set_negative(true);
    assert_eq!(cpu.get_negative(), true);
    cpu.set_negative(false);
    assert_eq!(cpu.get_negative(), false);
}

#[test]
fn test_fetch_instruction() {
    let mut cpu = CPU::default();
    let mut memory = Memory::default();
    memory.write_byte(0x0000, Instruction::LDA_IM.into());

    let cpu_copy = cpu.clone();

    let instruction = cpu.fetch_instruction(&memory);

    assert_eq!(cpu.get_pc(), cpu_copy.get_pc() + 1);
    assert_eq!(
        <Instruction as Into<u8>>::into(instruction),
        <Instruction as Into<u8>>::into(Instruction::LDA_IM)
    );
}
