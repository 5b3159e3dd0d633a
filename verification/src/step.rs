//! The executor: fetch one opcode, decode it and run its handler,
//! proved equal to the functional model's `spec_execute` and `spec_step`.

use crate::cpu::{CpuState, Register, CPU, FLAG_C, FLAG_N, FLAG_V, FLAG_Z};
use crate::instruction::{spec_decode, Instruction};
use crate::memory::{add_mod_65536, byte_at, wrap_add16, AddressingMode, Memory};
use crate::model::{spec_execute, spec_step, LogicOp, ShiftKind};
use vstd::prelude::*;

verus! {

impl CPU {
    /// Reads the opcode byte at `PC`, advances `PC` past it and decodes
    /// it; unmapped bytes yield `INVALID`.
    pub fn fetch_instruction(&mut self, memory: &Memory) -> (i: Instruction)
        ensures
            final(self)@ == (CpuState { pc: wrap_add16(old(self)@.pc, 1), ..old(self)@ }),
            i == spec_decode(byte_at(memory@, old(self)@.pc)),
    {
        let opcode = memory.read_byte(self.get_pc());
        let pc = self.get_pc();
        self.set_pc(add_mod_65536(pc, 1));
        Instruction::from(opcode)
    }

    /// Executes one decoded instruction.  The program counter must
    /// already point one past the opcode, as `fetch_instruction` leaves
    /// it.  The state and memory afterwards are exactly what the
    /// functional model prescribes; `INVALID` changes nothing.
    pub fn execute(&mut self, memory: &mut Memory, i: Instruction)
        requires
            old(self)@.cycles + 8 <= u64::MAX,
        ensures
            final(self)@ == spec_execute(old(self)@, old(memory)@, i).0,
            final(memory)@ == spec_execute(old(self)@, old(memory)@, i).1,
    {
        match i {
            Instruction::LDA_IM => self.op_load(memory, Register::A, AddressingMode::Immediate, 0),
            Instruction::LDA_ZP => self.op_load(memory, Register::A, AddressingMode::ZeroPage, 0),
            Instruction::LDA_ZP_X => self.op_load(memory, Register::A, AddressingMode::ZeroPageX, self.get_x()),
            Instruction::LDA_ABS => self.op_load(memory, Register::A, AddressingMode::Absolute, 0),
            Instruction::LDA_ABS_X => self.op_load(memory, Register::A, AddressingMode::AbsoluteX, self.get_x()),
            Instruction::LDA_ABS_Y => self.op_load(memory, Register::A, AddressingMode::AbsoluteY, self.get_y()),
            Instruction::LDA_IN_X => self.op_load(memory, Register::A, AddressingMode::IndirectX, self.get_x()),
            Instruction::LDA_IN_Y => self.op_load(memory, Register::A, AddressingMode::IndirectY, self.get_y()),
            Instruction::LDX_IM => self.op_load(memory, Register::X, AddressingMode::Immediate, 0),
            Instruction::LDX_ZP => self.op_load(memory, Register::X, AddressingMode::ZeroPage, 0),
            Instruction::LDX_ZP_Y => self.op_load(memory, Register::X, AddressingMode::ZeroPageY, self.get_y()),
            Instruction::LDX_ABS => self.op_load(memory, Register::X, AddressingMode::Absolute, 0),
            Instruction::LDX_ABS_Y => self.op_load(memory, Register::X, AddressingMode::AbsoluteY, self.get_y()),
            Instruction::LDY_IM => self.op_load(memory, Register::Y, AddressingMode::Immediate, 0),
            Instruction::LDY_ZP => self.op_load(memory, Register::Y, AddressingMode::ZeroPage, 0),
            Instruction::LDY_ZP_X => self.op_load(memory, Register::Y, AddressingMode::ZeroPageX, self.get_x()),
            Instruction::LDY_ABS => self.op_load(memory, Register::Y, AddressingMode::Absolute, 0),
            Instruction::LDY_ABS_X => self.op_load(memory, Register::Y, AddressingMode::AbsoluteX, self.get_x()),
            Instruction::STA_ZP => self.op_store(memory, Register::A, AddressingMode::ZeroPage, 0),
            Instruction::STA_ZP_X => self.op_store(memory, Register::A, AddressingMode::ZeroPageX, self.get_x()),
            Instruction::STA_ABS => self.op_store(memory, Register::A, AddressingMode::Absolute, 0),
            Instruction::STA_ABS_X => self.op_store(memory, Register::A, AddressingMode::AbsoluteX, self.get_x()),
            Instruction::STA_ABS_Y => self.op_store(memory, Register::A, AddressingMode::AbsoluteY, self.get_y()),
            Instruction::STA_IN_X => self.op_store(memory, Register::A, AddressingMode::IndirectX, self.get_x()),
            Instruction::STA_IN_Y => self.op_store(memory, Register::A, AddressingMode::IndirectY, self.get_y()),
            Instruction::STX_ZP => self.op_store(memory, Register::X, AddressingMode::ZeroPage, 0),
            Instruction::STX_ZP_Y => self.op_store(memory, Register::X, AddressingMode::ZeroPageY, self.get_y()),
            Instruction::STX_ABS => self.op_store(memory, Register::X, AddressingMode::Absolute, 0),
            Instruction::STY_ZP => self.op_store(memory, Register::Y, AddressingMode::ZeroPage, 0),
            Instruction::STY_ZP_X => self.op_store(memory, Register::Y, AddressingMode::ZeroPageX, self.get_x()),
            Instruction::STY_ABS => self.op_store(memory, Register::Y, AddressingMode::Absolute, 0),
            Instruction::TAX => self.op_transfer(Register::A, Register::X, true),
            Instruction::TAY => self.op_transfer(Register::A, Register::Y, true),
            Instruction::TXA => self.op_transfer(Register::X, Register::A, true),
            Instruction::TYA => self.op_transfer(Register::Y, Register::A, true),
            Instruction::TSX => self.op_transfer(Register::SP, Register::X, true),
            Instruction::TXS => self.op_transfer(Register::X, Register::SP, false),
            Instruction::PHA => self.op_push(memory, Register::A),
            Instruction::PHP => self.op_push(memory, Register::PS),
            Instruction::PLA => self.op_pull(memory, Register::A, true),
            Instruction::PLP => self.op_pull(memory, Register::PS, false),
            Instruction::AND_IM => self.op_logic(memory, LogicOp::And, AddressingMode::Immediate, 0),
            Instruction::AND_ZP => self.op_logic(memory, LogicOp::And, AddressingMode::ZeroPage, 0),
            Instruction::AND_ZP_X => self.op_logic(memory, LogicOp::And, AddressingMode::ZeroPageX, self.get_x()),
            Instruction::AND_ABS => self.op_logic(memory, LogicOp::And, AddressingMode::Absolute, 0),
            Instruction::AND_ABS_X => self.op_logic(memory, LogicOp::And, AddressingMode::AbsoluteX, self.get_x()),
            Instruction::AND_ABS_Y => self.op_logic(memory, LogicOp::And, AddressingMode::AbsoluteY, self.get_y()),
            Instruction::AND_IN_X => self.op_logic(memory, LogicOp::And, AddressingMode::IndirectX, self.get_x()),
            Instruction::AND_IN_Y => self.op_logic(memory, LogicOp::And, AddressingMode::IndirectY, self.get_y()),
            Instruction::EOR_IM => self.op_logic(memory, LogicOp::Eor, AddressingMode::Immediate, 0),
            Instruction::EOR_ZP => self.op_logic(memory, LogicOp::Eor, AddressingMode::ZeroPage, 0),
            Instruction::EOR_ZP_X => self.op_logic(memory, LogicOp::Eor, AddressingMode::ZeroPageX, self.get_x()),
            Instruction::EOR_ABS => self.op_logic(memory, LogicOp::Eor, AddressingMode::Absolute, 0),
            Instruction::EOR_ABS_X => self.op_logic(memory, LogicOp::Eor, AddressingMode::AbsoluteX, self.get_x()),
            Instruction::EOR_ABS_Y => self.op_logic(memory, LogicOp::Eor, AddressingMode::AbsoluteY, self.get_y()),
            Instruction::EOR_IN_X => self.op_logic(memory, LogicOp::Eor, AddressingMode::IndirectX, self.get_x()),
            Instruction::EOR_IN_Y => self.op_logic(memory, LogicOp::Eor, AddressingMode::IndirectY, self.get_y()),
            Instruction::ORA_IM => self.op_logic(memory, LogicOp::Ora, AddressingMode::Immediate, 0),
            Instruction::ORA_ZP => self.op_logic(memory, LogicOp::Ora, AddressingMode::ZeroPage, 0),
            Instruction::ORA_ZP_X => self.op_logic(memory, LogicOp::Ora, AddressingMode::ZeroPageX, self.get_x()),
            Instruction::ORA_ABS => self.op_logic(memory, LogicOp::Ora, AddressingMode::Absolute, 0),
            Instruction::ORA_ABS_X => self.op_logic(memory, LogicOp::Ora, AddressingMode::AbsoluteX, self.get_x()),
            Instruction::ORA_ABS_Y => self.op_logic(memory, LogicOp::Ora, AddressingMode::AbsoluteY, self.get_y()),
            Instruction::ORA_IN_X => self.op_logic(memory, LogicOp::Ora, AddressingMode::IndirectX, self.get_x()),
            Instruction::ORA_IN_Y => self.op_logic(memory, LogicOp::Ora, AddressingMode::IndirectY, self.get_y()),
            Instruction::BIT_ZP => self.bit_zero_page(memory),
            Instruction::BIT_ABS => self.bit_absolute(memory),
            Instruction::ADC_IM => self.op_adc(memory, AddressingMode::Immediate, 0),
            Instruction::ADC_ZP => self.op_adc(memory, AddressingMode::ZeroPage, 0),
            Instruction::ADC_ZP_X => self.op_adc(memory, AddressingMode::ZeroPageX, self.get_x()),
            Instruction::ADC_ABS => self.op_adc(memory, AddressingMode::Absolute, 0),
            Instruction::ADC_ABS_X => self.op_adc(memory, AddressingMode::AbsoluteX, self.get_x()),
            Instruction::ADC_ABS_Y => self.op_adc(memory, AddressingMode::AbsoluteY, self.get_y()),
            Instruction::ADC_IN_X => self.op_adc(memory, AddressingMode::IndirectX, self.get_x()),
            Instruction::ADC_IN_Y => self.op_adc(memory, AddressingMode::IndirectY, self.get_y()),
            Instruction::SBC_IM => self.op_sbc(memory, AddressingMode::Immediate, 0),
            Instruction::SBC_ZP => self.op_sbc(memory, AddressingMode::ZeroPage, 0),
            Instruction::SBC_ZP_X => self.op_sbc(memory, AddressingMode::ZeroPageX, self.get_x()),
            Instruction::SBC_ABS => self.op_sbc(memory, AddressingMode::Absolute, 0),
            Instruction::SBC_ABS_X => self.op_sbc(memory, AddressingMode::AbsoluteX, self.get_x()),
            Instruction::SBC_ABS_Y => self.op_sbc(memory, AddressingMode::AbsoluteY, self.get_y()),
            Instruction::SBC_IN_X => self.op_sbc(memory, AddressingMode::IndirectX, self.get_x()),
            Instruction::SBC_IN_Y => self.op_sbc(memory, AddressingMode::IndirectY, self.get_y()),
            Instruction::CMP_IM => self.op_compare(memory, Register::A, AddressingMode::Immediate, 0),
            Instruction::CMP_ZP => self.op_compare(memory, Register::A, AddressingMode::ZeroPage, 0),
            Instruction::CMP_ZP_X => self.op_compare(memory, Register::A, AddressingMode::ZeroPageX, self.get_x()),
            Instruction::CMP_ABS => self.op_compare(memory, Register::A, AddressingMode::Absolute, 0),
            Instruction::CMP_ABS_X => self.op_compare(memory, Register::A, AddressingMode::AbsoluteX, self.get_x()),
            Instruction::CMP_ABS_Y => self.op_compare(memory, Register::A, AddressingMode::AbsoluteY, self.get_y()),
            Instruction::CMP_IN_X => self.op_compare(memory, Register::A, AddressingMode::IndirectX, self.get_x()),
            Instruction::CMP_IN_Y => self.op_compare(memory, Register::A, AddressingMode::IndirectY, self.get_y()),
            Instruction::CPX_IM => self.op_compare(memory, Register::X, AddressingMode::Immediate, 0),
            Instruction::CPX_ZP => self.op_compare(memory, Register::X, AddressingMode::ZeroPage, 0),
            Instruction::CPX_ABS => self.op_compare(memory, Register::X, AddressingMode::Absolute, 0),
            Instruction::CPY_IM => self.op_compare(memory, Register::Y, AddressingMode::Immediate, 0),
            Instruction::CPY_ZP => self.op_compare(memory, Register::Y, AddressingMode::ZeroPage, 0),
            Instruction::CPY_ABS => self.op_compare(memory, Register::Y, AddressingMode::Absolute, 0),
            Instruction::INC_ZP => self.op_incdec_memory(memory, true, AddressingMode::ZeroPage, self.get_x()),
            Instruction::INC_ZP_X => self.op_incdec_memory(memory, true, AddressingMode::ZeroPageX, self.get_x()),
            Instruction::INC_ABS => self.op_incdec_memory(memory, true, AddressingMode::Absolute, self.get_x()),
            Instruction::INC_ABS_X => self.op_incdec_memory(memory, true, AddressingMode::AbsoluteX, self.get_x()),
            Instruction::INX => self.op_incdec_register(Register::X, true),
            Instruction::INY => self.op_incdec_register(Register::Y, true),
            Instruction::DEC_ZP => self.op_incdec_memory(memory, false, AddressingMode::ZeroPage, self.get_x()),
            Instruction::DEC_ZP_X => self.op_incdec_memory(memory, false, AddressingMode::ZeroPageX, self.get_x()),
            Instruction::DEC_ABS => self.op_incdec_memory(memory, false, AddressingMode::Absolute, self.get_x()),
            Instruction::DEC_ABS_X => self.op_incdec_memory(memory, false, AddressingMode::AbsoluteX, self.get_x()),
            Instruction::DEX => self.op_incdec_register(Register::X, false),
            Instruction::DEY => self.op_incdec_register(Register::Y, false),
            Instruction::ASL_A => self.op_shift_accumulator(ShiftKind::Asl),
            Instruction::ASL_ZP => self.op_shift_memory(memory, ShiftKind::Asl, AddressingMode::ZeroPage, self.get_x()),
            Instruction::ASL_ZP_X => self.op_shift_memory(memory, ShiftKind::Asl, AddressingMode::ZeroPageX, self.get_x()),
            Instruction::ASL_ABS => self.op_shift_memory(memory, ShiftKind::Asl, AddressingMode::Absolute, self.get_x()),
            Instruction::ASL_ABS_X => self.op_shift_memory(memory, ShiftKind::Asl, AddressingMode::AbsoluteX, self.get_x()),
            Instruction::LSR_A => self.op_shift_accumulator(ShiftKind::Lsr),
            Instruction::LSR_ZP => self.op_shift_memory(memory, ShiftKind::Lsr, AddressingMode::ZeroPage, self.get_x()),
            Instruction::LSR_ZP_X => self.op_shift_memory(memory, ShiftKind::Lsr, AddressingMode::ZeroPageX, self.get_x()),
            Instruction::LSR_ABS => self.op_shift_memory(memory, ShiftKind::Lsr, AddressingMode::Absolute, self.get_x()),
            Instruction::LSR_ABS_X => self.op_shift_memory(memory, ShiftKind::Lsr, AddressingMode::AbsoluteX, self.get_x()),
            Instruction::ROL_A => self.op_shift_accumulator(ShiftKind::Rol),
            Instruction::ROL_ZP => self.op_shift_memory(memory, ShiftKind::Rol, AddressingMode::ZeroPage, self.get_x()),
            Instruction::ROL_ZP_X => self.op_shift_memory(memory, ShiftKind::Rol, AddressingMode::ZeroPageX, self.get_x()),
            Instruction::ROL_ABS => self.op_shift_memory(memory, ShiftKind::Rol, AddressingMode::Absolute, self.get_x()),
            Instruction::ROL_ABS_X => self.op_shift_memory(memory, ShiftKind::Rol, AddressingMode::AbsoluteX, self.get_x()),
            Instruction::ROR_A => self.op_shift_accumulator(ShiftKind::Ror),
            Instruction::ROR_ZP => self.op_shift_memory(memory, ShiftKind::Ror, AddressingMode::ZeroPage, self.get_x()),
            Instruction::ROR_ZP_X => self.op_shift_memory(memory, ShiftKind::Ror, AddressingMode::ZeroPageX, self.get_x()),
            Instruction::ROR_ABS => self.op_shift_memory(memory, ShiftKind::Ror, AddressingMode::Absolute, self.get_x()),
            Instruction::ROR_ABS_X => self.op_shift_memory(memory, ShiftKind::Ror, AddressingMode::AbsoluteX, self.get_x()),
            Instruction::JMP_ABS => self.jmp_absolute(memory),
            Instruction::JMP_IN => self.jmp_indirect(memory),
            Instruction::JSR_ABS => self.jsr_absolute(memory),
            Instruction::RTS_IM => self.rts_implied(memory),
            Instruction::BCC => self.op_branch(memory, FLAG_C, false),
            Instruction::BCS => self.op_branch(memory, FLAG_C, true),
            Instruction::BEQ => self.op_branch(memory, FLAG_Z, true),
            Instruction::BMI => self.op_branch(memory, FLAG_N, true),
            Instruction::BNE => self.op_branch(memory, FLAG_Z, false),
            Instruction::BPL => self.op_branch(memory, FLAG_N, false),
            Instruction::BVC => self.op_branch(memory, FLAG_V, false),
            Instruction::BVS => self.op_branch(memory, FLAG_V, true),
            Instruction::INVALID => {},
        }
    }

    /// One full step: fetch, decode and execute the instruction at `PC`.
    /// Returns whether the opcode byte was a documented instruction; an
    /// unmapped byte leaves everything but `PC` untouched, so the engine
    /// stays usable.
    pub fn step(&mut self, memory: &mut Memory) -> (valid: bool)
        requires
            old(self)@.cycles + 8 <= u64::MAX,
        ensures
            final(self)@ == spec_step(old(self)@, old(memory)@).0,
            final(memory)@ == spec_step(old(self)@, old(memory)@).1,
            valid == (spec_decode(byte_at(old(memory)@, old(self)@.pc)) != Instruction::INVALID),
    {
        let instruction = self.fetch_instruction(memory);
        let valid = instruction != Instruction::INVALID;
        self.execute(memory, instruction);
        valid
    }
}

} // verus!
