//! The executable instruction handlers, one per operation family, each
//! verified to produce exactly the state the functional model prescribes.

use crate::cpu::{flag, CpuState, Register, CPU, FLAG_C};
use crate::memory::{
    add_mod_256, add_mod_65536, byte_at, is_read_mode, is_write_mode, operand_addr,
    operand_bytes, operand_crossed, operand_value, sub_mod_256, wrap_add16, AddressingMode,
    Memory, MemoryLike,
};
use crate::model::{
    is_rmw_mode, read_cycles, rmw_cycles, shift_value, spec_addition, spec_adc, spec_bit,
    spec_branch, spec_compare, spec_incdec_mem, spec_incdec_reg, spec_jmp_abs, spec_jmp_ind,
    spec_jsr, spec_load, spec_logic, spec_pull, spec_push, spec_rts, spec_sbc, spec_shift_acc,
    spec_shift_mem, spec_store, spec_substraction, spec_transfer, store_cycles, LogicOp,
    ShiftKind,
};
use vstd::prelude::*;

verus! {

/// Base cycle cost of an operand-reading operation, by mode.
fn read_base_cycles(mode: AddressingMode) -> (c: u64)
    ensures
        c == read_cycles(mode),
        c <= 6,
{
    match mode {
        AddressingMode::Immediate => 2,
        AddressingMode::ZeroPage => 3,
        AddressingMode::ZeroPageX => 4,
        AddressingMode::ZeroPageY => 4,
        AddressingMode::Absolute => 4,
        AddressingMode::AbsoluteX => 4,
        AddressingMode::AbsoluteY => 4,
        AddressingMode::IndirectX => 6,
        AddressingMode::IndirectY => 5,
        _ => 0,
    }
}

/// Base cycle cost of a store, by mode.
fn store_base_cycles(mode: AddressingMode) -> (c: u64)
    ensures
        c == store_cycles(mode),
        c <= 6,
{
    match mode {
        AddressingMode::ZeroPage => 3,
        AddressingMode::ZeroPageX => 4,
        AddressingMode::ZeroPageY => 4,
        AddressingMode::Absolute => 4,
        AddressingMode::AbsoluteX => 5,
        AddressingMode::AbsoluteY => 5,
        AddressingMode::IndirectX => 6,
        AddressingMode::IndirectY => 6,
        _ => 0,
    }
}

/// Cycle cost of a read-modify-write operation, by mode.
fn rmw_base_cycles(mode: AddressingMode) -> (c: u64)
    ensures
        c == rmw_cycles(mode),
        c <= 7,
{
    match mode {
        AddressingMode::Accumulator => 2,
        AddressingMode::ZeroPage => 5,
        AddressingMode::ZeroPageX => 6,
        AddressingMode::Absolute => 6,
        AddressingMode::AbsoluteX => 7,
        _ => 0,
    }
}

/// Arithmetic shift left: bit 7 falls into the carry, bit 0 becomes zero.
pub fn asl_func(n: u8, carry: bool) -> (r: (u8, bool))
    ensures
        r == shift_value(ShiftKind::Asl, n, carry),
{
    ((n % 128) * 2, (n & 0x80) != 0)
}

/// Logical shift right: bit 0 falls into the carry, bit 7 becomes zero.
pub fn lsr_func(n: u8, carry: bool) -> (r: (u8, bool))
    ensures
        r == shift_value(ShiftKind::Lsr, n, carry),
{
    (n / 2, (n & 1) != 0)
}

/// Rotate left: bit 7 falls into the carry, the old carry enters at bit 0.
pub fn rol_func(n: u8, carry: bool) -> (r: (u8, bool))
    ensures
        r == shift_value(ShiftKind::Rol, n, carry),
{
    ((n % 128) * 2 + (if carry { 1 } else { 0 }), (n & 0x80) != 0)
}

/// Rotate right: bit 0 falls into the carry, the old carry enters at bit 7.
pub fn ror_func(n: u8, carry: bool) -> (r: (u8, bool))
    ensures
        r == shift_value(ShiftKind::Ror, n, carry),
{
    (n / 2 + (if carry { 128 } else { 0 }), (n & 1) != 0)
}

impl CPU {
    /// Fetches the byte operand for a reading instruction: resolves the
    /// addressing mode, advances the program counter past the operand and
    /// reports whether a page boundary was crossed.
    fn fetch_operand(&mut self, memory: &Memory, mode: AddressingMode, idx: u8) -> (r: (u8, bool))
        requires
            is_read_mode(mode),
        ensures
            final(self)@ == (CpuState {
                pc: wrap_add16(old(self)@.pc, operand_bytes(mode)),
                ..old(self)@
            }),
            r.0 == operand_value(memory@, old(self)@.pc, idx, mode),
            r.1 == operand_crossed(memory@, old(self)@.pc, idx, mode),
    {
        let mut pc = self.get_pc();
        let mut crossed = false;
        let value: u8 = match mode {
            AddressingMode::Immediate => memory.read_immediate(&mut pc),
            AddressingMode::ZeroPage => memory.read_zero_page(&mut pc),
            AddressingMode::ZeroPageX => memory.read_zero_page_x(&mut pc, idx),
            AddressingMode::ZeroPageY => memory.read_zero_page_x(&mut pc, idx),
            AddressingMode::Absolute => memory.read_absolute(&mut pc),
            AddressingMode::AbsoluteX => memory.read_absolute_x_check_crossing(
                &mut pc,
                idx,
                &mut crossed,
            ),
            AddressingMode::AbsoluteY => memory.read_absolute_x_check_crossing(
                &mut pc,
                idx,
                &mut crossed,
            ),
            AddressingMode::IndirectX => memory.read_indirect_x(&mut pc, idx),
            AddressingMode::IndirectY => memory.read_indirect_y_check_crossing(
                &mut pc,
                idx,
                &mut crossed,
            ),
            _ => unreached(),
        };
        self.set_pc(pc);
        (value, crossed)
    }

    /// Stores `value` at the effective address of a writing instruction and
    /// advances the program counter past the operand.
    fn write_operand(&mut self, memory: &mut Memory, mode: AddressingMode, idx: u8, value: u8)
        requires
            is_write_mode(mode),
        ensures
            final(self)@ == (CpuState {
                pc: wrap_add16(old(self)@.pc, operand_bytes(mode)),
                ..old(self)@
            }),
            final(memory)@ == old(memory)@.update(
                operand_addr(old(memory)@, old(self)@.pc, idx, mode) as int,
                value,
            ),
    {
        let mut pc = self.get_pc();
        match mode {
            AddressingMode::ZeroPage => memory.write_zero_page(&mut pc, value),
            AddressingMode::ZeroPageX => memory.write_zero_page_x(&mut pc, idx, value),
            AddressingMode::ZeroPageY => memory.write_zero_page_x(&mut pc, idx, value),
            AddressingMode::Absolute => memory.write_absolute(&mut pc, value),
            AddressingMode::AbsoluteX => memory.write_absolute_x(&mut pc, idx, value),
            AddressingMode::AbsoluteY => memory.write_absolute_x(&mut pc, idx, value),
            AddressingMode::IndirectX => memory.write_indirect_x(&mut pc, idx, value),
            AddressingMode::IndirectY => memory.write_indirect_y(&mut pc, idx, value),
            _ => unreached(),
        }
        self.set_pc(pc);
    }

    /// Reads the byte a read-modify-write instruction will rewrite, without
    /// moving the program counter.
    fn peek_rmw_operand(&self, memory: &Memory, mode: AddressingMode, idx: u8) -> (v: u8)
        requires
            is_rmw_mode(mode),
        ensures
            v == byte_at(
                memory@,
                operand_addr(memory@, self@.pc, idx, mode),
            ),
    {
        let mut pc = self.get_pc();
        match mode {
            AddressingMode::ZeroPage => memory.read_zero_page(&mut pc),
            AddressingMode::ZeroPageX => memory.read_zero_page_x(&mut pc, idx),
            AddressingMode::Absolute => memory.read_absolute(&mut pc),
            AddressingMode::AbsoluteX => memory.read_absolute_x(&mut pc, idx),
            _ => unreached(),
        }
    }

    /// A load (`LDA`/`LDX`/`LDY`): operand into `target`, zero and negative
    /// flags from the value.
    pub(crate) fn op_load(
        &mut self,
        memory: &Memory,
        target: Register,
        mode: AddressingMode,
        idx: u8,
    )
        requires
            is_read_mode(mode),
            matches!(target, Register::A | Register::X | Register::Y),
            old(self)@.cycles + 8 <= u64::MAX,
        ensures
            final(self)@ == spec_load(old(self)@, memory@, target, mode, idx),
    {
        let (value, crossed) = self.fetch_operand(memory, mode, idx);
        self.set_reg(target, value);
        self.test_number(value);
        let base = read_base_cycles(mode);
        self.bump_cycles(if crossed { base + 1 } else { base });
    }

    /// A store (`STA`/`STX`/`STY`): register into memory, no flag changes.
    pub(crate) fn op_store(
        &mut self,
        memory: &mut Memory,
        src: Register,
        mode: AddressingMode,
        idx: u8,
    )
        requires
            is_write_mode(mode),
            matches!(src, Register::A | Register::X | Register::Y),
            old(self)@.cycles + 8 <= u64::MAX,
        ensures
            final(self)@ == spec_store(old(self)@, old(memory)@, src, mode, idx).0,
            final(memory)@ == spec_store(old(self)@, old(memory)@, src, mode, idx).1,
    {
        let value = self.get_reg(src);
        self.write_operand(memory, mode, idx, value);
        self.bump_cycles(store_base_cycles(mode));
    }

    /// A register transfer; all but `TXS` set the zero and negative flags.
    pub(crate) fn op_transfer(&mut self, src: Register, dst: Register, set_flags: bool)
        requires
            matches!(src, Register::A | Register::X | Register::Y | Register::SP),
            matches!(dst, Register::A | Register::X | Register::Y | Register::SP),
            old(self)@.cycles + 8 <= u64::MAX,
        ensures
            final(self)@ == spec_transfer(old(self)@, src, dst, set_flags),
    {
        let value = self.get_reg(src);
        self.set_reg(dst, value);
        if set_flags {
            self.test_number(value);
        }
        self.bump_cycles(2);
    }

    /// A push (`PHA`/`PHP`): write at `$0100 + SP`, then decrement `SP`.
    pub(crate) fn op_push(&mut self, memory: &mut Memory, src: Register)
        requires
            matches!(src, Register::A | Register::PS),
            old(self)@.cycles + 8 <= u64::MAX,
        ensures
            final(self)@ == spec_push(old(self)@, old(memory)@, src).0,
            final(memory)@ == spec_push(old(self)@, old(memory)@, src).1,
    {
        let value = self.get_reg(src);
        let sp = self.get_sp();
        memory.write_byte(0x0100 + sp as u16, value);
        self.set_sp(sub_mod_256(sp, 1));
        self.bump_cycles(3);
    }

    /// A pull (`PLA`/`PLP`): increment `SP`, then read at `$0100 + SP`.
    /// `PLA` sets the zero and negative flags; `PLP` replaces the whole
    /// status byte.
    pub(crate) fn op_pull(&mut self, memory: &Memory, dst: Register, set_flags: bool)
        requires
            matches!(dst, Register::A | Register::PS),
            old(self)@.cycles + 8 <= u64::MAX,
        ensures
            final(self)@ == spec_pull(old(self)@, memory@, dst, set_flags),
    {
        let sp = add_mod_256(self.get_sp(), 1);
        self.set_sp(sp);
        let value = memory.read_byte(0x0100 + sp as u16);
        self.set_reg(dst, value);
        if set_flags {
            self.test_number(value);
        }
        self.bump_cycles(4);
    }

    /// A logical operation (`AND`/`EOR`/`ORA`) on the accumulator.
    pub(crate) fn op_logic(&mut self, memory: &Memory, op: LogicOp, mode: AddressingMode, idx: u8)
        requires
            is_read_mode(mode),
            old(self)@.cycles + 8 <= u64::MAX,
        ensures
            final(self)@ == spec_logic(old(self)@, memory@, op, mode, idx),
    {
        let a = self.get_a();
        let (value, crossed) = self.fetch_operand(memory, mode, idx);
        let r = match op {
            LogicOp::And => a & value,
            LogicOp::Eor => a ^ value,
            LogicOp::Ora => a | value,
        };
        self.set_a(r);
        self.test_number(r);
        let base = read_base_cycles(mode);
        self.bump_cycles(if crossed { base + 1 } else { base });
    }

    /// `BIT` with a zero-page operand: Z from `A & m`, V from bit 6 of `m`,
    /// N from bit 7 of `m`.
    pub(crate) fn bit_zero_page(&mut self, memory: &Memory)
        requires
            old(self)@.cycles + 8 <= u64::MAX,
        ensures
            final(self)@ == spec_bit(old(self)@, memory@, AddressingMode::ZeroPage),
    {
        let a = self.get_a();
        let (value, _crossed) = self.fetch_operand(memory, AddressingMode::ZeroPage, 0);
        self.set_zero((a & value) == 0);
        self.set_overflow((value & 0x40) != 0);
        self.set_negative((value & 0x80) != 0);
        self.bump_cycles(3);
    }

    /// `BIT` with an absolute operand.
    pub(crate) fn bit_absolute(&mut self, memory: &Memory)
        requires
            old(self)@.cycles + 8 <= u64::MAX,
        ensures
            final(self)@ == spec_bit(old(self)@, memory@, AddressingMode::Absolute),
    {
        let a = self.get_a();
        let (value, _crossed) = self.fetch_operand(memory, AddressingMode::Absolute, 0);
        self.set_zero((a & value) == 0);
        self.set_overflow((value & 0x40) != 0);
        self.set_negative((value & 0x80) != 0);
        self.bump_cycles(4);
    }

    /// Binary-mode add with carry into the accumulator, setting Z, N, C
    /// (carry out of bit 7) and V (signed overflow).
    pub(crate) fn addition(&mut self, n1: u8, n2: u8, c: bool)
        ensures
            final(self)@ == spec_addition(old(self)@, n1, n2, c),
    {
        let sum: u16 = n1 as u16 + n2 as u16 + (if c { 1 } else { 0 });
        let r = (sum % 256) as u8;
        self.set_a(r);
        self.set_zero(r == 0);
        self.set_negative((r & 0x80) != 0);
        self.set_carry(sum > 255);
        self.set_overflow(((n1 ^ r) & (n2 ^ r) & 0x80) != 0);
    }

    /// Binary-mode subtract with carry (inverted borrow), setting Z, N, C
    /// (no borrow needed) and V (signed overflow).
    pub(crate) fn substraction(&mut self, n1: u8, n2: u8, c: bool)
        ensures
            final(self)@ == spec_substraction(old(self)@, n1, n2, c),
    {
        let borrow: u16 = if c { 0 } else { 1 };
        let diff: u16 = n1 as u16 + 256 - n2 as u16 - borrow;
        let r = (diff % 256) as u8;
        self.set_a(r);
        self.set_zero(r == 0);
        self.set_negative((r & 0x80) != 0);
        self.set_carry(n1 as u16 >= n2 as u16 + borrow);
        self.set_overflow(((n1 ^ n2) & (n1 ^ r) & 0x80) != 0);
    }

    /// `ADC`: fetch the operand and add it, with carry, into the
    /// accumulator.
    pub(crate) fn op_adc(&mut self, memory: &Memory, mode: AddressingMode, idx: u8)
        requires
            is_read_mode(mode),
            old(self)@.cycles + 8 <= u64::MAX,
        ensures
            final(self)@ == spec_adc(old(self)@, memory@, mode, idx),
    {
        let a = self.get_a();
        let (value, crossed) = self.fetch_operand(memory, mode, idx);
        let c = self.get_carry();
        self.addition(a, value, c);
        let base = read_base_cycles(mode);
        self.bump_cycles(if crossed { base + 1 } else { base });
    }

    /// `SBC`: fetch the operand and subtract it, with the inverted carry as
    /// borrow, from the accumulator.
    pub(crate) fn op_sbc(&mut self, memory: &Memory, mode: AddressingMode, idx: u8)
        requires
            is_read_mode(mode),
            old(self)@.cycles + 8 <= u64::MAX,
        ensures
            final(self)@ == spec_sbc(old(self)@, memory@, mode, idx),
    {
        let a = self.get_a();
        let (value, crossed) = self.fetch_operand(memory, mode, idx);
        let c = self.get_carry();
        self.substraction(a, value, c);
        let base = read_base_cycles(mode);
        self.bump_cycles(if crossed { base + 1 } else { base });
    }

    /// A compare (`CMP`/`CPX`/`CPY`): flags from `register - operand`, the
    /// register itself untouched.
    pub(crate) fn op_compare(
        &mut self,
        memory: &Memory,
        reg: Register,
        mode: AddressingMode,
        idx: u8,
    )
        requires
            is_read_mode(mode),
            matches!(reg, Register::A | Register::X | Register::Y),
            old(self)@.cycles + 8 <= u64::MAX,
        ensures
            final(self)@ == spec_compare(old(self)@, memory@, reg, mode, idx),
    {
        let rv = self.get_reg(reg);
        let (value, crossed) = self.fetch_operand(memory, mode, idx);
        let d = ((rv as u16 + 256 - value as u16) % 256) as u8;
        self.set_zero(rv == value);
        self.set_negative((d & 0x80) != 0);
        self.set_carry(rv >= value);
        let base = read_base_cycles(mode);
        self.bump_cycles(if crossed { base + 1 } else { base });
    }

    /// `INC`/`DEC` on memory: read, adjust with eight-bit wrap, write back,
    /// flags from the new value.
    pub(crate) fn op_incdec_memory(
        &mut self,
        memory: &mut Memory,
        inc: bool,
        mode: AddressingMode,
        idx: u8,
    )
        requires
            is_rmw_mode(mode),
            old(self)@.cycles + 8 <= u64::MAX,
        ensures
            final(self)@ == spec_incdec_mem(old(self)@, old(memory)@, inc, mode, idx).0,
            final(memory)@ == spec_incdec_mem(old(self)@, old(memory)@, inc, mode, idx).1,
    {
        let value = self.peek_rmw_operand(memory, mode, idx);
        let res = if inc {
            add_mod_256(value, 1)
        } else {
            sub_mod_256(value, 1)
        };
        self.write_operand(memory, mode, idx, res);
        self.test_number(res);
        self.bump_cycles(rmw_base_cycles(mode));
    }

    /// `INX`/`INY`/`DEX`/`DEY`: adjust an index register with eight-bit
    /// wrap, flags from the new value.
    pub(crate) fn op_incdec_register(&mut self, reg: Register, inc: bool)
        requires
            matches!(reg, Register::X | Register::Y),
            old(self)@.cycles + 8 <= u64::MAX,
        ensures
            final(self)@ == spec_incdec_reg(old(self)@, reg, inc),
    {
        let value = self.get_reg(reg);
        let res = if inc {
            add_mod_256(value, 1)
        } else {
            sub_mod_256(value, 1)
        };
        self.set_reg(reg, res);
        self.test_number(res);
        self.bump_cycles(2);
    }

    /// Applies one shift or rotate to a byte, under the current carry.
    fn shift_dispatch(&self, kind: ShiftKind, value: u8) -> (r: (u8, bool))
        ensures
            r == shift_value(kind, value, flag(self@.status, FLAG_C)),
    {
        let c = self.get_carry();
        match kind {
            ShiftKind::Asl => asl_func(value, c),
            ShiftKind::Lsr => lsr_func(value, c),
            ShiftKind::Rol => rol_func(value, c),
            ShiftKind::Ror => ror_func(value, c),
        }
    }

    /// A shift or rotate of the accumulator.
    pub(crate) fn op_shift_accumulator(&mut self, kind: ShiftKind)
        requires
            old(self)@.cycles + 8 <= u64::MAX,
        ensures
            final(self)@ == spec_shift_acc(old(self)@, kind),
    {
        let value = self.get_a();
        let (res, carry_out) = self.shift_dispatch(kind, value);
        self.set_a(res);
        self.set_carry(carry_out);
        self.test_number(res);
        self.bump_cycles(2);
    }

    /// A shift or rotate of a memory byte, written back in place.
    pub(crate) fn op_shift_memory(
        &mut self,
        memory: &mut Memory,
        kind: ShiftKind,
        mode: AddressingMode,
        idx: u8,
    )
        requires
            is_rmw_mode(mode),
            old(self)@.cycles + 8 <= u64::MAX,
        ensures
            final(self)@ == spec_shift_mem(old(self)@, old(memory)@, kind, mode, idx).0,
            final(memory)@ == spec_shift_mem(old(self)@, old(memory)@, kind, mode, idx).1,
    {
        let value = self.peek_rmw_operand(memory, mode, idx);
        let (res, carry_out) = self.shift_dispatch(kind, value);
        self.write_operand(memory, mode, idx, res);
        self.set_carry(carry_out);
        self.test_number(res);
        self.bump_cycles(rmw_base_cycles(mode));
    }

    /// `JMP` absolute: the operand word becomes the program counter.
    pub(crate) fn jmp_absolute(&mut self, memory: &Memory)
        requires
            old(self)@.cycles + 8 <= u64::MAX,
        ensures
            final(self)@ == spec_jmp_abs(old(self)@, memory@),
    {
        let target = memory.read_word(self.get_pc());
        self.set_pc(target);
        self.bump_cycles(3);
    }

    /// `JMP` indirect, with the documented page-wrap quirk: the target's
    /// high byte is fetched from the same page as its low byte.
    pub(crate) fn jmp_indirect(&mut self, memory: &Memory)
        requires
            old(self)@.cycles + 8 <= u64::MAX,
        ensures
            final(self)@ == spec_jmp_ind(old(self)@, memory@),
    {
        let ptr = memory.read_word(self.get_pc());
        let lo = memory.read_byte(ptr);
        let hi = memory.read_byte((ptr / 256) * 256 + (ptr % 256 + 1) % 256);
        self.set_pc(hi as u16 * 256 + lo as u16);
        self.bump_cycles(5);
    }

    /// `JSR`: push the address of the instruction's last byte, high byte
    /// first, then jump to the operand word.
    pub(crate) fn jsr_absolute(&mut self, memory: &mut Memory)
        requires
            old(self)@.cycles + 8 <= u64::MAX,
        ensures
            final(self)@ == spec_jsr(old(self)@, old(memory)@).0,
            final(memory)@ == spec_jsr(old(self)@, old(memory)@).1,
    {
        let pc = self.get_pc();
        let target = memory.read_word(pc);
        let ret = add_mod_65536(pc, 1);
        let mut sp = self.get_sp();
        memory.write_byte(0x0100 + sp as u16, (ret / 256) as u8);
        sp = sub_mod_256(sp, 1);
        memory.write_byte(0x0100 + sp as u16, (ret % 256) as u8);
        sp = sub_mod_256(sp, 1);
        self.set_sp(sp);
        self.set_pc(target);
        self.bump_cycles(6);
    }

    /// `RTS`: pull the return address, low byte first, and resume one past
    /// it.
    pub(crate) fn rts_implied(&mut self, memory: &Memory)
        requires
            old(self)@.cycles + 8 <= u64::MAX,
        ensures
            final(self)@ == spec_rts(old(self)@, memory@),
    {
        let mut sp = self.get_sp();
        sp = add_mod_256(sp, 1);
        let lo = memory.read_byte(0x0100 + sp as u16);
        sp = add_mod_256(sp, 1);
        let hi = memory.read_byte(0x0100 + sp as u16);
        self.set_sp(sp);
        self.set_pc(add_mod_65536(hi as u16 * 256 + lo as u16, 1));
        self.bump_cycles(6);
    }

    /// A conditional branch on status bit `flag_idx` being `want`: two
    /// cycles when not taken, three when taken, one more when the target
    /// lies on a different page than the next instruction.
    pub(crate) fn op_branch(&mut self, memory: &Memory, flag_idx: u8, want: bool)
        requires
            flag_idx < 8,
            old(self)@.cycles + 8 <= u64::MAX,
        ensures
            final(self)@ == spec_branch(old(self)@, memory@, flag_idx, want),
    {
        let offset = memory.read_byte(self.get_pc());
        let base = add_mod_65536(self.get_pc(), 1);
        self.set_pc(base);
        if self.get_flag(flag_idx) == want {
            let target = if offset < 128 {
                add_mod_65536(base, offset as u16)
            } else {
                add_mod_65536(base, offset as u16 + 0xFF00)
            };
            let pen: u64 = if target / 256 != base / 256 {
                1
            } else {
                0
            };
            self.set_pc(target);
            self.bump_cycles(3 + pen);
        } else {
            self.bump_cycles(2);
        }
    }
}

} // verus!
