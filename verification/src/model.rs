//! The functional model of the processor: one spec function per operation
//! family, composed by `spec_execute` (one decoded instruction) and
//! `spec_step` (fetch, decode, execute).  Every executable handler is
//! verified to return exactly what these functions compute.

use crate::cpu::{
    flag, reg_read, reg_write, status_nz, with_flag, CpuState, Register, FLAG_C, FLAG_N, FLAG_V,
    FLAG_Z,
};
use crate::instruction::{spec_decode, Instruction};
use crate::memory::{
    byte_at, operand_addr, operand_bytes, operand_crossed, operand_value, page_of, wrap_add16,
    wrap_add8, wrap_sub8, word_at, AddressingMode,
};
use vstd::prelude::*;

verus! {

/// The logical operations on the accumulator.
#[derive(PartialEq, Eq, Structural, Clone, Copy, Debug)]
pub enum LogicOp {
    And,
    Eor,
    Ora,
}

/// The shift and rotate operations.
#[derive(PartialEq, Eq, Structural, Clone, Copy, Debug)]
pub enum ShiftKind {
    Asl,
    Lsr,
    Rol,
    Ror,
}

/// The cycle counter after `d` more cycles (the executable engine requires
/// enough headroom that this never truncates).
pub open spec fn cycles_plus(c: u64, d: int) -> u64 {
    (c + d) as u64
}

/// One extra cycle when a page boundary was crossed.
pub open spec fn penalty(crossed: bool) -> int {
    if crossed {
        1
    } else {
        0
    }
}

/// Base cycles of an operand-reading operation (loads, logical operations,
/// `ADC`/`SBC`, compares); indexed modes pay the page-cross penalty on top.
pub open spec fn read_cycles(mode: AddressingMode) -> int {
    match mode {
        AddressingMode::Immediate => 2,
        AddressingMode::ZeroPage => 3,
        AddressingMode::ZeroPageX => 4,
        AddressingMode::ZeroPageY => 4,
        AddressingMode::Absolute => 4,
        AddressingMode::AbsoluteX => 4,
        AddressingMode::AbsoluteY => 4,
        AddressingMode::IndirectX => 6,
        AddressingMode::IndirectY => 5,
        _ => 0,
    }
}

/// Base cycles of a store; stores always pay the worst case and never add a
/// page-cross penalty.
pub open spec fn store_cycles(mode: AddressingMode) -> int {
    match mode {
        AddressingMode::ZeroPage => 3,
        AddressingMode::ZeroPageX => 4,
        AddressingMode::ZeroPageY => 4,
        AddressingMode::Absolute => 4,
        AddressingMode::AbsoluteX => 5,
        AddressingMode::AbsoluteY => 5,
        AddressingMode::IndirectX => 6,
        AddressingMode::IndirectY => 6,
        _ => 0,
    }
}

/// Cycles of a read-modify-write operation (`INC`/`DEC` on memory, shifts
/// and rotates), fixed per mode.
pub open spec fn rmw_cycles(mode: AddressingMode) -> int {
    match mode {
        AddressingMode::Accumulator => 2,
        AddressingMode::ZeroPage => 5,
        AddressingMode::ZeroPageX => 6,
        AddressingMode::Absolute => 6,
        AddressingMode::AbsoluteX => 7,
        _ => 0,
    }
}

/// The modes a read-modify-write instruction can name a memory cell in.
pub open spec fn is_rmw_mode(mode: AddressingMode) -> bool {
    matches!(
        mode,
        AddressingMode::ZeroPage | AddressingMode::ZeroPageX | AddressingMode::Absolute
            | AddressingMode::AbsoluteX,
    )
}

/// Address of the stack cell `sp` names: the stack lives in the fixed page
/// `$0100-$01FF`.
pub open spec fn stack_addr(sp: u8) -> u16 {
    (0x0100 + sp) as u16
}

/// A load: the operand goes to `target`, the zero and negative flags follow
/// the value, the program counter passes the operand, and the cycle counter
/// grows by the mode's base cost plus the page-cross penalty.
pub open spec fn spec_load(
    s: CpuState,
    m: Seq<u8>,
    target: Register,
    mode: AddressingMode,
    idx: u8,
) -> CpuState {
    let v = operand_value(m, s.pc, idx, mode);
    CpuState {
        pc: wrap_add16(s.pc, operand_bytes(mode)),
        status: status_nz(s.status, v),
        cycles: cycles_plus(s.cycles, read_cycles(mode) + penalty(operand_crossed(m, s.pc, idx, mode))),
        ..reg_write(s, target, v)
    }
}

/// A store: the named register's value lands at the mode's effective
/// address; no flag changes and no page-cross penalty.
pub open spec fn spec_store(
    s: CpuState,
    m: Seq<u8>,
    src: Register,
    mode: AddressingMode,
    idx: u8,
) -> (CpuState, Seq<u8>) {
    (
        CpuState {
            pc: wrap_add16(s.pc, operand_bytes(mode)),
            cycles: cycles_plus(s.cycles, store_cycles(mode)),
            ..s
        },
        m.update(operand_addr(m, s.pc, idx, mode) as int, reg_read(s, src)),
    )
}

/// A register transfer; every transfer but `TXS` sets the zero and negative
/// flags from the moved value.  Two cycles.
pub open spec fn spec_transfer(s: CpuState, src: Register, dst: Register, set_flags: bool) -> CpuState {
    let v = reg_read(s, src);
    CpuState {
        status: if set_flags {
            status_nz(s.status, v)
        } else {
            s.status
        },
        cycles: cycles_plus(s.cycles, 2),
        ..reg_write(s, dst, v)
    }
}

/// A push (`PHA`/`PHP`): the value is written at `$0100 + SP`, then `SP`
/// decrements with eight-bit wrap.  Three cycles, no flag changes.
pub open spec fn spec_push(s: CpuState, m: Seq<u8>, src: Register) -> (CpuState, Seq<u8>) {
    (
        CpuState { sp: wrap_sub8(s.sp, 1), cycles: cycles_plus(s.cycles, 3), ..s },
        m.update(stack_addr(s.sp) as int, reg_read(s, src)),
    )
}

/// A pull (`PLA`/`PLP`): `SP` increments with eight-bit wrap, then the byte
/// at `$0100 + SP` is read.  `PLA` sets the zero and negative flags; `PLP`
/// replaces the whole status byte without further masking.  Four cycles.
pub open spec fn spec_pull(s: CpuState, m: Seq<u8>, dst: Register, set_flags: bool) -> CpuState {
    let sp1 = wrap_add8(s.sp, 1);
    let v = byte_at(m, stack_addr(sp1));
    let s1 = reg_write(s, dst, v);
    CpuState {
        sp: sp1,
        status: if set_flags {
            status_nz(s1.status, v)
        } else {
            s1.status
        },
        cycles: cycles_plus(s.cycles, 4),
        ..s1
    }
}

/// A logical operation on the accumulator, with zero and negative flags
/// from the result.
pub open spec fn spec_logic(
    s: CpuState,
    m: Seq<u8>,
    op: LogicOp,
    mode: AddressingMode,
    idx: u8,
) -> CpuState {
    let v = operand_value(m, s.pc, idx, mode);
    let r = match op {
        LogicOp::And => s.a & v,
        LogicOp::Eor => s.a ^ v,
        LogicOp::Ora => s.a | v,
    };
    CpuState {
        a: r,
        pc: wrap_add16(s.pc, operand_bytes(mode)),
        status: status_nz(s.status, r),
        cycles: cycles_plus(s.cycles, read_cycles(mode) + penalty(operand_crossed(m, s.pc, idx, mode))),
        ..s
    }
}

/// `BIT`: Z from `A & operand`, V from operand bit 6, N from operand bit 7;
/// the accumulator itself is untouched.
pub open spec fn spec_bit(s: CpuState, m: Seq<u8>, mode: AddressingMode) -> CpuState {
    let v = operand_value(m, s.pc, 0, mode);
    CpuState {
        pc: wrap_add16(s.pc, operand_bytes(mode)),
        status: with_flag(
            with_flag(with_flag(s.status, FLAG_Z, s.a & v == 0), FLAG_V, v & 0x40 != 0),
            FLAG_N,
            v & 0x80 != 0,
        ),
        cycles: cycles_plus(s.cycles, read_cycles(mode)),
        ..s
    }
}

/// The eight-bit sum `n1 + n2 + carry-in`, wrapped.
pub open spec fn adc_value(n1: u8, n2: u8, c: bool) -> u8 {
    ((n1 + n2 + (if c {
        1int
    } else {
        0int
    })) % 256) as u8
}

/// Whether `n1 + n2 + carry-in` carries out of bit 7 (unsigned overflow).
pub open spec fn adc_carry(n1: u8, n2: u8, c: bool) -> bool {
    n1 + n2 + (if c {
        1int
    } else {
        0int
    }) > 255
}

/// Signed overflow of an addition: the operands agree in sign and the
/// result disagrees.
pub open spec fn adc_overflow(n1: u8, n2: u8, c: bool) -> bool {
    ((n1 ^ adc_value(n1, n2, c)) & (n2 ^ adc_value(n1, n2, c)) & 0x80) != 0
}

/// The accumulator and flags after a binary-mode add with carry.
pub open spec fn spec_addition(s: CpuState, n1: u8, n2: u8, c: bool) -> CpuState {
    let r = adc_value(n1, n2, c);
    CpuState {
        a: r,
        status: with_flag(
            with_flag(status_nz(s.status, r), FLAG_C, adc_carry(n1, n2, c)),
            FLAG_V,
            adc_overflow(n1, n2, c),
        ),
        ..s
    }
}

/// The borrow a subtraction consumes: one when the carry is clear.
pub open spec fn sbc_borrow(c: bool) -> int {
    if c {
        0
    } else {
        1
    }
}

/// The eight-bit difference `n1 - n2 - borrow`, wrapped.
pub open spec fn sbc_value(n1: u8, n2: u8, c: bool) -> u8 {
    ((n1 + 256 - n2 - sbc_borrow(c)) % 256) as u8
}

/// The carry after a subtraction: set iff no borrow was needed
/// (`n1 >= n2 + borrow`, unsigned).
pub open spec fn sbc_carry(n1: u8, n2: u8, c: bool) -> bool {
    n1 >= n2 + sbc_borrow(c)
}

/// Signed overflow of a subtraction: the operands disagree in sign and the
/// result's sign differs from the minuend's.
pub open spec fn sbc_overflow(n1: u8, n2: u8, c: bool) -> bool {
    ((n1 ^ n2) & (n1 ^ sbc_value(n1, n2, c)) & 0x80) != 0
}

/// The accumulator and flags after a binary-mode subtract with carry.
pub open spec fn spec_substraction(s: CpuState, n1: u8, n2: u8, c: bool) -> CpuState {
    let r = sbc_value(n1, n2, c);
    CpuState {
        a: r,
        status: with_flag(
            with_flag(status_nz(s.status, r), FLAG_C, sbc_carry(n1, n2, c)),
            FLAG_V,
            sbc_overflow(n1, n2, c),
        ),
        ..s
    }
}

/// `ADC`: add the operand and the carry into the accumulator.
pub open spec fn spec_adc(s: CpuState, m: Seq<u8>, mode: AddressingMode, idx: u8) -> CpuState {
    let v = operand_value(m, s.pc, idx, mode);
    CpuState {
        pc: wrap_add16(s.pc, operand_bytes(mode)),
        cycles: cycles_plus(s.cycles, read_cycles(mode) + penalty(operand_crossed(m, s.pc, idx, mode))),
        ..spec_addition(s, s.a, v, flag(s.status, FLAG_C))
    }
}

/// `SBC`: subtract the operand and the inverted carry from the accumulator.
pub open spec fn spec_sbc(s: CpuState, m: Seq<u8>, mode: AddressingMode, idx: u8) -> CpuState {
    let v = operand_value(m, s.pc, idx, mode);
    CpuState {
        pc: wrap_add16(s.pc, operand_bytes(mode)),
        cycles: cycles_plus(s.cycles, read_cycles(mode) + penalty(operand_crossed(m, s.pc, idx, mode))),
        ..spec_substraction(s, s.a, v, flag(s.status, FLAG_C))
    }
}

/// A compare (`CMP`/`CPX`/`CPY`): compute `register - operand`, discard the
/// result, and set Z (equal), N (bit 7 of the difference) and C (register
/// at least operand, unsigned).
pub open spec fn spec_compare(
    s: CpuState,
    m: Seq<u8>,
    reg: Register,
    mode: AddressingMode,
    idx: u8,
) -> CpuState {
    let rv = reg_read(s, reg);
    let v = operand_value(m, s.pc, idx, mode);
    let d = ((rv + 256 - v) % 256) as u8;
    CpuState {
        pc: wrap_add16(s.pc, operand_bytes(mode)),
        status: with_flag(
            with_flag(with_flag(s.status, FLAG_Z, rv == v), FLAG_N, d & 0x80 != 0),
            FLAG_C,
            rv >= v,
        ),
        cycles: cycles_plus(s.cycles, read_cycles(mode) + penalty(operand_crossed(m, s.pc, idx, mode))),
        ..s
    }
}

/// A byte incremented or decremented with eight-bit wrap.
pub open spec fn incdec_value(v: u8, inc: bool) -> u8 {
    if inc {
        wrap_add8(v, 1)
    } else {
        wrap_sub8(v, 1)
    }
}

/// `INC`/`DEC` on memory: read, adjust, write back to the same effective
/// address; zero and negative flags follow the new value.
pub open spec fn spec_incdec_mem(
    s: CpuState,
    m: Seq<u8>,
    inc: bool,
    mode: AddressingMode,
    idx: u8,
) -> (CpuState, Seq<u8>) {
    let addr = operand_addr(m, s.pc, idx, mode);
    let r = incdec_value(byte_at(m, addr), inc);
    (
        CpuState {
            pc: wrap_add16(s.pc, operand_bytes(mode)),
            status: status_nz(s.status, r),
            cycles: cycles_plus(s.cycles, rmw_cycles(mode)),
            ..s
        },
        m.update(addr as int, r),
    )
}

/// `INX`/`INY`/`DEX`/`DEY`: adjust an index register; two cycles.
pub open spec fn spec_incdec_reg(s: CpuState, reg: Register, inc: bool) -> CpuState {
    let r = incdec_value(reg_read(s, reg), inc);
    CpuState {
        status: status_nz(s.status, r),
        cycles: cycles_plus(s.cycles, 2),
        ..reg_write(s, reg, r)
    }
}

/// A shift or rotate of one byte: the new value and the bit shifted out
/// (old bit 7 for left operations, old bit 0 for right ones).  Rotates
/// inject the old carry at the vacated end.
pub open spec fn shift_value(kind: ShiftKind, v: u8, c: bool) -> (u8, bool) {
    match kind {
        ShiftKind::Asl => (((v % 128) * 2) as u8, v & 0x80 != 0),
        ShiftKind::Lsr => ((v / 2) as u8, v & 1 != 0),
        ShiftKind::Rol => (
            ((v % 128) * 2 + (if c {
                1int
            } else {
                0int
            })) as u8,
            v & 0x80 != 0,
        ),
        ShiftKind::Ror => (
            (v / 2 + (if c {
                128int
            } else {
                0int
            })) as u8,
            v & 1 != 0,
        ),
    }
}

/// A shift or rotate of the accumulator; two cycles.
pub open spec fn spec_shift_acc(s: CpuState, kind: ShiftKind) -> CpuState {
    let (r, cout) = shift_value(kind, s.a, flag(s.status, FLAG_C));
    CpuState {
        a: r,
        status: status_nz(with_flag(s.status, FLAG_C, cout), r),
        cycles: cycles_plus(s.cycles, 2),
        ..s
    }
}

/// A shift or rotate of a memory byte, written back to the same effective
/// address.
pub open spec fn spec_shift_mem(
    s: CpuState,
    m: Seq<u8>,
    kind: ShiftKind,
    mode: AddressingMode,
    idx: u8,
) -> (CpuState, Seq<u8>) {
    let addr = operand_addr(m, s.pc, idx, mode);
    let (r, cout) = shift_value(kind, byte_at(m, addr), flag(s.status, FLAG_C));
    (
        CpuState {
            pc: wrap_add16(s.pc, operand_bytes(mode)),
            status: status_nz(with_flag(s.status, FLAG_C, cout), r),
            cycles: cycles_plus(s.cycles, rmw_cycles(mode)),
            ..s
        },
        m.update(addr as int, r),
    )
}

/// `JMP` absolute: the program counter becomes the operand word; three
/// cycles.
pub open spec fn spec_jmp_abs(s: CpuState, m: Seq<u8>) -> CpuState {
    CpuState { pc: word_at(m, s.pc), cycles: cycles_plus(s.cycles, 3), ..s }
}

/// The address one past `ptr` on the same page: the high byte of an
/// indirect jump target is fetched without carrying into the page, the
/// documented 6502 quirk.
pub open spec fn same_page_next(ptr: u16) -> u16 {
    ((ptr / 256) * 256 + (ptr % 256 + 1) % 256) as u16
}

/// `JMP` indirect: the operand word names a pointer; the target's low byte
/// comes from the pointer, the high byte from the same page.  Five cycles.
pub open spec fn spec_jmp_ind(s: CpuState, m: Seq<u8>) -> CpuState {
    let ptr = word_at(m, s.pc);
    CpuState {
        pc: (byte_at(m, same_page_next(ptr)) as u16 * 256 + byte_at(m, ptr) as u16) as u16,
        cycles: cycles_plus(s.cycles, 5),
        ..s
    }
}

/// `JSR`: push the address of the last byte of the instruction (high byte
/// first), then jump to the operand word.  Six cycles.
pub open spec fn spec_jsr(s: CpuState, m: Seq<u8>) -> (CpuState, Seq<u8>) {
    let ret = wrap_add16(s.pc, 1);
    (
        CpuState {
            pc: word_at(m, s.pc),
            sp: wrap_sub8(s.sp, 2),
            cycles: cycles_plus(s.cycles, 6),
            ..s
        },
        m.update(stack_addr(s.sp) as int, (ret / 256) as u8).update(
            stack_addr(wrap_sub8(s.sp, 1)) as int,
            (ret % 256) as u8,
        ),
    )
}

/// `RTS`: pull the return address (low byte first) and continue one past
/// it.  Six cycles.
pub open spec fn spec_rts(s: CpuState, m: Seq<u8>) -> CpuState {
    let lo = byte_at(m, stack_addr(wrap_add8(s.sp, 1)));
    let hi = byte_at(m, stack_addr(wrap_add8(s.sp, 2)));
    CpuState {
        pc: wrap_add16((hi as u16 * 256 + lo as u16) as u16, 1),
        sp: wrap_add8(s.sp, 2),
        cycles: cycles_plus(s.cycles, 6),
        ..s
    }
}

/// The branch target: the signed eight-bit displacement added to the
/// program counter after it has passed the operand.
pub open spec fn branch_target(base: u16, off: u8) -> u16 {
    if off < 128 {
        wrap_add16(base, off as u16)
    } else {
        wrap_add16(base, (off + 0xFF00) as u16)
    }
}

/// A conditional branch on status bit `flag_idx` equal to `want`: not taken
/// costs two cycles and falls through; taken costs three, plus one more
/// when the target sits on a different page than the next instruction.
pub open spec fn spec_branch(s: CpuState, m: Seq<u8>, flag_idx: u8, want: bool) -> CpuState {
    let base = wrap_add16(s.pc, 1);
    let off = byte_at(m, s.pc);
    if flag(s.status, flag_idx) == want {
        let target = branch_target(base, off);
        CpuState {
            pc: target,
            cycles: cycles_plus(
                s.cycles,
                3 + penalty(page_of(target) != page_of(base)),
            ),
            ..s
        }
    } else {
        CpuState { pc: base, cycles: cycles_plus(s.cycles, 2), ..s }
    }
}

/// One decoded instruction, applied to a processor whose program counter
/// already points one past the opcode: the new processor state and memory.
/// `INVALID` leaves both untouched.
pub open spec fn spec_execute(s: CpuState, m: Seq<u8>, i: Instruction) -> (CpuState, Seq<u8>) {
    match i {
        Instruction::LDA_IM => (spec_load(s, m, Register::A, AddressingMode::Immediate, 0), m),
        Instruction::LDA_ZP => (spec_load(s, m, Register::A, AddressingMode::ZeroPage, 0), m),
        Instruction::LDA_ZP_X => (spec_load(s, m, Register::A, AddressingMode::ZeroPageX, s.x), m),
        Instruction::LDA_ABS => (spec_load(s, m, Register::A, AddressingMode::Absolute, 0), m),
        Instruction::LDA_ABS_X => (spec_load(s, m, Register::A, AddressingMode::AbsoluteX, s.x), m),
        Instruction::LDA_ABS_Y => (spec_load(s, m, Register::A, AddressingMode::AbsoluteY, s.y), m),
        Instruction::LDA_IN_X => (spec_load(s, m, Register::A, AddressingMode::IndirectX, s.x), m),
        Instruction::LDA_IN_Y => (spec_load(s, m, Register::A, AddressingMode::IndirectY, s.y), m),
        Instruction::LDX_IM => (spec_load(s, m, Register::X, AddressingMode::Immediate, 0), m),
        Instruction::LDX_ZP => (spec_load(s, m, Register::X, AddressingMode::ZeroPage, 0), m),
        Instruction::LDX_ZP_Y => (spec_load(s, m, Register::X, AddressingMode::ZeroPageY, s.y), m),
        Instruction::LDX_ABS => (spec_load(s, m, Register::X, AddressingMode::Absolute, 0), m),
        Instruction::LDX_ABS_Y => (spec_load(s, m, Register::X, AddressingMode::AbsoluteY, s.y), m),
        Instruction::LDY_IM => (spec_load(s, m, Register::Y, AddressingMode::Immediate, 0), m),
        Instruction::LDY_ZP => (spec_load(s, m, Register::Y, AddressingMode::ZeroPage, 0), m),
        Instruction::LDY_ZP_X => (spec_load(s, m, Register::Y, AddressingMode::ZeroPageX, s.x), m),
        Instruction::LDY_ABS => (spec_load(s, m, Register::Y, AddressingMode::Absolute, 0), m),
        Instruction::LDY_ABS_X => (spec_load(s, m, Register::Y, AddressingMode::AbsoluteX, s.x), m),
        Instruction::STA_ZP => spec_store(s, m, Register::A, AddressingMode::ZeroPage, 0),
        Instruction::STA_ZP_X => spec_store(s, m, Register::A, AddressingMode::ZeroPageX, s.x),
        Instruction::STA_ABS => spec_store(s, m, Register::A, AddressingMode::Absolute, 0),
        Instruction::STA_ABS_X => spec_store(s, m, Register::A, AddressingMode::AbsoluteX, s.x),
        Instruction::STA_ABS_Y => spec_store(s, m, Register::A, AddressingMode::AbsoluteY, s.y),
        Instruction::STA_IN_X => spec_store(s, m, Register::A, AddressingMode::IndirectX, s.x),
        Instruction::STA_IN_Y => spec_store(s, m, Register::A, AddressingMode::IndirectY, s.y),
        Instruction::STX_ZP => spec_store(s, m, Register::X, AddressingMode::ZeroPage, 0),
        Instruction::STX_ZP_Y => spec_store(s, m, Register::X, AddressingMode::ZeroPageY, s.y),
        Instruction::STX_ABS => spec_store(s, m, Register::X, AddressingMode::Absolute, 0),
        Instruction::STY_ZP => spec_store(s, m, Register::Y, AddressingMode::ZeroPage, 0),
        Instruction::STY_ZP_X => spec_store(s, m, Register::Y, AddressingMode::ZeroPageX, s.x),
        Instruction::STY_ABS => spec_store(s, m, Register::Y, AddressingMode::Absolute, 0),
        Instruction::TAX => (spec_transfer(s, Register::A, Register::X, true), m),
        Instruction::TAY => (spec_transfer(s, Register::A, Register::Y, true), m),
        Instruction::TXA => (spec_transfer(s, Register::X, Register::A, true), m),
        Instruction::TYA => (spec_transfer(s, Register::Y, Register::A, true), m),
        Instruction::TSX => (spec_transfer(s, Register::SP, Register::X, true), m),
        Instruction::TXS => (spec_transfer(s, Register::X, Register::SP, false), m),
        Instruction::PHA => spec_push(s, m, Register::A),
        Instruction::PHP => spec_push(s, m, Register::PS),
        Instruction::PLA => (spec_pull(s, m, Register::A, true), m),
        Instruction::PLP => (spec_pull(s, m, Register::PS, false), m),
        Instruction::AND_IM => (spec_logic(s, m, LogicOp::And, AddressingMode::Immediate, 0), m),
        Instruction::AND_ZP => (spec_logic(s, m, LogicOp::And, AddressingMode::ZeroPage, 0), m),
        Instruction::AND_ZP_X => (spec_logic(s, m, LogicOp::And, AddressingMode::ZeroPageX, s.x), m),
        Instruction::AND_ABS => (spec_logic(s, m, LogicOp::And, AddressingMode::Absolute, 0), m),
        Instruction::AND_ABS_X => (spec_logic(s, m, LogicOp::And, AddressingMode::AbsoluteX, s.x), m),
        Instruction::AND_ABS_Y => (spec_logic(s, m, LogicOp::And, AddressingMode::AbsoluteY, s.y), m),
        Instruction::AND_IN_X => (spec_logic(s, m, LogicOp::And, AddressingMode::IndirectX, s.x), m),
        Instruction::AND_IN_Y => (spec_logic(s, m, LogicOp::And, AddressingMode::IndirectY, s.y), m),
        Instruction::EOR_IM => (spec_logic(s, m, LogicOp::Eor, AddressingMode::Immediate, 0), m),
        Instruction::EOR_ZP => (spec_logic(s, m, LogicOp::Eor, AddressingMode::ZeroPage, 0), m),
        Instruction::EOR_ZP_X => (spec_logic(s, m, LogicOp::Eor, AddressingMode::ZeroPageX, s.x), m),
        Instruction::EOR_ABS => (spec_logic(s, m, LogicOp::Eor, AddressingMode::Absolute, 0), m),
        Instruction::EOR_ABS_X => (spec_logic(s, m, LogicOp::Eor, AddressingMode::AbsoluteX, s.x), m),
        Instruction::EOR_ABS_Y => (spec_logic(s, m, LogicOp::Eor, AddressingMode::AbsoluteY, s.y), m),
        Instruction::EOR_IN_X => (spec_logic(s, m, LogicOp::Eor, AddressingMode::IndirectX, s.x), m),
        Instruction::EOR_IN_Y => (spec_logic(s, m, LogicOp::Eor, AddressingMode::IndirectY, s.y), m),
        Instruction::ORA_IM => (spec_logic(s, m, LogicOp::Ora, AddressingMode::Immediate, 0), m),
        Instruction::ORA_ZP => (spec_logic(s, m, LogicOp::Ora, AddressingMode::ZeroPage, 0), m),
        Instruction::ORA_ZP_X => (spec_logic(s, m, LogicOp::Ora, AddressingMode::ZeroPageX, s.x), m),
        Instruction::ORA_ABS => (spec_logic(s, m, LogicOp::Ora, AddressingMode::Absolute, 0), m),
        Instruction::ORA_ABS_X => (spec_logic(s, m, LogicOp::Ora, AddressingMode::AbsoluteX, s.x), m),
        Instruction::ORA_ABS_Y => (spec_logic(s, m, LogicOp::Ora, AddressingMode::AbsoluteY, s.y), m),
        Instruction::ORA_IN_X => (spec_logic(s, m, LogicOp::Ora, AddressingMode::IndirectX, s.x), m),
        Instruction::ORA_IN_Y => (spec_logic(s, m, LogicOp::Ora, AddressingMode::IndirectY, s.y), m),
        Instruction::BIT_ZP => (spec_bit(s, m, AddressingMode::ZeroPage), m),
        Instruction::BIT_ABS => (spec_bit(s, m, AddressingMode::Absolute), m),
        Instruction::ADC_IM => (spec_adc(s, m, AddressingMode::Immediate, 0), m),
        Instruction::ADC_ZP => (spec_adc(s, m, AddressingMode::ZeroPage, 0), m),
        Instruction::ADC_ZP_X => (spec_adc(s, m, AddressingMode::ZeroPageX, s.x), m),
        Instruction::ADC_ABS => (spec_adc(s, m, AddressingMode::Absolute, 0), m),
        Instruction::ADC_ABS_X => (spec_adc(s, m, AddressingMode::AbsoluteX, s.x), m),
        Instruction::ADC_ABS_Y => (spec_adc(s, m, AddressingMode::AbsoluteY, s.y), m),
        Instruction::ADC_IN_X => (spec_adc(s, m, AddressingMode::IndirectX, s.x), m),
        Instruction::ADC_IN_Y => (spec_adc(s, m, AddressingMode::IndirectY, s.y), m),
        Instruction::SBC_IM => (spec_sbc(s, m, AddressingMode::Immediate, 0), m),
        Instruction::SBC_ZP => (spec_sbc(s, m, AddressingMode::ZeroPage, 0), m),
        Instruction::SBC_ZP_X => (spec_sbc(s, m, AddressingMode::ZeroPageX, s.x), m),
        Instruction::SBC_ABS => (spec_sbc(s, m, AddressingMode::Absolute, 0), m),
        Instruction::SBC_ABS_X => (spec_sbc(s, m, AddressingMode::AbsoluteX, s.x), m),
        Instruction::SBC_ABS_Y => (spec_sbc(s, m, AddressingMode::AbsoluteY, s.y), m),
        Instruction::SBC_IN_X => (spec_sbc(s, m, AddressingMode::IndirectX, s.x), m),
        Instruction::SBC_IN_Y => (spec_sbc(s, m, AddressingMode::IndirectY, s.y), m),
        Instruction::CMP_IM => (spec_compare(s, m, Register::A, AddressingMode::Immediate, 0), m),
        Instruction::CMP_ZP => (spec_compare(s, m, Register::A, AddressingMode::ZeroPage, 0), m),
        Instruction::CMP_ZP_X => (spec_compare(s, m, Register::A, AddressingMode::ZeroPageX, s.x), m),
        Instruction::CMP_ABS => (spec_compare(s, m, Register::A, AddressingMode::Absolute, 0), m),
        Instruction::CMP_ABS_X => (spec_compare(s, m, Register::A, AddressingMode::AbsoluteX, s.x), m),
        Instruction::CMP_ABS_Y => (spec_compare(s, m, Register::A, AddressingMode::AbsoluteY, s.y), m),
        Instruction::CMP_IN_X => (spec_compare(s, m, Register::A, AddressingMode::IndirectX, s.x), m),
        Instruction::CMP_IN_Y => (spec_compare(s, m, Register::A, AddressingMode::IndirectY, s.y), m),
        Instruction::CPX_IM => (spec_compare(s, m, Register::X, AddressingMode::Immediate, 0), m),
        Instruction::CPX_ZP => (spec_compare(s, m, Register::X, AddressingMode::ZeroPage, 0), m),
        Instruction::CPX_ABS => (spec_compare(s, m, Register::X, AddressingMode::Absolute, 0), m),
        Instruction::CPY_IM => (spec_compare(s, m, Register::Y, AddressingMode::Immediate, 0), m),
        Instruction::CPY_ZP => (spec_compare(s, m, Register::Y, AddressingMode::ZeroPage, 0), m),
        Instruction::CPY_ABS => (spec_compare(s, m, Register::Y, AddressingMode::Absolute, 0), m),
        Instruction::INC_ZP => spec_incdec_mem(s, m, true, AddressingMode::ZeroPage, s.x),
        Instruction::INC_ZP_X => spec_incdec_mem(s, m, true, AddressingMode::ZeroPageX, s.x),
        Instruction::INC_ABS => spec_incdec_mem(s, m, true, AddressingMode::Absolute, s.x),
        Instruction::INC_ABS_X => spec_incdec_mem(s, m, true, AddressingMode::AbsoluteX, s.x),
        Instruction::INX => (spec_incdec_reg(s, Register::X, true), m),
        Instruction::INY => (spec_incdec_reg(s, Register::Y, true), m),
        Instruction::DEC_ZP => spec_incdec_mem(s, m, false, AddressingMode::ZeroPage, s.x),
        Instruction::DEC_ZP_X => spec_incdec_mem(s, m, false, AddressingMode::ZeroPageX, s.x),
        Instruction::DEC_ABS => spec_incdec_mem(s, m, false, AddressingMode::Absolute, s.x),
        Instruction::DEC_ABS_X => spec_incdec_mem(s, m, false, AddressingMode::AbsoluteX, s.x),
        Instruction::DEX => (spec_incdec_reg(s, Register::X, false), m),
        Instruction::DEY => (spec_incdec_reg(s, Register::Y, false), m),
        Instruction::ASL_A => (spec_shift_acc(s, ShiftKind::Asl), m),
        Instruction::ASL_ZP => spec_shift_mem(s, m, ShiftKind::Asl, AddressingMode::ZeroPage, s.x),
        Instruction::ASL_ZP_X => spec_shift_mem(s, m, ShiftKind::Asl, AddressingMode::ZeroPageX, s.x),
        Instruction::ASL_ABS => spec_shift_mem(s, m, ShiftKind::Asl, AddressingMode::Absolute, s.x),
        Instruction::ASL_ABS_X => spec_shift_mem(s, m, ShiftKind::Asl, AddressingMode::AbsoluteX, s.x),
        Instruction::LSR_A => (spec_shift_acc(s, ShiftKind::Lsr), m),
        Instruction::LSR_ZP => spec_shift_mem(s, m, ShiftKind::Lsr, AddressingMode::ZeroPage, s.x),
        Instruction::LSR_ZP_X => spec_shift_mem(s, m, ShiftKind::Lsr, AddressingMode::ZeroPageX, s.x),
        Instruction::LSR_ABS => spec_shift_mem(s, m, ShiftKind::Lsr, AddressingMode::Absolute, s.x),
        Instruction::LSR_ABS_X => spec_shift_mem(s, m, ShiftKind::Lsr, AddressingMode::AbsoluteX, s.x),
        Instruction::ROL_A => (spec_shift_acc(s, ShiftKind::Rol), m),
        Instruction::ROL_ZP => spec_shift_mem(s, m, ShiftKind::Rol, AddressingMode::ZeroPage, s.x),
        Instruction::ROL_ZP_X => spec_shift_mem(s, m, ShiftKind::Rol, AddressingMode::ZeroPageX, s.x),
        Instruction::ROL_ABS => spec_shift_mem(s, m, ShiftKind::Rol, AddressingMode::Absolute, s.x),
        Instruction::ROL_ABS_X => spec_shift_mem(s, m, ShiftKind::Rol, AddressingMode::AbsoluteX, s.x),
        Instruction::ROR_A => (spec_shift_acc(s, ShiftKind::Ror), m),
        Instruction::ROR_ZP => spec_shift_mem(s, m, ShiftKind::Ror, AddressingMode::ZeroPage, s.x),
        Instruction::ROR_ZP_X => spec_shift_mem(s, m, ShiftKind::Ror, AddressingMode::ZeroPageX, s.x),
        Instruction::ROR_ABS => spec_shift_mem(s, m, ShiftKind::Ror, AddressingMode::Absolute, s.x),
        Instruction::ROR_ABS_X => spec_shift_mem(s, m, ShiftKind::Ror, AddressingMode::AbsoluteX, s.x),
        Instruction::JMP_ABS => (spec_jmp_abs(s, m), m),
        Instruction::JMP_IN => (spec_jmp_ind(s, m), m),
        Instruction::JSR_ABS => spec_jsr(s, m),
        Instruction::RTS_IM => (spec_rts(s, m), m),
        Instruction::BCC => (spec_branch(s, m, FLAG_C, false), m),
        Instruction::BCS => (spec_branch(s, m, FLAG_C, true), m),
        Instruction::BEQ => (spec_branch(s, m, FLAG_Z, true), m),
        Instruction::BMI => (spec_branch(s, m, FLAG_N, true), m),
        Instruction::BNE => (spec_branch(s, m, FLAG_Z, false), m),
        Instruction::BPL => (spec_branch(s, m, FLAG_N, false), m),
        Instruction::BVC => (spec_branch(s, m, FLAG_V, false), m),
        Instruction::BVS => (spec_branch(s, m, FLAG_V, true), m),
        Instruction::INVALID => (s, m),
    }
}

/// One full step: fetch the opcode at `PC`, decode it, and execute.
pub open spec fn spec_step(s: CpuState, m: Seq<u8>) -> (CpuState, Seq<u8>) {
    let i = spec_decode(byte_at(m, s.pc));
    spec_execute(CpuState { pc: wrap_add16(s.pc, 1), ..s }, m, i)
}

} // verus!
