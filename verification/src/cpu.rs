//! Processor state: registers, the status bitfield and the cycle counter,
//! together with the mathematical view (`CpuState`) that every instruction
//! contract is written against.

use vstd::prelude::*;

verus! {

/// Bit position of the carry flag in the status byte.
pub const FLAG_C: u8 = 0;

/// Bit position of the zero flag.
pub const FLAG_Z: u8 = 1;

/// Bit position of the interrupt-disable flag.
pub const FLAG_I: u8 = 2;

/// Bit position of the decimal-mode flag.
pub const FLAG_D: u8 = 3;

/// Bit position of the break-command flag.
pub const FLAG_B: u8 = 4;

/// Bit position of the overflow flag.
pub const FLAG_V: u8 = 5;

/// Bit position of the negative flag.
pub const FLAG_N: u8 = 6;

/// Whether bit `i` of the status byte `p` is set.
pub open spec fn flag(p: u8, i: u8) -> bool {
    p & (1u8 << i) != 0
}

/// The status byte `p` with bit `i` forced to `v` and every other bit kept.
pub open spec fn with_flag(p: u8, i: u8, v: bool) -> u8 {
    (p & !(1u8 << i)) | (if v { 1u8 << i } else { 0u8 })
}

/// Writing one status bit leaves every other bit unchanged and reads back
/// as the value written.
pub broadcast proof fn lemma_flag_with_flag(p: u8, i: u8, v: bool, j: u8)
    by (bit_vector)
    requires
        i < 8,
        j < 8,
    ensures
        #[trigger] flag(with_flag(p, i, v), j) == (if i == j {
            v
        } else {
            flag(p, j)
        }),
{
}

/// The status byte after an operation that sets the zero and negative flags
/// from an eight-bit result: Z iff the result is zero, N iff its bit 7 is
/// set, all other bits kept.
pub open spec fn status_nz(p: u8, n: u8) -> u8 {
    with_flag(with_flag(p, FLAG_Z, n == 0), FLAG_N, n & 0x80 != 0)
}

/// The mathematical state of the processor: what the contracts speak about.
pub struct CpuState {
    pub cycles: u64,
    pub pc: u16,
    pub sp: u8,
    pub a: u8,
    pub x: u8,
    pub y: u8,
    pub status: u8,
}

impl CpuState {
    /// The all-zero state that `reset` establishes.
    pub open spec fn zeroed() -> CpuState {
        CpuState { cycles: 0, pc: 0, sp: 0, a: 0, x: 0, y: 0, status: 0 }
    }
}

/// The registers an instruction may name as its source or target.
#[derive(PartialEq, Eq, Structural, Clone, Copy, Debug)]
pub enum Register {
    A,
    X,
    Y,
    SP,
    I,
    PS,
    NoReg,
}

/// The value register `r` holds in state `s` (`PS` reads the status byte).
pub open spec fn reg_read(s: CpuState, r: Register) -> u8 {
    match r {
        Register::A => s.a,
        Register::X => s.x,
        Register::Y => s.y,
        Register::SP => s.sp,
        Register::PS => s.status,
        _ => 0,
    }
}

/// State `s` with register `r` replaced by `v` (`PS` replaces the whole
/// status byte, as `PLP` does).
pub open spec fn reg_write(s: CpuState, r: Register, v: u8) -> CpuState {
    match r {
        Register::A => CpuState { a: v, ..s },
        Register::X => CpuState { x: v, ..s },
        Register::Y => CpuState { y: v, ..s },
        Register::SP => CpuState { sp: v, ..s },
        Register::PS => CpuState { status: v, ..s },
        _ => s,
    }
}

/// The MOS 6502 processor: registers `A`, `X`, `Y`, stack pointer, program
/// counter, status byte and a monotonic cycle counter.
#[derive(Clone, Copy)]
pub struct CPU {
    pub(crate) cycles: u64,
    pub(crate) pc: u16,
    pub(crate) sp: u8,
    pub(crate) a: u8,
    pub(crate) x: u8,
    pub(crate) y: u8,
    pub(crate) status: u8,
}

impl View for CPU {
    type V = CpuState;

    closed spec fn view(&self) -> CpuState {
        CpuState {
            cycles: self.cycles,
            pc: self.pc,
            sp: self.sp,
            a: self.a,
            x: self.x,
            y: self.y,
            status: self.status,
        }
    }
}

impl Default for CPU {
    /// A processor in the all-zero state.
    fn default() -> (r: Self)
        ensures
            r@ == CpuState::zeroed(),
    {
        CPU { cycles: 0, pc: 0, sp: 0, a: 0, x: 0, y: 0, status: 0 }
    }
}

impl CPU {
    /// Returns every register, the program counter, the status byte and the
    /// cycle counter to zero.
    pub fn reset(&mut self)
        ensures
            final(self)@ == CpuState::zeroed(),
    {
        self.cycles = 0;
        self.pc = 0;
        self.sp = 0;
        self.a = 0;
        self.x = 0;
        self.y = 0;
        self.status = 0;
    }

    /// The raw status byte.
    pub fn get_status(&self) -> (p: u8)
        ensures
            p == self@.status,
    {
        self.status
    }

    /// Replaces the whole status byte.
    pub fn set_status(&mut self, p: u8)
        ensures
            final(self)@ == (CpuState { status: p, ..old(self)@ }),
    {
        self.status = p;
    }

    /// The carry flag (status bit 0).
    pub fn get_carry(&self) -> (v: bool)
        ensures
            v == flag(self@.status, FLAG_C),
    {
        (self.status & (1u8 << 0)) != 0
    }

    /// Sets the carry flag, preserving all other status bits.
    pub fn set_carry(&mut self, value: bool)
        ensures
            final(self)@ == (CpuState {
                status: with_flag(old(self)@.status, FLAG_C, value),
                ..old(self)@
            }),
    {
        let bit: u8 = if value { 1u8 << 0 } else { 0u8 };
        self.status = (self.status & !(1u8 << 0)) | bit;
    }

    /// The zero flag (status bit 1).
    pub fn get_zero(&self) -> (v: bool)
        ensures
            v == flag(self@.status, FLAG_Z),
    {
        (self.status & (1u8 << 1)) != 0
    }

    /// Sets the zero flag, preserving all other status bits.
    pub fn set_zero(&mut self, value: bool)
        ensures
            final(self)@ == (CpuState {
                status: with_flag(old(self)@.status, FLAG_Z, value),
                ..old(self)@
            }),
    {
        let bit: u8 = if value { 1u8 << 1 } else { 0u8 };
        self.status = (self.status & !(1u8 << 1)) | bit;
    }

    /// The interrupt-disable flag (status bit 2).
    pub fn get_interrupt_disable(&self) -> (v: bool)
        ensures
            v == flag(self@.status, FLAG_I),
    {
        (self.status & (1u8 << 2)) != 0
    }

    /// Sets the interrupt-disable flag, preserving all other status bits.
    pub fn set_interrupt_disable(&mut self, value: bool)
        ensures
            final(self)@ == (CpuState {
                status: with_flag(old(self)@.status, FLAG_I, value),
                ..old(self)@
            }),
    {
        let bit: u8 = if value { 1u8 << 2 } else { 0u8 };
        self.status = (self.status & !(1u8 << 2)) | bit;
    }

    /// The decimal-mode flag (status bit 3).
    pub fn get_decimal_mode(&self) -> (v: bool)
        ensures
            v == flag(self@.status, FLAG_D),
    {
        (self.status & (1u8 << 3)) != 0
    }

    /// Sets the decimal-mode flag, preserving all other status bits.
    pub fn set_decimal_mode(&mut self, value: bool)
        ensures
            final(self)@ == (CpuState {
                status: with_flag(old(self)@.status, FLAG_D, value),
                ..old(self)@
            }),
    {
        let bit: u8 = if value { 1u8 << 3 } else { 0u8 };
        self.status = (self.status & !(1u8 << 3)) | bit;
    }

    /// The break-command flag (status bit 4).
    pub fn get_break_command(&self) -> (v: bool)
        ensures
            v == flag(self@.status, FLAG_B),
    {
        (self.status & (1u8 << 4)) != 0
    }

    /// Sets the break-command flag, preserving all other status bits.
    pub fn set_break_command(&mut self, value: bool)
        ensures
            final(self)@ == (CpuState {
                status: with_flag(old(self)@.status, FLAG_B, value),
                ..old(self)@
            }),
    {
        let bit: u8 = if value { 1u8 << 4 } else { 0u8 };
        self.status = (self.status & !(1u8 << 4)) | bit;
    }

    /// The overflow flag (status bit 5).
    pub fn get_overflow(&self) -> (v: bool)
        ensures
            v == flag(self@.status, FLAG_V),
    {
        (self.status & (1u8 << 5)) != 0
    }

    /// Sets the overflow flag, preserving all other status bits.
    pub fn set_overflow(&mut self, value: bool)
        ensures
            final(self)@ == (CpuState {
                status: with_flag(old(self)@.status, FLAG_V, value),
                ..old(self)@
            }),
    {
        let bit: u8 = if value { 1u8 << 5 } else { 0u8 };
        self.status = (self.status & !(1u8 << 5)) | bit;
    }

    /// The negative flag (status bit 6).
    pub fn get_negative(&self) -> (v: bool)
        ensures
            v == flag(self@.status, FLAG_N),
    {
        (self.status & (1u8 << 6)) != 0
    }

    /// Sets the negative flag, preserving all other status bits.
    pub fn set_negative(&mut self, value: bool)
        ensures
            final(self)@ == (CpuState {
                status: with_flag(old(self)@.status, FLAG_N, value),
                ..old(self)@
            }),
    {
        let bit: u8 = if value { 1u8 << 6 } else { 0u8 };
        self.status = (self.status & !(1u8 << 6)) | bit;
    }

    /// Sets the zero and negative flags from an eight-bit result.
    pub(crate) fn test_number(&mut self, num: u8)
        ensures
            final(self)@ == (CpuState {
                status: status_nz(old(self)@.status, num),
                ..old(self)@
            }),
    {
        self.set_zero(num == 0);
        self.set_negative((num & 0x80) != 0);
    }

    /// The accumulator.
    pub fn get_a(&self) -> (v: u8)
        ensures
            v == self@.a,
    {
        self.a
    }

    /// Sets the accumulator without touching any flag.
    pub fn set_a(&mut self, v: u8)
        ensures
            final(self)@ == (CpuState { a: v, ..old(self)@ }),
    {
        self.a = v;
    }

    /// The `X` index register.
    pub fn get_x(&self) -> (v: u8)
        ensures
            v == self@.x,
    {
        self.x
    }

    /// Sets the `X` index register without touching any flag.
    pub fn set_x(&mut self, v: u8)
        ensures
            final(self)@ == (CpuState { x: v, ..old(self)@ }),
    {
        self.x = v;
    }

    /// The `Y` index register.
    pub fn get_y(&self) -> (v: u8)
        ensures
            v == self@.y,
    {
        self.y
    }

    /// Sets the `Y` index register without touching any flag.
    pub fn set_y(&mut self, v: u8)
        ensures
            final(self)@ == (CpuState { y: v, ..old(self)@ }),
    {
        self.y = v;
    }

    /// The stack pointer.
    pub fn get_sp(&self) -> (v: u8)
        ensures
            v == self@.sp,
    {
        self.sp
    }

    /// Sets the stack pointer without touching any flag.
    pub fn set_sp(&mut self, v: u8)
        ensures
            final(self)@ == (CpuState { sp: v, ..old(self)@ }),
    {
        self.sp = v;
    }

    /// The program counter.
    pub fn get_pc(&self) -> (v: u16)
        ensures
            v == self@.pc,
    {
        self.pc
    }

    /// Sets the program counter.
    pub fn set_pc(&mut self, v: u16)
        ensures
            final(self)@ == (CpuState { pc: v, ..old(self)@ }),
    {
        self.pc = v;
    }

    /// The cycle counter.
    pub fn get_cycles(&self) -> (v: u64)
        ensures
            v == self@.cycles,
    {
        self.cycles
    }

    /// Sets the cycle counter, for test harnesses that track expected
    /// costs.
    pub fn set_cycles(&mut self, v: u64)
        ensures
            final(self)@ == (CpuState { cycles: v, ..old(self)@ }),
    {
        self.cycles = v;
    }

    /// Adds `d` cycles to the counter; the counter never decreases.
    pub(crate) fn bump_cycles(&mut self, d: u64)
        requires
            old(self)@.cycles + d <= u64::MAX,
        ensures
            final(self)@ == (CpuState {
                cycles: (old(self)@.cycles + d) as u64,
                ..old(self)@
            }),
    {
        self.cycles = self.cycles + d;
    }

    /// The value of register `r`.
    pub(crate) fn get_reg(&self, r: Register) -> (v: u8)
        ensures
            v == reg_read(self@, r),
    {
        match r {
            Register::A => self.a,
            Register::X => self.x,
            Register::Y => self.y,
            Register::SP => self.sp,
            Register::PS => self.status,
            _ => 0,
        }
    }

    /// Stores `v` into register `r` without touching anything else.
    pub(crate) fn set_reg(&mut self, r: Register, v: u8)
        ensures
            final(self)@ == reg_write(old(self)@, r, v),
    {
        match r {
            Register::A => self.a = v,
            Register::X => self.x = v,
            Register::Y => self.y = v,
            Register::SP => self.sp = v,
            Register::PS => self.status = v,
            _ => {},
        }
    }

    /// Status bit `i`, by position.
    pub(crate) fn get_flag(&self, i: u8) -> (v: bool)
        requires
            i < 8,
        ensures
            v == flag(self@.status, i),
    {
        (self.status & (1u8 << i)) != 0
    }
}

} // verus!
