//! The 64 KiB memory surface: byte and little-endian word access, plus the
//! per-addressing-mode read and write helpers the instruction handlers sit on.

use vstd::prelude::*;

verus! {

/// Sum of two bytes, wrapped to eight bits.
pub open spec fn wrap_add8(a: u8, b: u8) -> u8 {
    ((a + b) % 256) as u8
}

/// Sum of two 16-bit words, wrapped to sixteen bits.
pub open spec fn wrap_add16(a: u16, b: u16) -> u16 {
    ((a + b) % 0x10000) as u16
}

/// Adds two bytes, wrapping modulo 256 (zero-page index arithmetic).
pub fn add_mod_256(n1: u8, n2: u8) -> (sum: u8)
    ensures
        sum == wrap_add8(n1, n2),
{
    ((n1 as u16 + n2 as u16) % 256) as u8
}

/// Adds two words, wrapping modulo 2^16 (address and program-counter arithmetic).
pub fn add_mod_65536(n1: u16, n2: u16) -> (sum: u16)
    ensures
        sum == wrap_add16(n1, n2),
{
    ((n1 as u32 + n2 as u32) % 0x10000) as u16
}

/// Difference of two bytes, wrapped to eight bits.
pub open spec fn wrap_sub8(a: u8, b: u8) -> u8 {
    ((a + 256 - b) % 256) as u8
}

/// Subtracts two bytes, wrapping modulo 256 (stack-pointer arithmetic).
pub fn sub_mod_256(n1: u8, n2: u8) -> (d: u8)
    ensures
        d == wrap_sub8(n1, n2),
{
    ((n1 as u16 + 256 - n2 as u16) % 256) as u8
}

/// The byte stored at `addr`.
pub open spec fn byte_at(m: Seq<u8>, addr: u16) -> u8 {
    m[addr as int]
}

/// The little-endian word at `addr`: low byte at `addr`, high byte at
/// `addr + 1` (the increment wraps modulo 2^16).
pub open spec fn word_at(m: Seq<u8>, addr: u16) -> u16 {
    (byte_at(m, wrap_add16(addr, 1)) as u16 * 256 + byte_at(m, addr) as u16) as u16
}

/// The little-endian word whose low byte sits at zero-page address `zp` and
/// whose high byte sits at `(zp + 1) mod 256`, still inside the zero page.
pub open spec fn zp_word_at(m: Seq<u8>, zp: u8) -> u16 {
    (byte_at(m, wrap_add8(zp, 1) as u16) as u16 * 256 + byte_at(m, zp as u16) as u16) as u16
}

/// The page (high byte) of an address; two addresses on different pages
/// trigger the one-cycle page-cross penalty on indexed reads.
pub open spec fn page_of(addr: u16) -> u16 {
    addr / 256
}

/// The addressing modes of the documented 6502 instruction set.
#[derive(PartialEq, Eq, Structural, Clone, Copy, Debug, Hash)]
pub enum AddressingMode {
    Implied,
    Accumulator,
    Immediate,
    ZeroPage,
    ZeroPageX,
    ZeroPageY,
    Absolute,
    AbsoluteX,
    AbsoluteY,
    IndirectX,
    IndirectY,
    Indirect,
    Relative,
}

/// Effective address of a zero-page operand: the byte after the opcode,
/// zero-extended to sixteen bits.
pub open spec fn ea_zero_page(m: Seq<u8>, pc: u16) -> u16 {
    byte_at(m, pc) as u16
}

/// Effective address of an indexed zero-page operand: the operand byte plus
/// the index register, wrapping inside the zero page.
pub open spec fn ea_zero_page_idx(m: Seq<u8>, pc: u16, idx: u8) -> u16 {
    wrap_add8(byte_at(m, pc), idx) as u16
}

/// Effective address of an absolute operand: the little-endian word after
/// the opcode.
pub open spec fn ea_absolute(m: Seq<u8>, pc: u16) -> u16 {
    word_at(m, pc)
}

/// Effective address of an indexed absolute operand: base word plus index,
/// wrapping modulo 2^16.
pub open spec fn ea_absolute_idx(m: Seq<u8>, pc: u16, idx: u8) -> u16 {
    wrap_add16(word_at(m, pc), idx as u16)
}

/// Whether an indexed absolute access crosses a page: the base and the sum
/// differ in their high byte.
pub open spec fn crossed_absolute_idx(m: Seq<u8>, pc: u16, idx: u8) -> bool {
    page_of(word_at(m, pc)) != page_of(ea_absolute_idx(m, pc, idx))
}

/// Effective address of a pre-indexed indirect operand: the operand byte
/// plus `X` selects a zero-page pointer, read with zero-page wrap.
pub open spec fn ea_indirect_x(m: Seq<u8>, pc: u16, x: u8) -> u16 {
    zp_word_at(m, wrap_add8(byte_at(m, pc), x))
}

/// Base pointer of a post-indexed indirect operand, read zero-page-wrapped
/// from the zero-page address named by the operand byte.
pub open spec fn indirect_y_base(m: Seq<u8>, pc: u16) -> u16 {
    zp_word_at(m, byte_at(m, pc))
}

/// Effective address of a post-indexed indirect operand: base pointer plus
/// `Y`, wrapping modulo 2^16.
pub open spec fn ea_indirect_y(m: Seq<u8>, pc: u16, y: u8) -> u16 {
    wrap_add16(indirect_y_base(m, pc), y as u16)
}

/// Whether adding `Y` to the base pointer crosses a page.
pub open spec fn crossed_indirect_y(m: Seq<u8>, pc: u16, y: u8) -> bool {
    page_of(indirect_y_base(m, pc)) != page_of(ea_indirect_y(m, pc, y))
}

/// How many operand bytes follow the opcode in each addressing mode.
pub open spec fn operand_bytes(mode: AddressingMode) -> u16 {
    match mode {
        AddressingMode::Implied => 0,
        AddressingMode::Accumulator => 0,
        AddressingMode::Absolute => 2,
        AddressingMode::AbsoluteX => 2,
        AddressingMode::AbsoluteY => 2,
        AddressingMode::Indirect => 2,
        _ => 1,
    }
}

/// The modes under which an instruction reads a byte operand.
pub open spec fn is_read_mode(mode: AddressingMode) -> bool {
    matches!(
        mode,
        AddressingMode::Immediate | AddressingMode::ZeroPage | AddressingMode::ZeroPageX
            | AddressingMode::ZeroPageY | AddressingMode::Absolute | AddressingMode::AbsoluteX
            | AddressingMode::AbsoluteY | AddressingMode::IndirectX | AddressingMode::IndirectY,
    )
}

/// The modes under which an instruction writes to memory.
pub open spec fn is_write_mode(mode: AddressingMode) -> bool {
    matches!(
        mode,
        AddressingMode::ZeroPage | AddressingMode::ZeroPageX | AddressingMode::ZeroPageY
            | AddressingMode::Absolute | AddressingMode::AbsoluteX | AddressingMode::AbsoluteY
            | AddressingMode::IndirectX | AddressingMode::IndirectY,
    )
}

/// The effective address an instruction at `pc` (one byte past the opcode)
/// touches, for every mode that names a memory cell.  `idx` is the index
/// register the opcode calls for (`X` or `Y`).
pub open spec fn operand_addr(m: Seq<u8>, pc: u16, idx: u8, mode: AddressingMode) -> u16 {
    match mode {
        AddressingMode::ZeroPage => ea_zero_page(m, pc),
        AddressingMode::ZeroPageX => ea_zero_page_idx(m, pc, idx),
        AddressingMode::ZeroPageY => ea_zero_page_idx(m, pc, idx),
        AddressingMode::Absolute => ea_absolute(m, pc),
        AddressingMode::AbsoluteX => ea_absolute_idx(m, pc, idx),
        AddressingMode::AbsoluteY => ea_absolute_idx(m, pc, idx),
        AddressingMode::IndirectX => ea_indirect_x(m, pc, idx),
        AddressingMode::IndirectY => ea_indirect_y(m, pc, idx),
        _ => 0,
    }
}

/// The byte operand an instruction at `pc` reads under `mode`.
pub open spec fn operand_value(m: Seq<u8>, pc: u16, idx: u8, mode: AddressingMode) -> u8 {
    if mode == AddressingMode::Immediate {
        byte_at(m, pc)
    } else {
        byte_at(m, operand_addr(m, pc, idx, mode))
    }
}

/// Whether fetching the operand crosses a page boundary (the one-cycle
/// penalty on indexed reads).
pub open spec fn operand_crossed(m: Seq<u8>, pc: u16, idx: u8, mode: AddressingMode) -> bool {
    match mode {
        AddressingMode::AbsoluteX => crossed_absolute_idx(m, pc, idx),
        AddressingMode::AbsoluteY => crossed_absolute_idx(m, pc, idx),
        AddressingMode::IndirectY => crossed_indirect_y(m, pc, idx),
        _ => false,
    }
}

/// A 64 KiB byte-addressable memory image.
#[derive(Clone, Copy)]
pub struct Memory {
    pub(crate) ram: [u8; 0x10000],
}

impl View for Memory {
    type V = Seq<u8>;

    closed spec fn view(&self) -> Seq<u8> {
        self.ram@
    }
}

/// Every memory image covers the full 16-bit address space.
pub broadcast proof fn lemma_memory_len(m: &Memory)
    ensures
        (#[trigger] m@).len() == 0x10000,
{
}

impl Memory {
    /// The byte at `addr`.
    pub fn read_byte(&self, addr: u16) -> (value: u8)
        ensures
            value == byte_at(self@, addr),
    {
        self.ram[addr as usize]
    }

    /// Stores `value` at `addr`; no other byte changes.
    pub fn write_byte(&mut self, addr: u16, value: u8)
        ensures
            final(self)@ == old(self)@.update(addr as int, value),
    {
        self.ram[addr as usize] = value;
    }

    /// The little-endian word at `addr` (high byte read at `addr + 1`,
    /// wrapping modulo 2^16).
    pub fn read_word(&self, addr: u16) -> (value: u16)
        ensures
            value == word_at(self@, addr),
    {
        let lo = self.read_byte(addr);
        let hi = self.read_byte(add_mod_65536(addr, 1));
        hi as u16 * 256 + lo as u16
    }

    /// Stores `value` little-endian at `addr` and `addr + 1` (wrapping).
    pub fn write_word(&mut self, addr: u16, value: u16)
        ensures
            final(self)@ == old(self)@.update(addr as int, (value % 256) as u8).update(
                wrap_add16(addr, 1) as int,
                (value / 256) as u8,
            ),
    {
        self.write_byte(addr, (value % 256) as u8);
        let hi_addr = add_mod_65536(addr, 1);
        self.write_byte(hi_addr, (value / 256) as u8);
    }

    /// Reads the byte at `pc` and advances `pc` past it.
    pub fn read_immediate(&self, pc: &mut u16) -> (value: u8)
        ensures
            *final(pc) == wrap_add16(*old(pc), 1),
            value == byte_at(self@, *old(pc)),
    {
        let value = self.read_byte(*pc);
        *pc = add_mod_65536(*pc, 1);
        value
    }

    /// The word whose low byte sits at zero-page address `zp`, with the high
    /// byte read at `(zp + 1) mod 256`: pointer fetches never leave the zero
    /// page.
    pub fn read_zp_word(&self, zp: u8) -> (value: u16)
        ensures
            value == zp_word_at(self@, zp),
    {
        let lo = self.read_byte(zp as u16);
        let hi = self.read_byte(add_mod_256(zp, 1) as u16);
        hi as u16 * 256 + lo as u16
    }

    /// Stores `value` at the zero-page address named by the operand byte and
    /// advances `pc` past the operand.
    pub fn write_zero_page(&mut self, pc: &mut u16, value: u8)
        ensures
            *final(pc) == wrap_add16(*old(pc), 1),
            final(self)@ == old(self)@.update(ea_zero_page(old(self)@, *old(pc)) as int, value),
    {
        let addr = self.read_byte(*pc);
        self.write_byte(addr as u16, value);
        *pc = add_mod_65536(*pc, 1);
    }

    /// Stores `value` at the operand byte plus `x`, wrapping inside the zero
    /// page, and advances `pc` past the operand.
    pub fn write_zero_page_x(&mut self, pc: &mut u16, x: u8, value: u8)
        ensures
            *final(pc) == wrap_add16(*old(pc), 1),
            final(self)@ == old(self)@.update(
                ea_zero_page_idx(old(self)@, *old(pc), x) as int,
                value,
            ),
    {
        let addr = self.read_byte(*pc);
        let addr_final = add_mod_256(addr, x);
        self.write_byte(addr_final as u16, value);
        *pc = add_mod_65536(*pc, 1);
    }

    /// Stores `value` at the absolute address in the operand word and
    /// advances `pc` past the two operand bytes.
    pub fn write_absolute(&mut self, pc: &mut u16, value: u8)
        ensures
            *final(pc) == wrap_add16(*old(pc), 2),
            final(self)@ == old(self)@.update(ea_absolute(old(self)@, *old(pc)) as int, value),
    {
        let addr = self.read_word(*pc);
        self.write_byte(addr, value);
        *pc = add_mod_65536(*pc, 2);
    }

    /// Stores `value` at the operand word plus `x` (wrapping modulo 2^16)
    /// and advances `pc` past the two operand bytes.
    pub fn write_absolute_x(&mut self, pc: &mut u16, x: u8, value: u8)
        ensures
            *final(pc) == wrap_add16(*old(pc), 2),
            final(self)@ == old(self)@.update(
                ea_absolute_idx(old(self)@, *old(pc), x) as int,
                value,
            ),
    {
        let addr = self.read_word(*pc);
        let addr_final = add_mod_65536(addr, x as u16);
        self.write_byte(addr_final, value);
        *pc = add_mod_65536(*pc, 2);
    }

    /// Stores `value` through the pre-indexed zero-page pointer named by the
    /// operand byte plus `x` and advances `pc` past the operand.
    pub fn write_indirect_x(&mut self, pc: &mut u16, x: u8, value: u8)
        ensures
            *final(pc) == wrap_add16(*old(pc), 1),
            final(self)@ == old(self)@.update(
                ea_indirect_x(old(self)@, *old(pc), x) as int,
                value,
            ),
    {
        let addr = self.read_byte(*pc);
        let addr_zp = add_mod_256(addr, x);
        let addr_final = self.read_zp_word(addr_zp);
        self.write_byte(addr_final, value);
        *pc = add_mod_65536(*pc, 1);
    }

    /// Stores `value` through the post-indexed zero-page pointer (pointer
    /// plus `y`, wrapping modulo 2^16) and advances `pc` past the operand.
    pub fn write_indirect_y(&mut self, pc: &mut u16, y: u8, value: u8)
        ensures
            *final(pc) == wrap_add16(*old(pc), 1),
            final(self)@ == old(self)@.update(
                ea_indirect_y(old(self)@, *old(pc), y) as int,
                value,
            ),
    {
        let addr = self.read_byte(*pc);
        let addr_on_zp = self.read_zp_word(addr);
        let addr_final = add_mod_65536(addr_on_zp, y as u16);
        self.write_byte(addr_final, value);
        *pc = add_mod_65536(*pc, 1);
    }
}

/// Typed access to a memory image: direct reads and writes plus one reader
/// per addressing mode, each advancing the program counter past the operand
/// it consumes.  Implementations exist for `u8` (byte operands) and `u16`
/// (little-endian word operands).
pub trait MemoryLike<T>: View<V = Seq<u8>> {
    /// The `T`-typed value this implementation reads at `addr`.
    spec fn value_at(&self, addr: u16) -> T;

    /// The `T`-typed value read at zero-page address `zp`, where multi-byte
    /// values wrap inside the zero page.
    spec fn value_at_zp(&self, zp: u8) -> T;

    /// The memory image after storing `value` at `addr`.
    spec fn stored(&self, addr: u16, value: T) -> Seq<u8>;

    fn read(&self, addr: u16) -> (value: T)
        ensures
            value == self.value_at(addr),
    ;

    fn write(&mut self, addr: u16, value: T)
        ensures
            final(self)@ == old(self).stored(addr, value),
    ;

    fn read_zero_page(&self, pc: &mut u16) -> (value: T)
        ensures
            *final(pc) == wrap_add16(*old(pc), 1),
            value == self.value_at_zp(byte_at(self@, *old(pc))),
    ;

    fn read_zero_page_x(&self, pc: &mut u16, x: u8) -> (value: T)
        ensures
            *final(pc) == wrap_add16(*old(pc), 1),
            value == self.value_at_zp(wrap_add8(byte_at(self@, *old(pc)), x)),
    ;

    fn read_absolute(&self, pc: &mut u16) -> (value: T)
        ensures
            *final(pc) == wrap_add16(*old(pc), 2),
            value == self.value_at(ea_absolute(self@, *old(pc))),
    ;

    fn read_absolute_x(&self, pc: &mut u16, x: u8) -> (value: T)
        ensures
            *final(pc) == wrap_add16(*old(pc), 2),
            value == self.value_at(ea_absolute_idx(self@, *old(pc), x)),
    ;

    fn read_absolute_x_check_crossing(&self, pc: &mut u16, x: u8, page_crossed: &mut bool) -> (value: T)
        ensures
            *final(pc) == wrap_add16(*old(pc), 2),
            value == self.value_at(ea_absolute_idx(self@, *old(pc), x)),
            *final(page_crossed) == crossed_absolute_idx(self@, *old(pc), x),
    ;

    fn read_indirect_x(&self, pc: &mut u16, x: u8) -> (value: T)
        ensures
            *final(pc) == wrap_add16(*old(pc), 1),
            value == self.value_at(ea_indirect_x(self@, *old(pc), x)),
    ;

    fn read_indirect_y(&self, pc: &mut u16, y: u8) -> (value: T)
        ensures
            *final(pc) == wrap_add16(*old(pc), 1),
            value == self.value_at(ea_indirect_y(self@, *old(pc), y)),
    ;

    fn read_indirect_y_check_crossing(&self, pc: &mut u16, y: u8, page_crossed: &mut bool) -> (value: T)
        ensures
            *final(pc) == wrap_add16(*old(pc), 1),
            value == self.value_at(ea_indirect_y(self@, *old(pc), y)),
            *final(page_crossed) == crossed_indirect_y(self@, *old(pc), y),
    ;
}

impl MemoryLike<u8> for Memory {
    open spec fn value_at(&self, addr: u16) -> u8 {
        byte_at(self@, addr)
    }

    open spec fn value_at_zp(&self, zp: u8) -> u8 {
        byte_at(self@, zp as u16)
    }

    open spec fn stored(&self, addr: u16, value: u8) -> Seq<u8> {
        self@.update(addr as int, value)
    }

    fn read(&self, addr: u16) -> (value: u8) {
        self.read_byte(addr)
    }

    fn write(&mut self, addr: u16, value: u8) {
        self.write_byte(addr, value);
    }

    fn read_zero_page(&self, pc: &mut u16) -> (value: u8) {
        let addr_zp = self.read_byte(*pc);
        let value = self.read_byte(addr_zp as u16);
        *pc = add_mod_65536(*pc, 1);
        value
    }

    fn read_zero_page_x(&self, pc: &mut u16, x: u8) -> (value: u8) {
        let addr_zp = self.read_byte(*pc);
        let addr_final = add_mod_256(addr_zp, x);
        let value = self.read_byte(addr_final as u16);
        *pc = add_mod_65536(*pc, 1);
        value
    }

    fn read_absolute(&self, pc: &mut u16) -> (value: u8) {
        let addr = self.read_word(*pc);
        let value = self.read_byte(addr);
        *pc = add_mod_65536(*pc, 2);
        value
    }

    fn read_absolute_x(&self, pc: &mut u16, x: u8) -> (value: u8) {
        let addr = self.read_word(*pc);
        let addr_final = add_mod_65536(addr, x as u16);
        let value = self.read_byte(addr_final);
        *pc = add_mod_65536(*pc, 2);
        value
    }

    fn read_absolute_x_check_crossing(&self, pc: &mut u16, x: u8, page_crossed: &mut bool) -> (value: u8) {
        let addr = self.read_word(*pc);
        let addr_final = add_mod_65536(addr, x as u16);
        let value = self.read_byte(addr_final);
        *pc = add_mod_65536(*pc, 2);
        *page_crossed = addr / 256 != addr_final / 256;
        value
    }

    fn read_indirect_x(&self, pc: &mut u16, x: u8) -> (value: u8) {
        let addr = self.read_byte(*pc);
        let addr_zp = add_mod_256(addr, x);
        let addr_final = self.read_zp_word(addr_zp);
        let value = self.read_byte(addr_final);
        *pc = add_mod_65536(*pc, 1);
        value
    }

    fn read_indirect_y(&self, pc: &mut u16, y: u8) -> (value: u8) {
        let addr = self.read_byte(*pc);
        let addr_on_zp = self.read_zp_word(addr);
        let addr_final = add_mod_65536(addr_on_zp, y as u16);
        let value = self.read_byte(addr_final);
        *pc = add_mod_65536(*pc, 1);
        value
    }

    fn read_indirect_y_check_crossing(&self, pc: &mut u16, y: u8, page_crossed: &mut bool) -> (value: u8) {
        let addr = self.read_byte(*pc);
        let addr_on_zp = self.read_zp_word(addr);
        let addr_final = add_mod_65536(addr_on_zp, y as u16);
        let value = self.read_byte(addr_final);
        *pc = add_mod_65536(*pc, 1);
        *page_crossed = addr_on_zp / 256 != addr_final / 256;
        value
    }
}

impl MemoryLike<u16> for Memory {
    open spec fn value_at(&self, addr: u16) -> u16 {
        word_at(self@, addr)
    }

    open spec fn value_at_zp(&self, zp: u8) -> u16 {
        zp_word_at(self@, zp)
    }

    open spec fn stored(&self, addr: u16, value: u16) -> Seq<u8> {
        self@.update(addr as int, (value % 256) as u8).update(
            wrap_add16(addr, 1) as int,
            (value / 256) as u8,
        )
    }

    fn read(&self, addr: u16) -> (value: u16) {
        self.read_word(addr)
    }

    fn write(&mut self, addr: u16, value: u16) {
        self.write_word(addr, value);
    }

    fn read_zero_page(&self, pc: &mut u16) -> (value: u16) {
        let addr_zp = self.read_byte(*pc);
        let value = self.read_zp_word(addr_zp);
        *pc = add_mod_65536(*pc, 1);
        value
    }

    fn read_zero_page_x(&self, pc: &mut u16, x: u8) -> (value: u16) {
        let addr_zp = self.read_byte(*pc);
        let addr_final = add_mod_256(addr_zp, x);
        let value = self.read_zp_word(addr_final);
        *pc = add_mod_65536(*pc, 1);
        value
    }

    fn read_absolute(&self, pc: &mut u16) -> (value: u16) {
        let addr = self.read_word(*pc);
        let value = self.read_word(addr);
        *pc = add_mod_65536(*pc, 2);
        value
    }

    fn read_absolute_x(&self, pc: &mut u16, x: u8) -> (value: u16) {
        let addr = self.read_word(*pc);
        let addr_final = add_mod_65536(addr, x as u16);
        let value = self.read_word(addr_final);
        *pc = add_mod_65536(*pc, 2);
        value
    }

    fn read_absolute_x_check_crossing(&self, pc: &mut u16, x: u8, page_crossed: &mut bool) -> (value: u16) {
        let addr = self.read_word(*pc);
        let addr_final = add_mod_65536(addr, x as u16);
        let value = self.read_word(addr_final);
        *pc = add_mod_65536(*pc, 2);
        *page_crossed = addr / 256 != addr_final / 256;
        value
    }

    fn read_indirect_x(&self, pc: &mut u16, x: u8) -> (value: u16) {
        let addr = self.read_byte(*pc);
        let addr_zp = add_mod_256(addr, x);
        let addr_final = self.read_zp_word(addr_zp);
        let value = self.read_word(addr_final);
        *pc = add_mod_65536(*pc, 1);
        value
    }

    fn read_indirect_y(&self, pc: &mut u16, y: u8) -> (value: u16) {
        let addr = self.read_byte(*pc);
        let addr_on_zp = self.read_zp_word(addr);
        let addr_final = add_mod_65536(addr_on_zp, y as u16);
        let value = self.read_word(addr_final);
        *pc = add_mod_65536(*pc, 1);
        value
    }

    fn read_indirect_y_check_crossing(&self, pc: &mut u16, y: u8, page_crossed: &mut bool) -> (value: u16) {
        let addr = self.read_byte(*pc);
        let addr_on_zp = self.read_zp_word(addr);
        let addr_final = add_mod_65536(addr_on_zp, y as u16);
        let value = self.read_word(addr_final);
        *pc = add_mod_65536(*pc, 1);
        *page_crossed = addr_on_zp / 256 != addr_final / 256;
        value
    }
}

impl Default for Memory {
    /// A memory image with every byte zero.
    fn default() -> (r: Self)
        ensures
            r@.len() == 0x10000,
            forall|i: int| 0 <= i < 0x10000 ==> r@[i] == 0u8,
    {
        Memory { ram: [0u8; 0x10000] }
    }
}

} // verus!
