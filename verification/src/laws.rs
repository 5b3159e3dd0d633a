//! The laws of the engine, proved once and for all against the functional
//! model: decode/encode round-trips, flag preservation, program-counter
//! advance, cycle monotonicity, the `JSR`/`RTS` stack discipline and the
//! load/store round trip.

use crate::cpu::{
    flag, status_nz, with_flag, CpuState, Register, FLAG_C, FLAG_N, FLAG_V, FLAG_Z,
};
use crate::instruction::{instr_len, instr_mode, spec_decode, spec_encode, Instruction};
use crate::memory::{
    byte_at, operand_crossed, page_of, wrap_add16, wrap_add8, wrap_sub8, word_at,
    AddressingMode,
};
use crate::model::{
    branch_target, penalty, read_cycles, rmw_cycles, spec_step, stack_addr, store_cycles,
};
use vstd::arithmetic::div_mod::{lemma_add_mod_noop_right, lemma_small_mod};
use vstd::prelude::*;

verus! {

/// The instructions that replace the program counter outright.
pub open spec fn is_jump(i: Instruction) -> bool {
    matches!(
        i,
        Instruction::JMP_ABS | Instruction::JMP_IN | Instruction::JSR_ABS | Instruction::RTS_IM,
    )
}

/// The conditional branches.
pub open spec fn is_branch(i: Instruction) -> bool {
    matches!(
        i,
        Instruction::BCC | Instruction::BCS | Instruction::BEQ | Instruction::BNE
            | Instruction::BMI | Instruction::BPL | Instruction::BVC | Instruction::BVS,
    )
}

/// The status bit a branch tests.
pub open spec fn branch_flag(i: Instruction) -> u8 {
    match i {
        Instruction::BCC => FLAG_C,
        Instruction::BCS => FLAG_C,
        Instruction::BEQ => FLAG_Z,
        Instruction::BNE => FLAG_Z,
        Instruction::BMI => FLAG_N,
        Instruction::BPL => FLAG_N,
        Instruction::BVC => FLAG_V,
        Instruction::BVS => FLAG_V,
        _ => 0,
    }
}

/// The value of that bit on which the branch is taken.
pub open spec fn branch_want(i: Instruction) -> bool {
    matches!(i, Instruction::BCS | Instruction::BEQ | Instruction::BMI | Instruction::BVS)
}

/// Whether the instruction at `PC` is a branch whose condition holds.
pub open spec fn branch_taken(s: CpuState, m: Seq<u8>) -> bool {
    let i = spec_decode(byte_at(m, s.pc));
    is_branch(i) && flag(s.status, branch_flag(i)) == branch_want(i)
}

/// Which status bits instruction `i` may write.  Every bit not named here
/// is proved unchanged by `lemma_step_preserves_unwritten_flags`.
pub open spec fn writes_flag(i: Instruction, f: u8) -> bool {
    match i {
        Instruction::LDA_IM | Instruction::LDA_ZP | Instruction::LDA_ZP_X |
        Instruction::LDA_ABS | Instruction::LDA_ABS_X | Instruction::LDA_ABS_Y |
        Instruction::LDA_IN_X | Instruction::LDA_IN_Y | Instruction::LDX_IM |
        Instruction::LDX_ZP | Instruction::LDX_ZP_Y | Instruction::LDX_ABS |
        Instruction::LDX_ABS_Y | Instruction::LDY_IM | Instruction::LDY_ZP |
        Instruction::LDY_ZP_X | Instruction::LDY_ABS | Instruction::LDY_ABS_X |
        Instruction::TAX | Instruction::TAY | Instruction::TXA | Instruction::TYA |
        Instruction::TSX | Instruction::PLA | Instruction::AND_IM | Instruction::AND_ZP |
        Instruction::AND_ZP_X | Instruction::AND_ABS | Instruction::AND_ABS_X |
        Instruction::AND_ABS_Y | Instruction::AND_IN_X | Instruction::AND_IN_Y |
        Instruction::EOR_IM | Instruction::EOR_ZP | Instruction::EOR_ZP_X |
        Instruction::EOR_ABS | Instruction::EOR_ABS_X | Instruction::EOR_ABS_Y |
        Instruction::EOR_IN_X | Instruction::EOR_IN_Y | Instruction::ORA_IM |
        Instruction::ORA_ZP | Instruction::ORA_ZP_X | Instruction::ORA_ABS |
        Instruction::ORA_ABS_X | Instruction::ORA_ABS_Y | Instruction::ORA_IN_X |
        Instruction::ORA_IN_Y | Instruction::INC_ZP | Instruction::INC_ZP_X |
        Instruction::INC_ABS | Instruction::INC_ABS_X | Instruction::INX | Instruction::INY |
        Instruction::DEC_ZP | Instruction::DEC_ZP_X | Instruction::DEC_ABS |
        Instruction::DEC_ABS_X | Instruction::DEX | Instruction::DEY => f == FLAG_Z || f == FLAG_N,
        Instruction::BIT_ZP | Instruction::BIT_ABS => f == FLAG_Z || f == FLAG_V || f == FLAG_N,
        Instruction::ADC_IM | Instruction::ADC_ZP | Instruction::ADC_ZP_X |
        Instruction::ADC_ABS | Instruction::ADC_ABS_X | Instruction::ADC_ABS_Y |
        Instruction::ADC_IN_X | Instruction::ADC_IN_Y | Instruction::SBC_IM |
        Instruction::SBC_ZP | Instruction::SBC_ZP_X | Instruction::SBC_ABS |
        Instruction::SBC_ABS_X | Instruction::SBC_ABS_Y | Instruction::SBC_IN_X |
        Instruction::SBC_IN_Y => f == FLAG_Z || f == FLAG_N || f == FLAG_C || f == FLAG_V,
        Instruction::CMP_IM | Instruction::CMP_ZP | Instruction::CMP_ZP_X |
        Instruction::CMP_ABS | Instruction::CMP_ABS_X | Instruction::CMP_ABS_Y |
        Instruction::CMP_IN_X | Instruction::CMP_IN_Y | Instruction::CPX_IM |
        Instruction::CPX_ZP | Instruction::CPX_ABS | Instruction::CPY_IM |
        Instruction::CPY_ZP | Instruction::CPY_ABS | Instruction::ASL_A | Instruction::ASL_ZP |
        Instruction::ASL_ZP_X | Instruction::ASL_ABS | Instruction::ASL_ABS_X |
        Instruction::LSR_A | Instruction::LSR_ZP | Instruction::LSR_ZP_X |
        Instruction::LSR_ABS | Instruction::LSR_ABS_X | Instruction::ROL_A |
        Instruction::ROL_ZP | Instruction::ROL_ZP_X | Instruction::ROL_ABS |
        Instruction::ROL_ABS_X | Instruction::ROR_A | Instruction::ROR_ZP |
        Instruction::ROR_ZP_X | Instruction::ROR_ABS | Instruction::ROR_ABS_X => f == FLAG_Z || f == FLAG_N || f == FLAG_C,
        Instruction::PLP => true,
        _ => false,
    }
}

/// After `reset`, every register, the program counter, the cycle counter
/// and every status flag read back as zero.
pub proof fn lemma_reset_reads_zero()
    ensures
        CpuState::zeroed().a == 0,
        CpuState::zeroed().x == 0,
        CpuState::zeroed().y == 0,
        CpuState::zeroed().sp == 0,
        CpuState::zeroed().pc == 0,
        CpuState::zeroed().cycles == 0,
        CpuState::zeroed().status == 0,
        forall|f: u8| f < 8 ==> !flag(CpuState::zeroed().status, f),
{
    assert forall|f: u8| f < 8 implies !flag(CpuState::zeroed().status, f) by {
        assert(0u8 & (1u8 << f) == 0) by (bit_vector);
    }
}

/// Decoding and encoding round-trip: every instruction decodes back from
/// its opcode byte, and every opcode byte with a mapping encodes back from
/// its instruction.
pub proof fn lemma_decode_encode_round_trip()
    ensures
        forall|i: Instruction|
            i != Instruction::INVALID ==> #[trigger] spec_decode(spec_encode(i)) == i,
        forall|b: u8|
            spec_decode(b) != Instruction::INVALID ==> #[trigger] spec_encode(spec_decode(b)) == b,
{
}

/// Setting the zero and negative flags from a result leaves every other
/// status bit unchanged.
pub proof fn lemma_status_nz_preserves(p: u8, n: u8, f: u8)
    requires
        f < 8,
        f != FLAG_Z,
        f != FLAG_N,
    ensures
        flag(status_nz(p, n), f) == flag(p, f),
{
    broadcast use crate::cpu::lemma_flag_with_flag;
}


/// Flag preservation of the four status-update shapes the handlers use:
/// whatever bits an update names, every other bit is kept.
proof fn lemma_status_update_shapes()
    ensures
        forall|p: u8, n: u8, f: u8|
            f < 8 && f != FLAG_Z && f != FLAG_N ==> #[trigger] flag(status_nz(p, n), f) == flag(
                p,
                f,
            ),
        forall|p: u8, z: bool, vv: bool, nn: bool, f: u8|
            f < 8 && f != FLAG_Z && f != FLAG_V && f != FLAG_N ==> #[trigger] flag(
                with_flag(with_flag(with_flag(p, FLAG_Z, z), FLAG_V, vv), FLAG_N, nn),
                f,
            ) == flag(p, f),
        forall|p: u8, n: u8, cc: bool, vv: bool, f: u8|
            f < 8 && f != FLAG_Z && f != FLAG_N && f != FLAG_C && f != FLAG_V ==> #[trigger] flag(
                with_flag(with_flag(status_nz(p, n), FLAG_C, cc), FLAG_V, vv),
                f,
            ) == flag(p, f),
        forall|p: u8, z: bool, nn: bool, cc: bool, f: u8|
            f < 8 && f != FLAG_Z && f != FLAG_N && f != FLAG_C ==> #[trigger] flag(
                with_flag(with_flag(with_flag(p, FLAG_Z, z), FLAG_N, nn), FLAG_C, cc),
                f,
            ) == flag(p, f),
        forall|p: u8, n: u8, cc: bool, f: u8|
            f < 8 && f != FLAG_Z && f != FLAG_N && f != FLAG_C ==> #[trigger] flag(
                status_nz(with_flag(p, FLAG_C, cc), n),
                f,
            ) == flag(p, f),
{
    broadcast use crate::cpu::lemma_flag_with_flag;
}

/// An instruction that does not write a status bit leaves it unchanged
/// across a step.  In particular the interrupt-disable, decimal and break
/// bits survive everything but `PLP`.
#[verifier::rlimit(100)]
#[verifier::spinoff_prover]
pub proof fn lemma_step_preserves_unwritten_flags(s: CpuState, m: Seq<u8>, f: u8)
    requires
        f < 8,
        !writes_flag(spec_decode(byte_at(m, s.pc)), f),
    ensures
        flag(spec_step(s, m).0.status, f) == flag(s.status, f),
{
    lemma_status_update_shapes();
    let i = spec_decode(byte_at(m, s.pc));
    match i {
        Instruction::LDA_IM | Instruction::LDA_ZP | Instruction::LDA_ZP_X |
        Instruction::LDA_ABS | Instruction::LDA_ABS_X | Instruction::LDA_ABS_Y |
        Instruction::LDA_IN_X | Instruction::LDA_IN_Y | Instruction::LDX_IM |
        Instruction::LDX_ZP | Instruction::LDX_ZP_Y | Instruction::LDX_ABS |
        Instruction::LDX_ABS_Y | Instruction::LDY_IM | Instruction::LDY_ZP |
        Instruction::LDY_ZP_X | Instruction::LDY_ABS | Instruction::LDY_ABS_X => {
            assert(flag(spec_step(s, m).0.status, f) == flag(s.status, f));
        },
        Instruction::STA_ZP | Instruction::STA_ZP_X | Instruction::STA_ABS |
        Instruction::STA_ABS_X | Instruction::STA_ABS_Y | Instruction::STA_IN_X |
        Instruction::STA_IN_Y | Instruction::STX_ZP | Instruction::STX_ZP_Y |
        Instruction::STX_ABS | Instruction::STY_ZP | Instruction::STY_ZP_X |
        Instruction::STY_ABS => {
            assert(flag(spec_step(s, m).0.status, f) == flag(s.status, f));
        },
        Instruction::TAX | Instruction::TAY | Instruction::TXA | Instruction::TYA |
        Instruction::TSX | Instruction::TXS => {
            assert(flag(spec_step(s, m).0.status, f) == flag(s.status, f));
        },
        Instruction::PHA | Instruction::PHP => {
            assert(flag(spec_step(s, m).0.status, f) == flag(s.status, f));
        },
        Instruction::PLA | Instruction::PLP => {
            assert(flag(spec_step(s, m).0.status, f) == flag(s.status, f));
        },
        Instruction::AND_IM | Instruction::AND_ZP | Instruction::AND_ZP_X |
        Instruction::AND_ABS | Instruction::AND_ABS_X | Instruction::AND_ABS_Y |
        Instruction::AND_IN_X | Instruction::AND_IN_Y | Instruction::EOR_IM |
        Instruction::EOR_ZP | Instruction::EOR_ZP_X | Instruction::EOR_ABS |
        Instruction::EOR_ABS_X | Instruction::EOR_ABS_Y | Instruction::EOR_IN_X |
        Instruction::EOR_IN_Y | Instruction::ORA_IM | Instruction::ORA_ZP |
        Instruction::ORA_ZP_X | Instruction::ORA_ABS | Instruction::ORA_ABS_X |
        Instruction::ORA_ABS_Y | Instruction::ORA_IN_X | Instruction::ORA_IN_Y => {
            assert(flag(spec_step(s, m).0.status, f) == flag(s.status, f));
        },
        Instruction::BIT_ZP | Instruction::BIT_ABS => {
            assert(flag(spec_step(s, m).0.status, f) == flag(s.status, f));
        },
        Instruction::ADC_IM | Instruction::ADC_ZP | Instruction::ADC_ZP_X |
        Instruction::ADC_ABS | Instruction::ADC_ABS_X | Instruction::ADC_ABS_Y |
        Instruction::ADC_IN_X | Instruction::ADC_IN_Y => {
            assert(flag(spec_step(s, m).0.status, f) == flag(s.status, f));
        },
        Instruction::SBC_IM | Instruction::SBC_ZP | Instruction::SBC_ZP_X |
        Instruction::SBC_ABS | Instruction::SBC_ABS_X | Instruction::SBC_ABS_Y |
        Instruction::SBC_IN_X | Instruction::SBC_IN_Y => {
            assert(flag(spec_step(s, m).0.status, f) == flag(s.status, f));
        },
        Instruction::CMP_IM | Instruction::CMP_ZP | Instruction::CMP_ZP_X |
        Instruction::CMP_ABS | Instruction::CMP_ABS_X | Instruction::CMP_ABS_Y |
        Instruction::CMP_IN_X | Instruction::CMP_IN_Y | Instruction::CPX_IM |
        Instruction::CPX_ZP | Instruction::CPX_ABS | Instruction::CPY_IM |
        Instruction::CPY_ZP | Instruction::CPY_ABS => {
            assert(flag(spec_step(s, m).0.status, f) == flag(s.status, f));
        },
        Instruction::INC_ZP | Instruction::INC_ZP_X | Instruction::INC_ABS |
        Instruction::INC_ABS_X | Instruction::INX | Instruction::INY | Instruction::DEC_ZP |
        Instruction::DEC_ZP_X | Instruction::DEC_ABS | Instruction::DEC_ABS_X |
        Instruction::DEX | Instruction::DEY => {
            assert(flag(spec_step(s, m).0.status, f) == flag(s.status, f));
        },
        Instruction::ASL_A | Instruction::ASL_ZP | Instruction::ASL_ZP_X |
        Instruction::ASL_ABS | Instruction::ASL_ABS_X | Instruction::LSR_A |
        Instruction::LSR_ZP | Instruction::LSR_ZP_X | Instruction::LSR_ABS |
        Instruction::LSR_ABS_X | Instruction::ROL_A | Instruction::ROL_ZP |
        Instruction::ROL_ZP_X | Instruction::ROL_ABS | Instruction::ROL_ABS_X |
        Instruction::ROR_A | Instruction::ROR_ZP | Instruction::ROR_ZP_X |
        Instruction::ROR_ABS | Instruction::ROR_ABS_X => {
            assert(flag(spec_step(s, m).0.status, f) == flag(s.status, f));
        },
        Instruction::JMP_ABS | Instruction::JMP_IN => {
            assert(flag(spec_step(s, m).0.status, f) == flag(s.status, f));
        },
        Instruction::JSR_ABS => {
            assert(flag(spec_step(s, m).0.status, f) == flag(s.status, f));
        },
        Instruction::RTS_IM => {
            assert(flag(spec_step(s, m).0.status, f) == flag(s.status, f));
        },
        Instruction::BCC | Instruction::BCS | Instruction::BEQ | Instruction::BMI |
        Instruction::BNE | Instruction::BPL | Instruction::BVC | Instruction::BVS => {
            assert(flag(spec_step(s, m).0.status, f) == flag(s.status, f));
        },
        Instruction::INVALID => {
            assert(flag(spec_step(s, m).0.status, f) == flag(s.status, f));
        },
    }
}

/// Composing two wrapped sixteen-bit additions adds the offsets.
pub proof fn lemma_wrap16_chain(a: u16, b: u16, c: u16)
    requires
        b + c < 0x10000,
    ensures
        wrap_add16(wrap_add16(a, b), c) == wrap_add16(a, (b + c) as u16),
{
    lemma_add_mod_noop_right(c as int, a + b, 0x10000);
}

/// Except for jumps, subroutine calls and returns, and taken branches, a
/// step advances the program counter by exactly the instruction's length
/// (one, two or three bytes), wrapping modulo 2^16.
#[verifier::rlimit(100)]
#[verifier::spinoff_prover]
pub proof fn lemma_step_pc_advance(s: CpuState, m: Seq<u8>)
    requires
        !is_jump(spec_decode(byte_at(m, s.pc))),
        !branch_taken(s, m),
    ensures
        spec_step(s, m).0.pc == wrap_add16(s.pc, instr_len(spec_decode(byte_at(m, s.pc)))),
{
    lemma_wrap16_chain(s.pc, 1, 0);
    lemma_wrap16_chain(s.pc, 1, 1);
    lemma_wrap16_chain(s.pc, 1, 2);
    let i = spec_decode(byte_at(m, s.pc));
    match i {
        Instruction::LDA_IM | Instruction::LDA_ZP | Instruction::LDA_ZP_X |
        Instruction::LDA_ABS | Instruction::LDA_ABS_X | Instruction::LDA_ABS_Y |
        Instruction::LDA_IN_X | Instruction::LDA_IN_Y | Instruction::LDX_IM |
        Instruction::LDX_ZP | Instruction::LDX_ZP_Y | Instruction::LDX_ABS |
        Instruction::LDX_ABS_Y | Instruction::LDY_IM | Instruction::LDY_ZP |
        Instruction::LDY_ZP_X | Instruction::LDY_ABS | Instruction::LDY_ABS_X => {
            assert(spec_step(s, m).0.pc == wrap_add16(s.pc, instr_len(i)));
        },
        Instruction::STA_ZP | Instruction::STA_ZP_X | Instruction::STA_ABS |
        Instruction::STA_ABS_X | Instruction::STA_ABS_Y | Instruction::STA_IN_X |
        Instruction::STA_IN_Y | Instruction::STX_ZP | Instruction::STX_ZP_Y |
        Instruction::STX_ABS | Instruction::STY_ZP | Instruction::STY_ZP_X |
        Instruction::STY_ABS => {
            assert(spec_step(s, m).0.pc == wrap_add16(s.pc, instr_len(i)));
        },
        Instruction::TAX | Instruction::TAY | Instruction::TXA | Instruction::TYA |
        Instruction::TSX | Instruction::TXS => {
            assert(spec_step(s, m).0.pc == wrap_add16(s.pc, instr_len(i)));
        },
        Instruction::PHA | Instruction::PHP => {
            assert(spec_step(s, m).0.pc == wrap_add16(s.pc, instr_len(i)));
        },
        Instruction::PLA | Instruction::PLP => {
            assert(spec_step(s, m).0.pc == wrap_add16(s.pc, instr_len(i)));
        },
        Instruction::AND_IM | Instruction::AND_ZP | Instruction::AND_ZP_X |
        Instruction::AND_ABS | Instruction::AND_ABS_X | Instruction::AND_ABS_Y |
        Instruction::AND_IN_X | Instruction::AND_IN_Y | Instruction::EOR_IM |
        Instruction::EOR_ZP | Instruction::EOR_ZP_X | Instruction::EOR_ABS |
        Instruction::EOR_ABS_X | Instruction::EOR_ABS_Y | Instruction::EOR_IN_X |
        Instruction::EOR_IN_Y | Instruction::ORA_IM | Instruction::ORA_ZP |
        Instruction::ORA_ZP_X | Instruction::ORA_ABS | Instruction::ORA_ABS_X |
        Instruction::ORA_ABS_Y | Instruction::ORA_IN_X | Instruction::ORA_IN_Y => {
            assert(spec_step(s, m).0.pc == wrap_add16(s.pc, instr_len(i)));
        },
        Instruction::BIT_ZP | Instruction::BIT_ABS => {
            assert(spec_step(s, m).0.pc == wrap_add16(s.pc, instr_len(i)));
        },
        Instruction::ADC_IM | Instruction::ADC_ZP | Instruction::ADC_ZP_X |
        Instruction::ADC_ABS | Instruction::ADC_ABS_X | Instruction::ADC_ABS_Y |
        Instruction::ADC_IN_X | Instruction::ADC_IN_Y => {
            assert(spec_step(s, m).0.pc == wrap_add16(s.pc, instr_len(i)));
        },
        Instruction::SBC_IM | Instruction::SBC_ZP | Instruction::SBC_ZP_X |
        Instruction::SBC_ABS | Instruction::SBC_ABS_X | Instruction::SBC_ABS_Y |
        Instruction::SBC_IN_X | Instruction::SBC_IN_Y => {
            assert(spec_step(s, m).0.pc == wrap_add16(s.pc, instr_len(i)));
        },
        Instruction::CMP_IM | Instruction::CMP_ZP | Instruction::CMP_ZP_X |
        Instruction::CMP_ABS | Instruction::CMP_ABS_X | Instruction::CMP_ABS_Y |
        Instruction::CMP_IN_X | Instruction::CMP_IN_Y | Instruction::CPX_IM |
        Instruction::CPX_ZP | Instruction::CPX_ABS | Instruction::CPY_IM |
        Instruction::CPY_ZP | Instruction::CPY_ABS => {
            assert(spec_step(s, m).0.pc == wrap_add16(s.pc, instr_len(i)));
        },
        Instruction::INC_ZP | Instruction::INC_ZP_X | Instruction::INC_ABS |
        Instruction::INC_ABS_X | Instruction::INX | Instruction::INY | Instruction::DEC_ZP |
        Instruction::DEC_ZP_X | Instruction::DEC_ABS | Instruction::DEC_ABS_X |
        Instruction::DEX | Instruction::DEY => {
            assert(spec_step(s, m).0.pc == wrap_add16(s.pc, instr_len(i)));
        },
        Instruction::ASL_A | Instruction::ASL_ZP | Instruction::ASL_ZP_X |
        Instruction::ASL_ABS | Instruction::ASL_ABS_X | Instruction::LSR_A |
        Instruction::LSR_ZP | Instruction::LSR_ZP_X | Instruction::LSR_ABS |
        Instruction::LSR_ABS_X | Instruction::ROL_A | Instruction::ROL_ZP |
        Instruction::ROL_ZP_X | Instruction::ROL_ABS | Instruction::ROL_ABS_X |
        Instruction::ROR_A | Instruction::ROR_ZP | Instruction::ROR_ZP_X |
        Instruction::ROR_ABS | Instruction::ROR_ABS_X => {
            assert(spec_step(s, m).0.pc == wrap_add16(s.pc, instr_len(i)));
        },
        Instruction::JMP_ABS | Instruction::JMP_IN => {
            assert(spec_step(s, m).0.pc == wrap_add16(s.pc, instr_len(i)));
        },
        Instruction::JSR_ABS => {
            assert(spec_step(s, m).0.pc == wrap_add16(s.pc, instr_len(i)));
        },
        Instruction::RTS_IM => {
            assert(spec_step(s, m).0.pc == wrap_add16(s.pc, instr_len(i)));
        },
        Instruction::BCC | Instruction::BCS | Instruction::BEQ | Instruction::BMI |
        Instruction::BNE | Instruction::BPL | Instruction::BVC | Instruction::BVS => {
            assert(spec_step(s, m).0.pc == wrap_add16(s.pc, instr_len(i)));
        },
        Instruction::INVALID => {
            assert(spec_step(s, m).0.pc == wrap_add16(s.pc, instr_len(i)));
        },
    }
}

/// A taken branch replaces the advance: the program counter lands on the
/// instruction after the branch plus the sign-extended displacement.
#[verifier::rlimit(100)]
#[verifier::spinoff_prover]
pub proof fn lemma_branch_taken_target(s: CpuState, m: Seq<u8>)
    requires
        is_branch(spec_decode(byte_at(m, s.pc))),
        branch_taken(s, m),
    ensures
        spec_step(s, m).0.pc == crate::model::branch_target(
            wrap_add16(s.pc, 2),
            byte_at(m, wrap_add16(s.pc, 1)),
        ),
{
    lemma_wrap16_chain(s.pc, 1, 1);
}

/// Jumps, subroutine calls and returns replace the advance by their
/// target: the operand word for `JMP` absolute and `JSR`, the word behind
/// the pointer (high byte fetched on the same page) for `JMP` indirect,
/// and one past the pulled return address for `RTS`.
#[verifier::rlimit(100)]
#[verifier::spinoff_prover]
pub proof fn lemma_jump_targets(s: CpuState, m: Seq<u8>)
    ensures
        spec_decode(byte_at(m, s.pc)) == Instruction::JMP_ABS ==> spec_step(s, m).0.pc == word_at(
            m,
            wrap_add16(s.pc, 1),
        ),
        spec_decode(byte_at(m, s.pc)) == Instruction::JSR_ABS ==> spec_step(s, m).0.pc == word_at(
            m,
            wrap_add16(s.pc, 1),
        ),
        spec_decode(byte_at(m, s.pc)) == Instruction::JMP_IN ==> spec_step(s, m).0.pc == ({
            let ptr = word_at(m, wrap_add16(s.pc, 1));
            (byte_at(m, crate::model::same_page_next(ptr)) as u16 * 256 + byte_at(m, ptr) as u16) as u16
        }),
        spec_decode(byte_at(m, s.pc)) == Instruction::RTS_IM ==> spec_step(s, m).0.pc
            == wrap_add16(
            (byte_at(m, stack_addr(wrap_add8(s.sp, 2))) as u16 * 256 + byte_at(
                m,
                stack_addr(wrap_add8(s.sp, 1)),
            ) as u16) as u16,
            1,
        ),
{
}


/// The instructions that store a register to memory.
pub open spec fn is_store(i: Instruction) -> bool {
    match i {
        Instruction::STA_ZP | Instruction::STA_ZP_X | Instruction::STA_ABS |
        Instruction::STA_ABS_X | Instruction::STA_ABS_Y | Instruction::STA_IN_X |
        Instruction::STA_IN_Y | Instruction::STX_ZP | Instruction::STX_ZP_Y |
        Instruction::STX_ABS | Instruction::STY_ZP | Instruction::STY_ZP_X |
        Instruction::STY_ABS => true,
        _ => false,
    }
}

/// The read-modify-write instructions (shifts, rotates and `INC`/`DEC` on
/// memory or the accumulator).
pub open spec fn is_rmw(i: Instruction) -> bool {
    match i {
        Instruction::INC_ZP | Instruction::INC_ZP_X | Instruction::INC_ABS |
        Instruction::INC_ABS_X | Instruction::DEC_ZP | Instruction::DEC_ZP_X |
        Instruction::DEC_ABS | Instruction::DEC_ABS_X | Instruction::ASL_A |
        Instruction::ASL_ZP | Instruction::ASL_ZP_X | Instruction::ASL_ABS |
        Instruction::ASL_ABS_X | Instruction::LSR_A | Instruction::LSR_ZP |
        Instruction::LSR_ZP_X | Instruction::LSR_ABS | Instruction::LSR_ABS_X |
        Instruction::ROL_A | Instruction::ROL_ZP | Instruction::ROL_ZP_X |
        Instruction::ROL_ABS | Instruction::ROL_ABS_X | Instruction::ROR_A |
        Instruction::ROR_ZP | Instruction::ROR_ZP_X | Instruction::ROR_ABS |
        Instruction::ROR_ABS_X => true,
        _ => false,
    }
}

/// The implied two-cycle instructions: register transfers and index
/// increments and decrements.
pub open spec fn is_implied_two_cycle(i: Instruction) -> bool {
    match i {
        Instruction::TAX | Instruction::TAY | Instruction::TXA | Instruction::TYA |
        Instruction::TSX | Instruction::TXS | Instruction::INX | Instruction::INY |
        Instruction::DEX | Instruction::DEY => true,
        _ => false,
    }
}

/// The index register value the instruction's addressing mode calls for.
pub open spec fn mode_idx(mode: AddressingMode, s: CpuState) -> u8 {
    match mode {
        AddressingMode::ZeroPageX => s.x,
        AddressingMode::AbsoluteX => s.x,
        AddressingMode::IndirectX => s.x,
        AddressingMode::ZeroPageY => s.y,
        AddressingMode::AbsoluteY => s.y,
        AddressingMode::IndirectY => s.y,
        _ => 0,
    }
}

/// The documented cycle cost of the instruction at `PC`: the base cost of
/// its operation family and addressing mode, plus one for a page-crossing
/// indexed read and one or two for a taken branch.  An invalid opcode
/// costs nothing.
pub open spec fn step_cost(s: CpuState, m: Seq<u8>) -> int {
    let i = spec_decode(byte_at(m, s.pc));
    let pc1 = wrap_add16(s.pc, 1);
    let mode = instr_mode(i);
    if i == Instruction::INVALID {
        0
    } else if is_branch(i) {
        if branch_taken(s, m) {
            let next = wrap_add16(s.pc, 2);
            3 + penalty(page_of(branch_target(next, byte_at(m, pc1))) != page_of(next))
        } else {
            2
        }
    } else if i == Instruction::JMP_ABS {
        3
    } else if i == Instruction::JMP_IN {
        5
    } else if i == Instruction::JSR_ABS || i == Instruction::RTS_IM {
        6
    } else if i == Instruction::PHA || i == Instruction::PHP {
        3
    } else if i == Instruction::PLA || i == Instruction::PLP {
        4
    } else if is_store(i) {
        store_cycles(mode)
    } else if is_rmw(i) {
        rmw_cycles(mode)
    } else if is_implied_two_cycle(i) {
        2
    } else {
        read_cycles(mode) + penalty(operand_crossed(m, pc1, mode_idx(mode, s), mode))
    }
}

/// Each step adds exactly the documented cost of the instruction it
/// executed to the cycle counter.
#[verifier::rlimit(100)]
#[verifier::spinoff_prover]
pub proof fn lemma_step_cycles_documented(s: CpuState, m: Seq<u8>)
    requires
        s.cycles + 8 <= u64::MAX,
    ensures
        spec_step(s, m).0.cycles == s.cycles + step_cost(s, m),
{
    lemma_wrap16_chain(s.pc, 1, 1);
    let i = spec_decode(byte_at(m, s.pc));
    match i {
        Instruction::LDA_IM | Instruction::LDA_ZP | Instruction::LDA_ZP_X |
        Instruction::LDA_ABS | Instruction::LDA_ABS_X | Instruction::LDA_ABS_Y |
        Instruction::LDA_IN_X | Instruction::LDA_IN_Y | Instruction::LDX_IM |
        Instruction::LDX_ZP | Instruction::LDX_ZP_Y | Instruction::LDX_ABS |
        Instruction::LDX_ABS_Y | Instruction::LDY_IM | Instruction::LDY_ZP |
        Instruction::LDY_ZP_X | Instruction::LDY_ABS | Instruction::LDY_ABS_X => {
            assert(spec_step(s, m).0.cycles == s.cycles + step_cost(s, m));
        },
        Instruction::STA_ZP | Instruction::STA_ZP_X | Instruction::STA_ABS |
        Instruction::STA_ABS_X | Instruction::STA_ABS_Y | Instruction::STA_IN_X |
        Instruction::STA_IN_Y | Instruction::STX_ZP | Instruction::STX_ZP_Y |
        Instruction::STX_ABS | Instruction::STY_ZP | Instruction::STY_ZP_X |
        Instruction::STY_ABS => {
            assert(spec_step(s, m).0.cycles == s.cycles + step_cost(s, m));
        },
        Instruction::TAX | Instruction::TAY | Instruction::TXA | Instruction::TYA |
        Instruction::TSX | Instruction::TXS => {
            assert(spec_step(s, m).0.cycles == s.cycles + step_cost(s, m));
        },
        Instruction::PHA | Instruction::PHP => {
            assert(spec_step(s, m).0.cycles == s.cycles + step_cost(s, m));
        },
        Instruction::PLA | Instruction::PLP => {
            assert(spec_step(s, m).0.cycles == s.cycles + step_cost(s, m));
        },
        Instruction::AND_IM | Instruction::AND_ZP | Instruction::AND_ZP_X |
        Instruction::AND_ABS | Instruction::AND_ABS_X | Instruction::AND_ABS_Y |
        Instruction::AND_IN_X | Instruction::AND_IN_Y | Instruction::EOR_IM |
        Instruction::EOR_ZP | Instruction::EOR_ZP_X | Instruction::EOR_ABS |
        Instruction::EOR_ABS_X | Instruction::EOR_ABS_Y | Instruction::EOR_IN_X |
        Instruction::EOR_IN_Y | Instruction::ORA_IM | Instruction::ORA_ZP |
        Instruction::ORA_ZP_X | Instruction::ORA_ABS | Instruction::ORA_ABS_X |
        Instruction::ORA_ABS_Y | Instruction::ORA_IN_X | Instruction::ORA_IN_Y => {
            assert(spec_step(s, m).0.cycles == s.cycles + step_cost(s, m));
        },
        Instruction::BIT_ZP | Instruction::BIT_ABS => {
            assert(spec_step(s, m).0.cycles == s.cycles + step_cost(s, m));
        },
        Instruction::ADC_IM | Instruction::ADC_ZP | Instruction::ADC_ZP_X |
        Instruction::ADC_ABS | Instruction::ADC_ABS_X | Instruction::ADC_ABS_Y |
        Instruction::ADC_IN_X | Instruction::ADC_IN_Y => {
            assert(spec_step(s, m).0.cycles == s.cycles + step_cost(s, m));
        },
        Instruction::SBC_IM | Instruction::SBC_ZP | Instruction::SBC_ZP_X |
        Instruction::SBC_ABS | Instruction::SBC_ABS_X | Instruction::SBC_ABS_Y |
        Instruction::SBC_IN_X | Instruction::SBC_IN_Y => {
            assert(spec_step(s, m).0.cycles == s.cycles + step_cost(s, m));
        },
        Instruction::CMP_IM | Instruction::CMP_ZP | Instruction::CMP_ZP_X |
        Instruction::CMP_ABS | Instruction::CMP_ABS_X | Instruction::CMP_ABS_Y |
        Instruction::CMP_IN_X | Instruction::CMP_IN_Y | Instruction::CPX_IM |
        Instruction::CPX_ZP | Instruction::CPX_ABS | Instruction::CPY_IM |
        Instruction::CPY_ZP | Instruction::CPY_ABS => {
            assert(spec_step(s, m).0.cycles == s.cycles + step_cost(s, m));
        },
        Instruction::INC_ZP | Instruction::INC_ZP_X | Instruction::INC_ABS |
        Instruction::INC_ABS_X | Instruction::INX | Instruction::INY | Instruction::DEC_ZP |
        Instruction::DEC_ZP_X | Instruction::DEC_ABS | Instruction::DEC_ABS_X |
        Instruction::DEX | Instruction::DEY => {
            assert(spec_step(s, m).0.cycles == s.cycles + step_cost(s, m));
        },
        Instruction::ASL_A | Instruction::ASL_ZP | Instruction::ASL_ZP_X |
        Instruction::ASL_ABS | Instruction::ASL_ABS_X | Instruction::LSR_A |
        Instruction::LSR_ZP | Instruction::LSR_ZP_X | Instruction::LSR_ABS |
        Instruction::LSR_ABS_X | Instruction::ROL_A | Instruction::ROL_ZP |
        Instruction::ROL_ZP_X | Instruction::ROL_ABS | Instruction::ROL_ABS_X |
        Instruction::ROR_A | Instruction::ROR_ZP | Instruction::ROR_ZP_X |
        Instruction::ROR_ABS | Instruction::ROR_ABS_X => {
            assert(spec_step(s, m).0.cycles == s.cycles + step_cost(s, m));
        },
        Instruction::JMP_ABS | Instruction::JMP_IN => {
            assert(spec_step(s, m).0.cycles == s.cycles + step_cost(s, m));
        },
        Instruction::JSR_ABS => {
            assert(spec_step(s, m).0.cycles == s.cycles + step_cost(s, m));
        },
        Instruction::RTS_IM => {
            assert(spec_step(s, m).0.cycles == s.cycles + step_cost(s, m));
        },
        Instruction::BCC | Instruction::BCS | Instruction::BEQ | Instruction::BMI |
        Instruction::BNE | Instruction::BPL | Instruction::BVC | Instruction::BVS => {
            assert(spec_step(s, m).0.cycles == s.cycles + step_cost(s, m));
        },
        Instruction::INVALID => {
            assert(spec_step(s, m).0.cycles == s.cycles + step_cost(s, m));
        },
    }
}

/// The cycle counter never decreases across a step, and one step costs at
/// most eight cycles (seven base plus one page-cross penalty).  An invalid
/// opcode costs nothing.
#[verifier::rlimit(100)]
#[verifier::spinoff_prover]
pub proof fn lemma_step_cycles_monotonic(s: CpuState, m: Seq<u8>)
    requires
        s.cycles + 8 <= u64::MAX,
    ensures
        spec_step(s, m).0.cycles >= s.cycles,
        spec_step(s, m).0.cycles <= s.cycles + 8,
        spec_decode(byte_at(m, s.pc)) == Instruction::INVALID ==> spec_step(s, m).0.cycles
            == s.cycles,
{
}

/// Composing wrapped eight-bit stack-pointer moves: pulling once or twice
/// after pushing twice lands where expected, and the two pushed cells are
/// distinct.
proof fn lemma_sp_wrap(sp: u8)
    ensures
        wrap_add8(wrap_sub8(sp, 2), 1) == wrap_sub8(sp, 1),
        wrap_add8(wrap_sub8(sp, 2), 2) == sp,
        wrap_sub8(sp, 1) != sp,
{
    lemma_add_mod_noop_right(1, sp + 254, 256);
    lemma_add_mod_noop_right(2, sp + 254, 256);
    lemma_small_mod(sp as nat, 256);
    if sp == 0 {
        assert(wrap_sub8(sp, 1) == 255);
    } else {
        lemma_small_mod((sp - 1) as nat, 256);
        assert((sp + 255) % 256 == (sp - 1 + 256) % 256);
    }
}

/// `JSR` followed immediately by `RTS` restores the stack pointer and
/// resumes at the instruction after the `JSR`, twelve cycles later.  The
/// return address pushed is the address of the last byte of the `JSR`.
#[verifier::rlimit(100)]
#[verifier::spinoff_prover]
pub proof fn lemma_jsr_rts_round_trip(s: CpuState, m: Seq<u8>)
    requires
        m.len() == 0x10000,
        s.cycles + 16 <= u64::MAX,
        spec_decode(byte_at(m, s.pc)) == Instruction::JSR_ABS,
        spec_decode(byte_at(m, word_at(m, wrap_add16(s.pc, 1)))) == Instruction::RTS_IM,
        // the subroutine entry must not sit in either stack cell the call
        // overwrites
        word_at(m, wrap_add16(s.pc, 1)) != stack_addr(s.sp),
        word_at(m, wrap_add16(s.pc, 1)) != stack_addr(wrap_sub8(s.sp, 1)),
    ensures
        ({
            let after_call = spec_step(s, m);
            let after_return = spec_step(after_call.0, after_call.1);
            &&& after_return.0.sp == s.sp
            &&& after_return.0.pc == wrap_add16(s.pc, 3)
            &&& after_return.0.cycles == s.cycles + 12
        }),
{
    let target = word_at(m, wrap_add16(s.pc, 1));
    let ret = wrap_add16(s.pc, 2);
    let after_call = spec_step(s, m);
    lemma_wrap16_chain(s.pc, 1, 1);
    lemma_wrap16_chain(s.pc, 2, 1);
    lemma_sp_wrap(s.sp);
    assert(after_call.0.pc == target);
    assert(after_call.1[stack_addr(wrap_sub8(s.sp, 1)) as int] == (ret % 256) as u8);
    assert(stack_addr(s.sp) != stack_addr(wrap_sub8(s.sp, 1)));
    assert(after_call.1[stack_addr(s.sp) as int] == (ret / 256) as u8);
    assert(byte_at(after_call.1, target) == byte_at(m, target));
    let after_return = spec_step(after_call.0, after_call.1);
    assert(after_return.0.sp == s.sp);
    assert((ret / 256) * 256 + (ret % 256) == ret);
    assert(after_return.0.pc == wrap_add16(ret, 1));
}

/// One `LDA` with an immediate operand: the accumulator takes the byte
/// after the opcode and the zero and negative flags follow it.
#[verifier::rlimit(100)]
#[verifier::spinoff_prover]
proof fn lemma_lda_im_step(s: CpuState, m: Seq<u8>)
    requires
        byte_at(m, s.pc) == 0xA9,
    ensures
        spec_step(s, m).1 == m,
        spec_step(s, m).0.pc == wrap_add16(s.pc, 2),
        spec_step(s, m).0.a == byte_at(m, wrap_add16(s.pc, 1)),
        spec_step(s, m).0.status == status_nz(s.status, byte_at(m, wrap_add16(s.pc, 1))),
{
    lemma_wrap16_chain(s.pc, 1, 1);
    let s1 = CpuState { pc: wrap_add16(s.pc, 1), ..s };
    let t = crate::model::spec_load(s1, m, Register::A, AddressingMode::Immediate, 0);
    assert(spec_decode(byte_at(m, s.pc)) == Instruction::LDA_IM);
    assert(spec_step(s, m) == (t, m));
}

/// One `STA` with an absolute operand: the accumulator lands at the
/// operand word's address; no flag changes.
#[verifier::rlimit(100)]
#[verifier::spinoff_prover]
proof fn lemma_sta_abs_step(s: CpuState, m: Seq<u8>)
    requires
        byte_at(m, s.pc) == 0x8D,
    ensures
        spec_step(s, m).1 == m.update(word_at(m, wrap_add16(s.pc, 1)) as int, s.a),
        spec_step(s, m).0.pc == wrap_add16(s.pc, 3),
        spec_step(s, m).0.status == s.status,
        spec_step(s, m).0.a == s.a,
{
    lemma_wrap16_chain(s.pc, 1, 2);
    let s1 = CpuState { pc: wrap_add16(s.pc, 1), ..s };
    let t = crate::model::spec_store(s1, m, Register::A, AddressingMode::Absolute, 0);
    assert(spec_decode(byte_at(m, s.pc)) == Instruction::STA_ABS);
    assert(spec_step(s, m) == t);
}

/// The first two instructions of the round trip: `LDA #v` then `STA a`
/// put `v` in the accumulator and at `a`, leaving the rest of memory
/// unchanged.
#[verifier::rlimit(100)]
#[verifier::spinoff_prover]
proof fn lemma_lda_sta(s: CpuState, m: Seq<u8>, a: u16, v: u8)
    requires
        m.len() == 0x10000,
        byte_at(m, s.pc) == 0xA9,
        byte_at(m, wrap_add16(s.pc, 1)) == v,
        byte_at(m, wrap_add16(s.pc, 2)) == 0x8D,
        byte_at(m, wrap_add16(s.pc, 3)) == (a % 256) as u8,
        byte_at(m, wrap_add16(s.pc, 4)) == (a / 256) as u8,
    ensures
        ({
            let r = spec_step(spec_step(s, m).0, spec_step(s, m).1);
            &&& r.1 == m.update(a as int, v)
            &&& r.0.pc == wrap_add16(s.pc, 5)
            &&& r.0.status == status_nz(s.status, v)
            &&& r.0.a == v
        }),
{
    lemma_lda_im_step(s, m);
    let t1 = spec_step(s, m);
    lemma_wrap16_chain(s.pc, 2, 1);
    lemma_wrap16_chain(s.pc, 3, 1);
    lemma_wrap16_chain(s.pc, 2, 3);
    assert((a / 256) * 256 + (a % 256) == a) by {
        vstd::arithmetic::div_mod::lemma_fundamental_div_mod(a as int, 256);
    }
    lemma_sta_abs_step(t1.0, t1.1);
    assert(word_at(m, wrap_add16(s.pc, 3)) == a);
}

/// One `LDA` with an absolute operand: the accumulator takes the byte at
/// the operand address and the zero and negative flags follow it; memory
/// is untouched.
#[verifier::rlimit(100)]
#[verifier::spinoff_prover]
proof fn lemma_lda_abs_step(s: CpuState, m: Seq<u8>)
    requires
        byte_at(m, s.pc) == 0xAD,
    ensures
        spec_step(s, m).1 == m,
        spec_step(s, m).0.a == byte_at(m, word_at(m, wrap_add16(s.pc, 1))),
        spec_step(s, m).0.status == status_nz(
            s.status,
            byte_at(m, word_at(m, wrap_add16(s.pc, 1))),
        ),
{
    let s1 = CpuState { pc: wrap_add16(s.pc, 1), ..s };
    let t = crate::model::spec_load(s1, m, Register::A, AddressingMode::Absolute, 0);
    assert(spec_decode(byte_at(m, s.pc)) == Instruction::LDA_ABS);
    assert(spec_step(s, m) == (t, m));
}

/// Storing the accumulator after an immediate load puts the loaded byte in
/// memory, and loading it back restores the accumulator and sets the zero
/// and negative flags from the value.  The target address must lie outside
/// the stack page and away from the three instructions themselves.
#[verifier::rlimit(100)]
#[verifier::spinoff_prover]
pub proof fn lemma_load_store_round_trip(s: CpuState, m: Seq<u8>, a: u16, v: u8)
    requires
        m.len() == 0x10000,
        // the program: LDA #v; STA a; LDA a
        byte_at(m, s.pc) == 0xA9,
        byte_at(m, wrap_add16(s.pc, 1)) == v,
        byte_at(m, wrap_add16(s.pc, 2)) == 0x8D,
        byte_at(m, wrap_add16(s.pc, 3)) == (a % 256) as u8,
        byte_at(m, wrap_add16(s.pc, 4)) == (a / 256) as u8,
        byte_at(m, wrap_add16(s.pc, 5)) == 0xAD,
        byte_at(m, wrap_add16(s.pc, 6)) == (a % 256) as u8,
        byte_at(m, wrap_add16(s.pc, 7)) == (a / 256) as u8,
        !(0x0100 <= a < 0x0200),
        forall|k: u16| k < 8 ==> a != wrap_add16(s.pc, k),
    ensures
        ({
            let after_store = spec_step(spec_step(s, m).0, spec_step(s, m).1);
            let after_reload = spec_step(after_store.0, after_store.1);
            &&& byte_at(after_store.1, a) == v
            &&& after_reload.0.a == v
            &&& flag(after_reload.0.status, FLAG_Z) == (v == 0)
            &&& flag(after_reload.0.status, FLAG_N) == (v & 0x80 != 0)
        }),
{
    broadcast use crate::cpu::lemma_flag_with_flag;

    lemma_lda_sta(s, m, a, v);
    lemma_wrap16_chain(s.pc, 5, 1);
    lemma_wrap16_chain(s.pc, 6, 1);
    assert((a / 256) * 256 + (a % 256) == a) by {
        vstd::arithmetic::div_mod::lemma_fundamental_div_mod(a as int, 256);
    }
    let after_store = spec_step(spec_step(s, m).0, spec_step(s, m).1);
    assert(a != wrap_add16(s.pc, 5u16) && a != wrap_add16(s.pc, 6u16) && a != wrap_add16(
        s.pc,
        7u16,
    ));
    assert(byte_at(after_store.1, a) == v);
    assert(byte_at(after_store.1, wrap_add16(s.pc, 5)) == 0xAD);
    assert(byte_at(after_store.1, wrap_add16(s.pc, 6)) == (a % 256) as u8);
    assert(byte_at(after_store.1, wrap_add16(s.pc, 7)) == (a / 256) as u8);
    lemma_lda_abs_step(after_store.0, after_store.1);
    assert(word_at(after_store.1, wrap_add16(s.pc, 6)) == a);
    assert(spec_step(after_store.0, after_store.1).0.a == v);
}

} // verus!
