//! A cycle-accurate functional emulator for the MOS 6502 8-bit microprocessor.
//!
//! The crate models a 64 KiB flat byte-addressable memory, the processor
//! registers (`A`, `X`, `Y`, stack pointer, program counter, status byte) and
//! a monotonic cycle counter.  Instructions are fetched, decoded and executed
//! one at a time; every handler is verified against a functional model of the
//! processor, so flag side effects, wrap-around address arithmetic and cycle
//! accounting (including page-cross and branch-taken penalties) are proved,
//! not just tested.

pub mod memory;
pub mod cpu;
pub mod instruction;
pub mod model;
pub mod ops;
pub mod step;
pub mod laws;
