//! The core of a small RV32I emulator, verified with Verus.
//!
//! `decode` turns a 32-bit instruction word into a typed instruction value;
//! `emu` holds the architectural state — program counter, registers, a flat
//! byte memory — and advances it one instruction at a time. Every public
//! function carries a contract that pins its result down exactly, against a
//! specification-level model of the decoder (`spec_decode`) and of one
//! execution step (`spec_step`).

use vstd::prelude::*;

pub mod decode;
pub mod emu;

verus! {

/// The closed set of failures the emulator core can report.
///
/// `BadOpcode`: the primary opcode field of an instruction word is not one of
/// the recognized values. `BadFunct`: the opcode is recognized but the funct
/// fields (or a malformed shift immediate) select no supported instruction.
/// `BadRegister`: a register index of 32 or more was given to the register
/// constructor. `MemoryOutOfBounds`: a memory access touches a byte outside
/// the allocated range, including accesses whose last address overflows.
#[derive(Clone, Debug)]
pub enum Error {
    BadOpcode,
    BadFunct,
    BadRegister,
    MemoryOutOfBounds,
}

} // verus!
