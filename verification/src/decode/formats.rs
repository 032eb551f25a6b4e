use vstd::prelude::*;

use crate::Error;
use super::{lemma_spec_reg_mask, spec_reg, Funct, Imm, Reg};

verus! {

/// Halfway-decoded instruction.
///
/// This is decoded as far as the instruction format,
/// but not the particular opcode.
#[derive(Clone, Debug)]
pub struct Instruction<T> {
    pub opcode: Opcode,
    pub funct: Funct,
    pub operands: T,
}

/// The "opcode" field of the instruction encoding.
///
/// This doesn't completely describe what an instruction does; for that
/// you need the 'funct' field as well.
#[derive(Copy, Clone, Debug, PartialEq, Eq, PartialOrd, Ord, Hash)]
pub enum Opcode {
    Load,
    OpImm,
    Auipc,
    Store,
    Op,
    Lui,
    Branch,
    Jalr,
    Jal,
    System,
}

/// The primary opcode encoded in the low seven bits of an instruction word,
/// or `None` when those bits name no recognized opcode.
pub open spec fn spec_opcode(bits: u32) -> Option<Opcode> {
    let op = bits & 0b1111111;
    if op == 0b00_000_11 {
        Some(Opcode::Load)
    } else if op == 0b00_100_11 {
        Some(Opcode::OpImm)
    } else if op == 0b00_101_11 {
        Some(Opcode::Auipc)
    } else if op == 0b01_000_11 {
        Some(Opcode::Store)
    } else if op == 0b01_100_11 {
        Some(Opcode::Op)
    } else if op == 0b01_101_11 {
        Some(Opcode::Lui)
    } else if op == 0b11_000_11 {
        Some(Opcode::Branch)
    } else if op == 0b11_001_11 {
        Some(Opcode::Jalr)
    } else if op == 0b11_011_11 {
        Some(Opcode::Jal)
    } else if op == 0b11_100_11 {
        Some(Opcode::System)
    } else {
        None
    }
}

impl Opcode {
    pub fn from_inst(bits: u32) -> (r: Result<Opcode, Error>)
        ensures
            match spec_opcode(bits) {
                Some(op) => r == Ok::<Opcode, Error>(op),
                None => r == Err::<Opcode, Error>(Error::BadOpcode),
            },
    {
        match bits & 0b1111111 {
            0b00_000_11 => Ok(Opcode::Load),
            0b00_100_11 => Ok(Opcode::OpImm),
            0b00_101_11 => Ok(Opcode::Auipc),
            0b01_000_11 => Ok(Opcode::Store),
            0b01_100_11 => Ok(Opcode::Op),
            0b01_101_11 => Ok(Opcode::Lui),
            0b11_000_11 => Ok(Opcode::Branch),
            0b11_001_11 => Ok(Opcode::Jalr),
            0b11_011_11 => Ok(Opcode::Jal),
            0b11_100_11 => Ok(Opcode::System),
            _ => Err(Error::BadOpcode),
        }
    }
}

#[derive(Clone, Debug, PartialEq, Eq, Hash)]
pub struct ROperands {
    pub rd: Reg,
    pub rs1: Reg,
    pub rs2: Reg,
}

#[derive(Clone, Debug, PartialEq, Eq, Hash)]
pub struct IOperands {
    pub rd: Reg,
    pub rs1: Reg,
    pub imm: Imm,
}

#[derive(Clone, Debug, PartialEq, Eq, Hash)]
pub struct SOperands {
    pub rs1: Reg,
    pub rs2: Reg,
    pub imm: Imm,
}

#[derive(Clone, Debug, PartialEq, Eq, Hash)]
pub struct BOperands {
    pub rs1: Reg,
    pub rs2: Reg,
    pub imm: Imm,
}

#[derive(Clone, Debug, PartialEq, Eq, Hash)]
pub struct UOperands {
    pub rd: Reg,
    pub imm: Imm,
}

#[derive(Clone, Debug, PartialEq, Eq, Hash)]
pub struct JOperands {
    pub rd: Reg,
    pub imm: Imm,
}

pub type RInstruction = Instruction<ROperands>;

pub type IInstruction = Instruction<IOperands>;

pub type SInstruction = Instruction<SOperands>;

pub type BInstruction = Instruction<BOperands>;

pub type UInstruction = Instruction<UOperands>;

pub type JInstruction = Instruction<JOperands>;

/// funct3: bits 14..12 of the instruction word, in the low three bits.
pub open spec fn extract_funct3(bits: u32) -> Funct {
    ((bits >> 12) & 0b111) as Funct
}

/// funct7: bits 31..25 of the instruction word, packed into bits 9..3 of the
/// funct value, above funct3.
pub open spec fn extract_funct7(bits: u32) -> Funct {
    ((bits >> 22) & 0b1111111_000) as Funct
}

/// Replicate bit `num_bits - 1` of `bits` into bits `num_bits..31`; the low
/// `num_bits` bits are kept as they are.
pub open spec fn spec_sign_extend(bits: u32, num_bits: u32) -> u32
    recommends
        0 < num_bits <= 32,
{
    if num_bits < 32 && bits & (1u32 << (num_bits - 1) as u32) != 0 {
        bits | (u32::MAX << num_bits)
    } else {
        bits
    }
}

/// The I-format immediate: bits 31..20, sign-extended from 12 bits.
pub open spec fn spec_imm_i(bits: u32) -> u32 {
    spec_sign_extend(bits >> 20, 12)
}

/// The S-format immediate: bits 31..25 and 11..7, sign-extended from 12 bits.
pub open spec fn spec_imm_s(bits: u32) -> u32 {
    spec_sign_extend(((bits >> 7) & 0b11111) | ((bits >> 20) & 0b1111111_00000), 12)
}

/// The B-format immediate: the branch-style split encoding, bit 0 always
/// zero, sign-extended from 13 bits.
pub open spec fn spec_imm_b(bits: u32) -> u32 {
    spec_sign_extend(
        ((bits >> 7) & 0b1111_0) | ((bits >> 20) & 0b111111_0000_0) | ((bits << 4)
            & 0b1_000000_0000_0) | ((bits >> 19) & 0b1_0_000000_0000_0),
        13,
    )
}

/// The U-format immediate: the upper 20 bits of the word, low 12 bits zero.
pub open spec fn spec_imm_u(bits: u32) -> u32 {
    bits & !0b111111111111u32
}

/// The J-format immediate: the jump-style split encoding, bit 0 always zero,
/// sign-extended from 21 bits.
pub open spec fn spec_imm_j(bits: u32) -> u32 {
    spec_sign_extend(
        (bits & 0b11111111_000000000000) | ((bits >> 9) & 0b100000000000) | ((bits >> 20)
            & 0b11111111110) | ((bits >> 11) & 0b1_00000000000000000000),
        21,
    )
}

/// Sign-extension law: in an I-format immediate, bit 11 of the assembled
/// value is replicated into every one of bits 12..31.
pub proof fn lemma_imm_i_sign_extended(bits: u32, k: u32)
    requires
        12 <= k < 32,
    ensures
        (spec_imm_i(bits) >> k) & 1 == (spec_imm_i(bits) >> 11) & 1,
{
    assert((spec_imm_i(bits) >> k) & 1 == (spec_imm_i(bits) >> 11) & 1) by (bit_vector)
        requires
            12 <= k < 32,
    ;
}

/// The operand fields every R-format instruction carries.
pub open spec fn spec_r_operands(bits: u32) -> ROperands {
    ROperands { rd: spec_reg(bits >> 7), rs1: spec_reg(bits >> 15), rs2: spec_reg(bits >> 20) }
}

/// The operand fields every I-format instruction carries.
pub open spec fn spec_i_operands(bits: u32) -> IOperands {
    IOperands { rd: spec_reg(bits >> 7), rs1: spec_reg(bits >> 15), imm: spec_imm_i(bits) }
}

/// The operand fields every S-format instruction carries.
pub open spec fn spec_s_operands(bits: u32) -> SOperands {
    SOperands { rs1: spec_reg(bits >> 15), rs2: spec_reg(bits >> 20), imm: spec_imm_s(bits) }
}

/// The operand fields every B-format instruction carries.
pub open spec fn spec_b_operands(bits: u32) -> BOperands {
    BOperands { rs1: spec_reg(bits >> 15), rs2: spec_reg(bits >> 20), imm: spec_imm_b(bits) }
}

/// The operand fields every U-format instruction carries.
pub open spec fn spec_u_operands(bits: u32) -> UOperands {
    UOperands { rd: spec_reg(bits >> 7), imm: spec_imm_u(bits) }
}

/// The operand fields every J-format instruction carries.
pub open spec fn spec_j_operands(bits: u32) -> JOperands {
    JOperands { rd: spec_reg(bits >> 7), imm: spec_imm_j(bits) }
}

fn inst<T>(bits: u32, funct: Funct, operands: T) -> (r: Result<Instruction<T>, Error>)
    ensures
        match spec_opcode(bits) {
            Some(op) => r matches Ok(i) && i.opcode == op && i.funct == funct && i.operands
                == operands,
            None => r matches Err(e) && e == Error::BadOpcode,
        },
{
    let opcode = Opcode::from_inst(bits)?;
    Ok(Instruction { opcode, funct, operands })
}

fn reg(bits: u32) -> (r: Result<Reg, Error>)
    ensures
        r == Ok::<Reg, Error>(spec_reg(bits)),
{
    proof {
        assert(bits & 0b11111 < 32) by (bit_vector);
        lemma_spec_reg_mask(bits);
    }
    Reg::new(bits & 0b11111)
}

fn funct3(bits: u32) -> (r: Funct)
    ensures
        r == extract_funct3(bits),
{
    ((bits >> 12) & 0b111) as Funct
}

fn funct7(bits: u32) -> (r: Funct)
    ensures
        r == extract_funct7(bits),
{
    ((bits >> 22) & 0b1111111_000) as Funct
}

// go from
//   00..00snn..nn
// to
//   ss..sssnn..nn
pub fn sign_extend(bits: u32, num_bits: u8) -> (r: u32)
    requires
        0 < num_bits <= 32,
    ensures
        r == spec_sign_extend(bits, num_bits as u32),
{
    if num_bits < 32 && bits & (1u32 << ((num_bits - 1) as u32)) != 0 {
        bits | (u32::MAX << (num_bits as u32))
    } else {
        bits
    }
}

pub fn decode_r(bits: u32) -> (r: Result<RInstruction, Error>)
    ensures
        match spec_opcode(bits) {
            Some(op) => r matches Ok(i) && i.opcode == op && i.funct == (extract_funct3(bits)
                | extract_funct7(bits)) && i.operands == spec_r_operands(bits),
            None => r matches Err(e) && e == Error::BadOpcode,
        },
{
    let operands = ROperands { rd: reg(bits >> 7)?, rs1: reg(bits >> 15)?, rs2: reg(bits >> 20)? };
    inst(bits, funct3(bits) | funct7(bits), operands)
}

pub fn decode_i(bits: u32) -> (r: Result<IInstruction, Error>)
    ensures
        match spec_opcode(bits) {
            Some(op) => r matches Ok(i) && i.opcode == op && i.funct == extract_funct3(bits)
                && i.operands == spec_i_operands(bits),
            None => r matches Err(e) && e == Error::BadOpcode,
        },
{
    let operands = IOperands {
        rd: reg(bits >> 7)?,
        rs1: reg(bits >> 15)?,
        imm: sign_extend(bits >> 20, 12),
    };
    inst(bits, funct3(bits), operands)
}

pub fn decode_s(bits: u32) -> (r: Result<SInstruction, Error>)
    ensures
        match spec_opcode(bits) {
            Some(op) => r matches Ok(i) && i.opcode == op && i.funct == extract_funct3(bits)
                && i.operands == spec_s_operands(bits),
            None => r matches Err(e) && e == Error::BadOpcode,
        },
{
    let operands = SOperands {
        rs1: reg(bits >> 15)?,
        rs2: reg(bits >> 20)?,
        imm: sign_extend(((bits >> 7) & 0b11111) | ((bits >> 20) & 0b1111111_00000), 12),
    };
    inst(bits, funct3(bits), operands)
}

pub fn decode_b(bits: u32) -> (r: Result<BInstruction, Error>)
    ensures
        match spec_opcode(bits) {
            Some(op) => r matches Ok(i) && i.opcode == op && i.funct == extract_funct3(bits)
                && i.operands == spec_b_operands(bits),
            None => r matches Err(e) && e == Error::BadOpcode,
        },
{
    let operands = BOperands {
        rs1: reg(bits >> 15)?,
        rs2: reg(bits >> 20)?,
        imm: sign_extend(
            ((bits >> 7) & 0b1111_0) | ((bits >> 20) & 0b111111_0000_0) | ((bits << 4)
                & 0b1_000000_0000_0) | ((bits >> 19) & 0b1_0_000000_0000_0),
            13,
        ),
    };
    inst(bits, funct3(bits), operands)
}

pub fn decode_u(bits: u32) -> (r: Result<UInstruction, Error>)
    ensures
        match spec_opcode(bits) {
            Some(op) => r matches Ok(i) && i.opcode == op && i.funct == 0 && i.operands
                == spec_u_operands(bits),
            None => r matches Err(e) && e == Error::BadOpcode,
        },
{
    let operands = UOperands { rd: reg(bits >> 7)?, imm: bits & !0b111111111111u32 };
    inst(bits, 0, operands)
}

pub fn decode_j(bits: u32) -> (r: Result<JInstruction, Error>)
    ensures
        match spec_opcode(bits) {
            Some(op) => r matches Ok(i) && i.opcode == op && i.funct == 0 && i.operands
                == spec_j_operands(bits),
            None => r matches Err(e) && e == Error::BadOpcode,
        },
{
    let operands = JOperands {
        rd: reg(bits >> 7)?,
        imm: sign_extend(
            (bits & 0b11111111_000000000000) | ((bits >> 9) & 0b100000000000) | ((bits >> 20)
                & 0b11111111110) | ((bits >> 11) & 0b1_00000000000000000000),
            21,
        ),
    };
    inst(bits, 0, operands)
}

} // verus!
