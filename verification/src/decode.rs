use vstd::prelude::*;

use crate::Error;

pub mod formats;

use self::formats::{spec_opcode, Opcode};

verus! {

/// A general-purpose register identifier: an integer in `[0, 31]`.
///
/// The numeric value is hidden behind `spec_num`; `Reg::new` is the only
/// constructor and rejects indices of 32 or more, so every `Reg` that
/// executable code holds satisfies `spec_num() < 32`.
#[derive(Copy, Clone, Debug, PartialEq, Eq, PartialOrd, Ord, Hash)]
pub struct Reg(u8);

impl Reg {
    /// The register's architectural index, as a specification-level value.
    pub closed spec fn spec_num(self) -> u8 {
        self.0
    }

    #[verifier::type_invariant]
    pub(crate) open spec fn inv(self) -> bool {
        self.spec_num() < 32
    }

    pub fn new(n: u32) -> (r: Result<Reg, Error>)
        ensures
            n < 32 ==> r == Ok::<Reg, Error>(spec_reg(n)),
            n >= 32 ==> r == Err::<Reg, Error>(Error::BadRegister),
    {
        if n < 32 {
            proof {
                assert(n < 32 ==> n & 0x1f == n) by (bit_vector);
            }
            Ok(Reg(n as u8))
        } else {
            Err(Error::BadRegister)
        }
    }

    pub fn num(&self) -> (r: u8)
        ensures
            r == self.spec_num(),
    {
        self.0
    }

    /// ABI name: the hardwired zero register, x0.
    pub fn zero() -> (r: Reg)
        ensures
            r.spec_num() == 0,
    {
        Reg(0)
    }

    /// ABI name: the return address register, x1.
    pub fn ra() -> (r: Reg)
        ensures
            r.spec_num() == 1,
    {
        Reg(1)
    }

    /// ABI name: the stack pointer, x2.
    pub fn sp() -> (r: Reg)
        ensures
            r.spec_num() == 2,
    {
        Reg(2)
    }

    /// ABI name: the global pointer, x3.
    pub fn gp() -> (r: Reg)
        ensures
            r.spec_num() == 3,
    {
        Reg(3)
    }

    /// ABI name: the thread pointer, x4.
    pub fn tp() -> (r: Reg)
        ensures
            r.spec_num() == 4,
    {
        Reg(4)
    }

    /// ABI name: temporary register t0, x5.
    pub fn t0() -> (r: Reg)
        ensures
            r.spec_num() == 5,
    {
        Reg(5)
    }

    /// ABI name: temporary register t1, x6.
    pub fn t1() -> (r: Reg)
        ensures
            r.spec_num() == 6,
    {
        Reg(6)
    }

    /// ABI name: temporary register t2, x7.
    pub fn t2() -> (r: Reg)
        ensures
            r.spec_num() == 7,
    {
        Reg(7)
    }

    /// ABI name: the frame pointer, x8 (the same register as s0).
    pub fn fp() -> (r: Reg)
        ensures
            r.spec_num() == 8,
    {
        Reg(8)
    }

    /// ABI name: saved register s0, x8 (the same register as fp).
    pub fn s0() -> (r: Reg)
        ensures
            r.spec_num() == 8,
    {
        Reg(8)
    }

    /// ABI name: saved register s1, x9.
    pub fn s1() -> (r: Reg)
        ensures
            r.spec_num() == 9,
    {
        Reg(9)
    }

    /// ABI name: argument register a0, x10.
    pub fn a0() -> (r: Reg)
        ensures
            r.spec_num() == 10,
    {
        Reg(10)
    }

    /// ABI name: argument register a1, x11.
    pub fn a1() -> (r: Reg)
        ensures
            r.spec_num() == 11,
    {
        Reg(11)
    }

    /// ABI name: argument register a2, x12.
    pub fn a2() -> (r: Reg)
        ensures
            r.spec_num() == 12,
    {
        Reg(12)
    }

    /// ABI name: argument register a3, x13.
    pub fn a3() -> (r: Reg)
        ensures
            r.spec_num() == 13,
    {
        Reg(13)
    }

    /// ABI name: argument register a4, x14.
    pub fn a4() -> (r: Reg)
        ensures
            r.spec_num() == 14,
    {
        Reg(14)
    }

    /// ABI name: argument register a5, x15.
    pub fn a5() -> (r: Reg)
        ensures
            r.spec_num() == 15,
    {
        Reg(15)
    }

    /// ABI name: argument register a6, x16.
    pub fn a6() -> (r: Reg)
        ensures
            r.spec_num() == 16,
    {
        Reg(16)
    }

    /// ABI name: argument register a7, x17.
    pub fn a7() -> (r: Reg)
        ensures
            r.spec_num() == 17,
    {
        Reg(17)
    }

    /// ABI name: saved register s2, x18.
    pub fn s2() -> (r: Reg)
        ensures
            r.spec_num() == 18,
    {
        Reg(18)
    }

    /// ABI name: saved register s3, x19.
    pub fn s3() -> (r: Reg)
        ensures
            r.spec_num() == 19,
    {
        Reg(19)
    }

    /// ABI name: saved register s4, x20.
    pub fn s4() -> (r: Reg)
        ensures
            r.spec_num() == 20,
    {
        Reg(20)
    }

    /// ABI name: saved register s5, x21.
    pub fn s5() -> (r: Reg)
        ensures
            r.spec_num() == 21,
    {
        Reg(21)
    }

    /// ABI name: saved register s6, x22.
    pub fn s6() -> (r: Reg)
        ensures
            r.spec_num() == 22,
    {
        Reg(22)
    }

    /// ABI name: saved register s7, x23.
    pub fn s7() -> (r: Reg)
        ensures
            r.spec_num() == 23,
    {
        Reg(23)
    }

    /// ABI name: saved register s8, x24.
    pub fn s8() -> (r: Reg)
        ensures
            r.spec_num() == 24,
    {
        Reg(24)
    }

    /// ABI name: saved register s9, x25.
    pub fn s9() -> (r: Reg)
        ensures
            r.spec_num() == 25,
    {
        Reg(25)
    }

    /// ABI name: saved register s10, x26.
    pub fn s10() -> (r: Reg)
        ensures
            r.spec_num() == 26,
    {
        Reg(26)
    }

    /// ABI name: saved register s11, x27.
    pub fn s11() -> (r: Reg)
        ensures
            r.spec_num() == 27,
    {
        Reg(27)
    }

    /// ABI name: temporary register t3, x28.
    pub fn t3() -> (r: Reg)
        ensures
            r.spec_num() == 28,
    {
        Reg(28)
    }

    /// ABI name: temporary register t4, x29.
    pub fn t4() -> (r: Reg)
        ensures
            r.spec_num() == 29,
    {
        Reg(29)
    }

    /// ABI name: temporary register t5, x30.
    pub fn t5() -> (r: Reg)
        ensures
            r.spec_num() == 30,
    {
        Reg(30)
    }

    /// ABI name: temporary register t6, x31.
    pub fn t6() -> (r: Reg)
        ensures
            r.spec_num() == 31,
    {
        Reg(31)
    }
}

/// The packed funct value: funct3 in the low three bits, funct7 (where the
/// format has one) in the bits above them.
pub type Funct = u16;

/// An immediate operand, already assembled and sign- or zero-extended.
pub type Imm = u32;

/// The register whose index is the low five bits of `bits`; this is how every
/// field decoder reads a register out of an instruction word.
pub closed spec fn spec_reg(bits: u32) -> Reg {
    Reg((bits & 0x1f) as u8)
}

/// Only the low five bits of `bits` choose the register: masking them out
/// first changes nothing.
pub broadcast proof fn lemma_spec_reg_mask(bits: u32)
    ensures
        #[trigger] spec_reg(bits & 0x1f) == spec_reg(bits),
{
    assert((bits & 0x1f) & 0x1f == bits & 0x1f) by (bit_vector);
}

/// The index of `spec_reg(bits)` is exactly the low five bits of `bits`,
/// and in particular below 32.
pub broadcast proof fn lemma_spec_reg(bits: u32)
    ensures
        (#[trigger] spec_reg(bits)).spec_num() == bits & 0x1f,
        spec_reg(bits).spec_num() < 32,
{
    assert(bits & 0x1f < 32 && (bits & 0x1f) as u8 as u32 == bits & 0x1f) by (bit_vector);
}

/// A fully decoded RV32I instruction: one variant per supported mnemonic,
/// each carrying the operand record of its encoding format. ECALL and EBREAK
/// carry no payload.
#[derive(Clone, Debug, PartialEq, Eq, Hash)]
pub enum Instruction {
    ADDI(formats::IOperands),
    SLTI(formats::IOperands),
    SLTIU(formats::IOperands),
    ANDI(formats::IOperands),
    ORI(formats::IOperands),
    XORI(formats::IOperands),
    SLLI(formats::IOperands),
    SRLI(formats::IOperands),
    SRAI(formats::IOperands),
    LUI(formats::UOperands),
    AUIPC(formats::UOperands),
    ADD(formats::ROperands),
    SLT(formats::ROperands),
    SLTU(formats::ROperands),
    AND(formats::ROperands),
    OR(formats::ROperands),
    XOR(formats::ROperands),
    SLL(formats::ROperands),
    SRL(formats::ROperands),
    SRA(formats::ROperands),
    SUB(formats::ROperands),
    JAL(formats::JOperands),
    JALR(formats::IOperands),
    BEQ(formats::BOperands),
    BNE(formats::BOperands),
    BLT(formats::BOperands),
    BLTU(formats::BOperands),
    BGE(formats::BOperands),
    BGEU(formats::BOperands),
    LW(formats::IOperands),
    LH(formats::IOperands),
    LHU(formats::IOperands),
    LB(formats::IOperands),
    LBU(formats::IOperands),
    SW(formats::SOperands),
    SH(formats::SOperands),
    SB(formats::SOperands),
    ECALL,
    EBREAK,
    // Not implemented:
    //     FENCE FENCE.I
    //     CSRRW CSRRS CSRRC CSRRWI CSRRSI CSRRCI
    //     RDCYCLE RDCYCLEH RDTIME RDTIMEH RDINSTRET RDINSTRETH
}

/// Instructions sharing the OpImm opcode, selected by funct3; the two shift
/// mnemonics also require a canonical upper immediate.
pub open spec fn spec_decode_op_imm(bits: u32) -> Result<Instruction, Error> {
    let f = formats::extract_funct3(bits);
    let op = formats::spec_i_operands(bits);
    if f == 0b000 {
        Ok(Instruction::ADDI(op))
    } else if f == 0b010 {
        Ok(Instruction::SLTI(op))
    } else if f == 0b011 {
        Ok(Instruction::SLTIU(op))
    } else if f == 0b100 {
        Ok(Instruction::XORI(op))
    } else if f == 0b110 {
        Ok(Instruction::ORI(op))
    } else if f == 0b111 {
        Ok(Instruction::ANDI(op))
    } else if f == 0b001 && op.imm & 0b1111111_00000 == 0b0000000_00000 {
        Ok(Instruction::SLLI(op))
    } else if f == 0b101 && op.imm & 0b1111111_00000 == 0b0000000_00000 {
        Ok(Instruction::SRLI(op))
    } else if f == 0b101 && op.imm & 0b1111111_00000 == 0b0100000_00000 {
        Ok(Instruction::SRAI(op))
    } else {
        Err(Error::BadFunct)
    }
}

/// Instructions sharing the Op opcode, selected by funct3 and funct7 packed
/// into one funct value.
pub open spec fn spec_decode_op(bits: u32) -> Result<Instruction, Error> {
    let f = formats::extract_funct3(bits) | formats::extract_funct7(bits);
    let op = formats::spec_r_operands(bits);
    if f == 0b000 {
        Ok(Instruction::ADD(op))
    } else if f == 0b101 {
        Ok(Instruction::SRL(op))
    } else if f == 0b001 {
        Ok(Instruction::SLL(op))
    } else if f == 0b010 {
        Ok(Instruction::SLT(op))
    } else if f == 0b011 {
        Ok(Instruction::SLTU(op))
    } else if f == 0b100 {
        Ok(Instruction::XOR(op))
    } else if f == 0b110 {
        Ok(Instruction::OR(op))
    } else if f == 0b111 {
        Ok(Instruction::AND(op))
    } else if f == 0b0100000_000 {
        Ok(Instruction::SUB(op))
    } else if f == 0b0100000_101 {
        Ok(Instruction::SRA(op))
    } else {
        Err(Error::BadFunct)
    }
}

/// The six conditional branches, selected by funct3.
pub open spec fn spec_decode_branch(bits: u32) -> Result<Instruction, Error> {
    let f = formats::extract_funct3(bits);
    let op = formats::spec_b_operands(bits);
    if f == 0b000 {
        Ok(Instruction::BEQ(op))
    } else if f == 0b001 {
        Ok(Instruction::BNE(op))
    } else if f == 0b100 {
        Ok(Instruction::BLT(op))
    } else if f == 0b101 {
        Ok(Instruction::BGE(op))
    } else if f == 0b110 {
        Ok(Instruction::BLTU(op))
    } else if f == 0b111 {
        Ok(Instruction::BGEU(op))
    } else {
        Err(Error::BadFunct)
    }
}

/// The five loads, selected by funct3.
pub open spec fn spec_decode_load(bits: u32) -> Result<Instruction, Error> {
    let f = formats::extract_funct3(bits);
    let op = formats::spec_i_operands(bits);
    if f == 0b000 {
        Ok(Instruction::LB(op))
    } else if f == 0b001 {
        Ok(Instruction::LH(op))
    } else if f == 0b010 {
        Ok(Instruction::LW(op))
    } else if f == 0b100 {
        Ok(Instruction::LBU(op))
    } else if f == 0b101 {
        Ok(Instruction::LHU(op))
    } else {
        Err(Error::BadFunct)
    }
}

/// The three stores, selected by funct3.
pub open spec fn spec_decode_store(bits: u32) -> Result<Instruction, Error> {
    let f = formats::extract_funct3(bits);
    let op = formats::spec_s_operands(bits);
    if f == 0b000 {
        Ok(Instruction::SB(op))
    } else if f == 0b001 {
        Ok(Instruction::SH(op))
    } else if f == 0b010 {
        Ok(Instruction::SW(op))
    } else {
        Err(Error::BadFunct)
    }
}

/// ECALL and EBREAK: funct3, rs1 and rd must all be zero and the immediate
/// selects between the two.
pub open spec fn spec_decode_system(bits: u32) -> Result<Instruction, Error> {
    let f = formats::extract_funct3(bits);
    let op = formats::spec_i_operands(bits);
    if f == 0b000 && op.rs1.spec_num() == 0 && op.rd.spec_num() == 0 {
        if op.imm == 0 {
            Ok(Instruction::ECALL)
        } else if op.imm == 1 {
            Ok(Instruction::EBREAK)
        } else {
            Err(Error::BadFunct)
        }
    } else {
        Err(Error::BadFunct)
    }
}

/// What decoding an arbitrary 32-bit word yields: a recognized instruction,
/// or BadOpcode when the primary opcode is unknown, or BadFunct when the
/// funct fields select no supported instruction. This is the decoder's whole
/// behaviour; `decode` returns exactly this value.
pub open spec fn spec_decode(bits: u32) -> Result<Instruction, Error> {
    match spec_opcode(bits) {
        Option::None => Err(Error::BadOpcode),
        Option::Some(opcode) => match opcode {
            Opcode::OpImm => spec_decode_op_imm(bits),
            Opcode::Op => spec_decode_op(bits),
            Opcode::Lui => Ok(Instruction::LUI(formats::spec_u_operands(bits))),
            Opcode::Auipc => Ok(Instruction::AUIPC(formats::spec_u_operands(bits))),
            Opcode::Jal => Ok(Instruction::JAL(formats::spec_j_operands(bits))),
            Opcode::Jalr => Ok(Instruction::JALR(formats::spec_i_operands(bits))),
            Opcode::Branch => spec_decode_branch(bits),
            Opcode::Load => spec_decode_load(bits),
            Opcode::Store => spec_decode_store(bits),
            Opcode::System => spec_decode_system(bits),
        },
    }
}

pub fn decode(bits: u32) -> (r: Result<Instruction, Error>)
    ensures
        r == spec_decode(bits),
{
    match formats::Opcode::from_inst(bits)? {
        formats::Opcode::OpImm => {
            let inst = formats::decode_i(bits)?;
            match inst.funct {
                0b000 => Ok(Instruction::ADDI(inst.operands)),
                0b010 => Ok(Instruction::SLTI(inst.operands)),
                0b011 => Ok(Instruction::SLTIU(inst.operands)),
                0b100 => Ok(Instruction::XORI(inst.operands)),
                0b110 => Ok(Instruction::ORI(inst.operands)),
                0b111 => Ok(Instruction::ANDI(inst.operands)),
                0b001 if inst.operands.imm & 0b1111111_00000 == 0b0000000_00000 => Ok(
                    Instruction::SLLI(inst.operands),
                ),
                0b101 if inst.operands.imm & 0b1111111_00000 == 0b0000000_00000 => Ok(
                    Instruction::SRLI(inst.operands),
                ),
                0b101 if inst.operands.imm & 0b1111111_00000 == 0b0100000_00000 => Ok(
                    Instruction::SRAI(inst.operands),
                ),
                _ => Err(Error::BadFunct),
            }
        },
        formats::Opcode::Op => {
            let inst = formats::decode_r(bits)?;
            match inst.funct {
                0b000 => Ok(Instruction::ADD(inst.operands)),
                0b101 => Ok(Instruction::SRL(inst.operands)),
                0b001 => Ok(Instruction::SLL(inst.operands)),
                0b010 => Ok(Instruction::SLT(inst.operands)),
                0b011 => Ok(Instruction::SLTU(inst.operands)),
                0b100 => Ok(Instruction::XOR(inst.operands)),
                0b110 => Ok(Instruction::OR(inst.operands)),
                0b111 => Ok(Instruction::AND(inst.operands)),
                0b0100000_000 => Ok(Instruction::SUB(inst.operands)),
                0b0100000_101 => Ok(Instruction::SRA(inst.operands)),
                _ => Err(Error::BadFunct),
            }
        },
        formats::Opcode::Lui => {
            let inst = formats::decode_u(bits)?;
            Ok(Instruction::LUI(inst.operands))
        },
        formats::Opcode::Auipc => {
            let inst = formats::decode_u(bits)?;
            Ok(Instruction::AUIPC(inst.operands))
        },
        formats::Opcode::Jal => {
            let inst = formats::decode_j(bits)?;
            Ok(Instruction::JAL(inst.operands))
        },
        formats::Opcode::Jalr => {
            let inst = formats::decode_i(bits)?;
            Ok(Instruction::JALR(inst.operands))
        },
        formats::Opcode::Branch => {
            let inst = formats::decode_b(bits)?;
            match inst.funct {
                0b000 => Ok(Instruction::BEQ(inst.operands)),
                0b001 => Ok(Instruction::BNE(inst.operands)),
                0b100 => Ok(Instruction::BLT(inst.operands)),
                0b101 => Ok(Instruction::BGE(inst.operands)),
                0b110 => Ok(Instruction::BLTU(inst.operands)),
                0b111 => Ok(Instruction::BGEU(inst.operands)),
                _ => Err(Error::BadFunct),
            }
        },
        formats::Opcode::Load => {
            let inst = formats::decode_i(bits)?;
            match inst.funct {
                0b000 => Ok(Instruction::LB(inst.operands)),
                0b001 => Ok(Instruction::LH(inst.operands)),
                0b010 => Ok(Instruction::LW(inst.operands)),
                0b100 => Ok(Instruction::LBU(inst.operands)),
                0b101 => Ok(Instruction::LHU(inst.operands)),
                _ => Err(Error::BadFunct),
            }
        },
        formats::Opcode::Store => {
            let inst = formats::decode_s(bits)?;
            match inst.funct {
                0b000 => Ok(Instruction::SB(inst.operands)),
                0b001 => Ok(Instruction::SH(inst.operands)),
                0b010 => Ok(Instruction::SW(inst.operands)),
                _ => Err(Error::BadFunct),
            }
        },
        formats::Opcode::System => {
            let inst = formats::decode_i(bits)?;
            match inst.funct {
                0b000 if inst.operands.rs1.num() == 0 && inst.operands.rd.num() == 0 => {
                    match inst.operands.imm {
                        0 => Ok(Instruction::ECALL),
                        1 => Ok(Instruction::EBREAK),
                        _ => Err(Error::BadFunct),
                    }
                },
                _ => Err(Error::BadFunct),
            }
        },
    }
}

/// Whether every register field of an I-format operand record is in range.
pub open spec fn wf_i_operands(op: formats::IOperands) -> bool {
    op.rd.spec_num() < 32 && op.rs1.spec_num() < 32
}

/// Whether every register field of an R-format operand record is in range.
pub open spec fn wf_r_operands(op: formats::ROperands) -> bool {
    op.rd.spec_num() < 32 && op.rs1.spec_num() < 32 && op.rs2.spec_num() < 32
}

/// Whether every register field of an S-format operand record is in range.
pub open spec fn wf_s_operands(op: formats::SOperands) -> bool {
    op.rs1.spec_num() < 32 && op.rs2.spec_num() < 32
}

/// Whether every register field of a B-format operand record is in range.
pub open spec fn wf_b_operands(op: formats::BOperands) -> bool {
    op.rs1.spec_num() < 32 && op.rs2.spec_num() < 32
}

/// Whether every register field of a U-format operand record is in range.
pub open spec fn wf_u_operands(op: formats::UOperands) -> bool {
    op.rd.spec_num() < 32
}

/// Whether every register field of a J-format operand record is in range.
pub open spec fn wf_j_operands(op: formats::JOperands) -> bool {
    op.rd.spec_num() < 32
}

/// Whether every register an instruction names has an index below 32.
pub open spec fn wf_inst(inst: Instruction) -> bool {
    match inst {
        Instruction::ADDI(op) => wf_i_operands(op),
        Instruction::SLTI(op) => wf_i_operands(op),
        Instruction::SLTIU(op) => wf_i_operands(op),
        Instruction::ANDI(op) => wf_i_operands(op),
        Instruction::ORI(op) => wf_i_operands(op),
        Instruction::XORI(op) => wf_i_operands(op),
        Instruction::SLLI(op) => wf_i_operands(op),
        Instruction::SRLI(op) => wf_i_operands(op),
        Instruction::SRAI(op) => wf_i_operands(op),
        Instruction::LUI(op) => wf_u_operands(op),
        Instruction::AUIPC(op) => wf_u_operands(op),
        Instruction::ADD(op) => wf_r_operands(op),
        Instruction::SLT(op) => wf_r_operands(op),
        Instruction::SLTU(op) => wf_r_operands(op),
        Instruction::AND(op) => wf_r_operands(op),
        Instruction::OR(op) => wf_r_operands(op),
        Instruction::XOR(op) => wf_r_operands(op),
        Instruction::SLL(op) => wf_r_operands(op),
        Instruction::SRL(op) => wf_r_operands(op),
        Instruction::SRA(op) => wf_r_operands(op),
        Instruction::SUB(op) => wf_r_operands(op),
        Instruction::JAL(op) => wf_j_operands(op),
        Instruction::JALR(op) => wf_i_operands(op),
        Instruction::BEQ(op) => wf_b_operands(op),
        Instruction::BNE(op) => wf_b_operands(op),
        Instruction::BLT(op) => wf_b_operands(op),
        Instruction::BLTU(op) => wf_b_operands(op),
        Instruction::BGE(op) => wf_b_operands(op),
        Instruction::BGEU(op) => wf_b_operands(op),
        Instruction::LW(op) => wf_i_operands(op),
        Instruction::LH(op) => wf_i_operands(op),
        Instruction::LHU(op) => wf_i_operands(op),
        Instruction::LB(op) => wf_i_operands(op),
        Instruction::LBU(op) => wf_i_operands(op),
        Instruction::SW(op) => wf_s_operands(op),
        Instruction::SH(op) => wf_s_operands(op),
        Instruction::SB(op) => wf_s_operands(op),
        Instruction::ECALL => true,
        Instruction::EBREAK => true,
    }
}

/// Every register field of a decoded instruction is in range: a 32-bit word
/// can only name registers 0 through 31.
pub proof fn lemma_decode_wf(bits: u32)
    ensures
        spec_decode(bits) matches Ok(i) ==> wf_inst(i),
{
    broadcast use lemma_spec_reg;

}

/// Decoder totality: whatever the 32-bit word, decoding yields a recognized
/// instruction or reports BadOpcode or BadFunct; no other error can arise.
pub proof fn lemma_decode_total(bits: u32)
    ensures
        spec_decode(bits) is Ok || spec_decode(bits) == Err::<Instruction, Error>(Error::BadOpcode)
            || spec_decode(bits) == Err::<Instruction, Error>(Error::BadFunct),
{
}

} // verus!
