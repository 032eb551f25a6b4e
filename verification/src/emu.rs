use vstd::prelude::*;

use crate::decode::{decode, spec_decode, Instruction, Reg};
use crate::Error;

verus! {

/// The architectural state of one RV32I hart: a program counter, 31 stored
/// general-purpose registers (index 0 is hardwired to zero and never stored),
/// and a flat little-endian byte memory.
#[derive(Clone)]
pub struct Machine {
    pub pc: u32,
    iregs: [u32; 31],
    pub memory: Vec<u8>,
}

/// What a successful step reports: ordinary progress, an environment call
/// (ECALL), or a breakpoint (EBREAK). The latter two are outcomes for the
/// host to act on, not errors.
#[derive(Clone, Debug)]
pub enum StepOutcome {
    Running,
    Syscall,
    Breakpoint,
}

/// Whether an access of `size` bytes starting at `addr` stays inside a
/// memory of `mem_len` bytes: the last byte touched must neither overflow a
/// 32-bit address nor reach past the end.
pub open spec fn access_ok(addr: u32, size: nat, mem_len: nat) -> bool {
    addr + size - 1 <= u32::MAX && addr + size - 1 < mem_len
}

/// The byte stored at `addr`.
pub open spec fn spec_load8(mem: Seq<u8>, addr: u32) -> u8 {
    mem[addr as int]
}

/// The little-endian halfword stored at `addr`.
pub open spec fn spec_load16(mem: Seq<u8>, addr: u32) -> u16 {
    (mem[addr as int] as u16) | ((mem[addr + 1] as u16) << 8)
}

/// The little-endian word stored at `addr`.
pub open spec fn spec_load32(mem: Seq<u8>, addr: u32) -> u32 {
    (mem[addr as int] as u32) | ((mem[addr + 1] as u32) << 8) | ((mem[addr + 2] as u32) << 16) | ((
    mem[addr + 3] as u32) << 24)
}

/// Memory after one byte is stored at `addr`.
pub open spec fn spec_store8(mem: Seq<u8>, addr: u32, val: u8) -> Seq<u8> {
    mem.update(addr as int, val)
}

/// Memory after a halfword is stored little-endian at `addr`.
pub open spec fn spec_store16(mem: Seq<u8>, addr: u32, val: u16) -> Seq<u8> {
    mem.update(addr as int, (val & 0xff) as u8).update(addr + 1, ((val >> 8) & 0xff) as u8)
}

/// Memory after a word is stored little-endian at `addr`.
pub open spec fn spec_store32(mem: Seq<u8>, addr: u32, val: u32) -> Seq<u8> {
    mem.update(addr as int, (val & 0xff) as u8).update(addr + 1, ((val >> 8) & 0xff) as u8).update(
        addr + 2,
        ((val >> 16) & 0xff) as u8,
    ).update(addr + 3, ((val >> 24) & 0xff) as u8)
}

/// The register file as the architecture sees it: 32 entries, entry 0 always
/// zero.
pub open spec fn spec_regs_of(iregs: Seq<u32>) -> Seq<u32> {
    Seq::new(32, |i: int| if i == 0 { 0u32 } else { iregs[i - 1] })
}

/// Writing the register file: a store to register 0 is discarded, any other
/// store replaces that entry alone.
pub open spec fn spec_set_reg(regs: Seq<u32>, n: u8, val: u32) -> Seq<u32> {
    if n == 0 {
        regs
    } else {
        regs.update(n as int, val)
    }
}

/// The ASCII code of one hex nibble, upper case.
pub open spec fn hex_digit(d: u32) -> u8 {
    if d < 10 {
        (0x30 + d) as u8  // '0' through '9'
    } else {
        (0x37 + d) as u8  // 'A' through 'F'
    }
}

/// Nibble `k` of `v`, counting from the least significant.
pub open spec fn nibble(v: u32, k: int) -> u32 {
    (v >> ((4 * k) as u32)) & 0xf
}

/// A 32-bit value as eight upper-case hex digits, most significant first.
pub open spec fn spec_hex32(v: u32) -> Seq<u8> {
    Seq::new(8, |i: int| hex_digit(nibble(v, 7 - i)))
}

/// The label of one register cell: `R`, the register number left-aligned in
/// two columns, a colon and a space.
pub open spec fn spec_reg_label(i: u32) -> Seq<u8> {
    if i < 10 {
        seq![0x52u8, (0x30 + i) as u8, 0x20u8, 0x3au8, 0x20u8]  // "Rn : "
    } else {
        seq![0x52u8, (0x30 + i / 10) as u8, (0x30 + i % 10) as u8, 0x3au8, 0x20u8]  // "Rnn: "
    }
}

/// One register cell of the dump: its label, its value in hex, four spaces,
/// and a line break after every fourth register.
pub open spec fn spec_dump_entry(i: u32, v: u32) -> Seq<u8> {
    spec_reg_label(i) + spec_hex32(v) + seq![0x20u8, 0x20u8, 0x20u8, 0x20u8] + (if i % 4 == 3 {
        seq![0x0au8]
    } else {
        Seq::<u8>::empty()
    })
}

/// The first `n` register cells of the dump, in order.
pub open spec fn spec_dump_entries(regs: Seq<u32>, n: int) -> Seq<u8>
    decreases n,
{
    if n <= 0 {
        Seq::empty()
    } else {
        spec_dump_entries(regs, n - 1) + spec_dump_entry((n - 1) as u32, regs[n - 1])
    }
}

/// The dump's first line: `PC : `, the counter in hex, and a line break.
pub open spec fn spec_dump_header(pc: u32) -> Seq<u8> {
    seq![0x50u8, 0x43u8, 0x20u8, 0x3au8, 0x20u8] + spec_hex32(pc) + seq![0x0au8]  // "PC : "
}

/// The whole register dump: the header line, then all 32 registers.
pub open spec fn spec_dump(s: State) -> Seq<u8> {
    spec_dump_header(s.pc) + spec_dump_entries(s.regs, 32)
}

/// A snapshot of the architectural state, for specifications: the program
/// counter, the 32-entry register file (entry 0 always zero), and the byte
/// memory.
pub ghost struct State {
    pub pc: u32,
    pub regs: Seq<u32>,
    pub mem: Seq<u8>,
}

/// The value of register `r` in state `s`.
pub open spec fn reg_of(s: State, r: Reg) -> u32 {
    s.regs[r.spec_num() as int]
}

/// The state after an instruction writes `val` to `rd` and continues at
/// `next_pc`; a write to register 0 is discarded.
pub open spec fn write_rd(s: State, next_pc: u32, rd: Reg, val: u32) -> State {
    State { pc: next_pc, regs: spec_set_reg(s.regs, rd.spec_num(), val), mem: s.mem }
}

/// The state after a branch: pc moves by the immediate when the condition
/// held, else past the instruction; registers and memory are untouched.
pub open spec fn spec_branch(s: State, taken: bool, imm: u32) -> State {
    State {
        pc: if taken {
            s.pc.wrapping_add(imm)
        } else {
            s.pc.wrapping_add(4)
        },
        regs: s.regs,
        mem: s.mem,
    }
}

/// The shift amount an RV32I shift uses: the low five bits of the operand.
pub open spec fn spec_shamt(y: u32) -> u32 {
    y & 0x1f
}

/// Logical left shift by the low five bits of `y`.
pub open spec fn spec_sll(x: u32, y: u32) -> u32 {
    x << spec_shamt(y)
}

/// Logical right shift by the low five bits of `y`.
pub open spec fn spec_srl(x: u32, y: u32) -> u32 {
    x >> spec_shamt(y)
}

/// Arithmetic right shift by the low five bits of `y`: the sign bit is
/// replicated into the vacated positions.
pub open spec fn spec_sra(x: u32, y: u32) -> u32 {
    (((x as i32) >> spec_shamt(y)) as u32)
}

/// Whether BEQ branches: the operands are equal.
pub open spec fn beq_taken(x: u32, y: u32) -> bool {
    x == y
}

/// Whether BNE branches: the operands differ.
pub open spec fn bne_taken(x: u32, y: u32) -> bool {
    x != y
}

/// Whether BLT branches: x is below y, both read as two's-complement.
pub open spec fn blt_taken(x: u32, y: u32) -> bool {
    (x as i32) < (y as i32)
}

/// Whether BGE branches: x is at least y, both read as two's-complement.
pub open spec fn bge_taken(x: u32, y: u32) -> bool {
    (x as i32) >= (y as i32)
}

/// Whether BLTU branches: x is below y, both read as unsigned.
pub open spec fn bltu_taken(x: u32, y: u32) -> bool {
    x < y
}

/// Whether BGEU branches: x is at least y, both read as unsigned.
pub open spec fn bgeu_taken(x: u32, y: u32) -> bool {
    x >= y
}

/// 1 when x is below y as two's-complement values, else 0.
pub open spec fn spec_slt(x: u32, y: u32) -> u32 {
    if blt_taken(x, y) {
        1u32
    } else {
        0u32
    }
}

/// 1 when x is below y as unsigned values, else 0.
pub open spec fn spec_sltu(x: u32, y: u32) -> u32 {
    if bltu_taken(x, y) {
        1u32
    } else {
        0u32
    }
}

/// A byte sign-extended to 32 bits.
pub open spec fn sext8(b: u8) -> u32 {
    (((b as i8) as i32) as u32)
}

/// A halfword sign-extended to 32 bits.
pub open spec fn sext16(h: u16) -> u32 {
    (((h as i16) as i32) as u32)
}

/// What executing one decoded instruction does to the state: the successor
/// state and the outcome to report, or the memory fault that leaves the
/// state untouched. This is the whole of the RV32I semantics this core
/// implements; `Machine::step` commits exactly this.
pub open spec fn spec_exec(s: State, inst: Instruction) -> Result<(State, StepOutcome), Error> {
    let next = s.pc.wrapping_add(4);
    match inst {
        Instruction::ADDI(op) => Ok(
            (write_rd(s, next, op.rd, reg_of(s, op.rs1).wrapping_add(op.imm)), StepOutcome::Running),
        ),
        Instruction::ANDI(op) => Ok(
            (write_rd(s, next, op.rd, reg_of(s, op.rs1) & op.imm), StepOutcome::Running),
        ),
        Instruction::ORI(op) => Ok(
            (write_rd(s, next, op.rd, reg_of(s, op.rs1) | op.imm), StepOutcome::Running),
        ),
        Instruction::XORI(op) => Ok(
            (write_rd(s, next, op.rd, reg_of(s, op.rs1) ^ op.imm), StepOutcome::Running),
        ),
        Instruction::SLLI(op) => Ok(
            (write_rd(s, next, op.rd, spec_sll(reg_of(s, op.rs1), op.imm)), StepOutcome::Running),
        ),
        Instruction::SRLI(op) => Ok(
            (write_rd(s, next, op.rd, spec_srl(reg_of(s, op.rs1), op.imm)), StepOutcome::Running),
        ),
        Instruction::SRAI(op) => Ok(
            (write_rd(s, next, op.rd, spec_sra(reg_of(s, op.rs1), op.imm)), StepOutcome::Running),
        ),
        Instruction::SLTI(op) => Ok(
            (write_rd(s, next, op.rd, spec_slt(reg_of(s, op.rs1), op.imm)), StepOutcome::Running),
        ),
        Instruction::SLTIU(op) => Ok(
            (write_rd(s, next, op.rd, spec_sltu(reg_of(s, op.rs1), op.imm)), StepOutcome::Running),
        ),
        Instruction::ADD(op) => Ok(
            (
                write_rd(s, next, op.rd, reg_of(s, op.rs1).wrapping_add(reg_of(s, op.rs2))),
                StepOutcome::Running,
            ),
        ),
        Instruction::SUB(op) => Ok(
            (
                write_rd(s, next, op.rd, reg_of(s, op.rs1).wrapping_sub(reg_of(s, op.rs2))),
                StepOutcome::Running,
            ),
        ),
        Instruction::AND(op) => Ok(
            (write_rd(s, next, op.rd, reg_of(s, op.rs1) & reg_of(s, op.rs2)), StepOutcome::Running),
        ),
        Instruction::OR(op) => Ok(
            (write_rd(s, next, op.rd, reg_of(s, op.rs1) | reg_of(s, op.rs2)), StepOutcome::Running),
        ),
        Instruction::XOR(op) => Ok(
            (write_rd(s, next, op.rd, reg_of(s, op.rs1) ^ reg_of(s, op.rs2)), StepOutcome::Running),
        ),
        Instruction::SLL(op) => Ok(
            (
                write_rd(s, next, op.rd, spec_sll(reg_of(s, op.rs1), reg_of(s, op.rs2))),
                StepOutcome::Running,
            ),
        ),
        Instruction::SRL(op) => Ok(
            (
                write_rd(s, next, op.rd, spec_srl(reg_of(s, op.rs1), reg_of(s, op.rs2))),
                StepOutcome::Running,
            ),
        ),
        Instruction::SRA(op) => Ok(
            (
                write_rd(s, next, op.rd, spec_sra(reg_of(s, op.rs1), reg_of(s, op.rs2))),
                StepOutcome::Running,
            ),
        ),
        Instruction::SLT(op) => Ok(
            (
                write_rd(s, next, op.rd, spec_slt(reg_of(s, op.rs1), reg_of(s, op.rs2))),
                StepOutcome::Running,
            ),
        ),
        Instruction::SLTU(op) => Ok(
            (
                write_rd(s, next, op.rd, spec_sltu(reg_of(s, op.rs1), reg_of(s, op.rs2))),
                StepOutcome::Running,
            ),
        ),
        Instruction::LUI(op) => Ok((write_rd(s, next, op.rd, op.imm), StepOutcome::Running)),
        Instruction::AUIPC(op) => Ok(
            (write_rd(s, next, op.rd, op.imm.wrapping_add(s.pc)), StepOutcome::Running),
        ),
        Instruction::JAL(op) => Ok(
            (write_rd(s, s.pc.wrapping_add(op.imm), op.rd, next), StepOutcome::Running),
        ),
        Instruction::JALR(op) => {
            // The link register is written first; a JALR whose rs1 equals its
            // rd therefore jumps relative to the freshly written link value.
            let regs2 = spec_set_reg(s.regs, op.rd.spec_num(), next);
            let target = regs2[op.rs1.spec_num() as int].wrapping_add(op.imm) & !1u32;
            Ok((State { pc: target, regs: regs2, mem: s.mem }, StepOutcome::Running))
        },
        Instruction::BEQ(op) => Ok(
            (
                spec_branch(s, beq_taken(reg_of(s, op.rs1), reg_of(s, op.rs2)), op.imm),
                StepOutcome::Running,
            ),
        ),
        Instruction::BNE(op) => Ok(
            (
                spec_branch(s, bne_taken(reg_of(s, op.rs1), reg_of(s, op.rs2)), op.imm),
                StepOutcome::Running,
            ),
        ),
        Instruction::BLT(op) => Ok(
            (
                spec_branch(s, blt_taken(reg_of(s, op.rs1), reg_of(s, op.rs2)), op.imm),
                StepOutcome::Running,
            ),
        ),
        Instruction::BGE(op) => Ok(
            (
                spec_branch(s, bge_taken(reg_of(s, op.rs1), reg_of(s, op.rs2)), op.imm),
                StepOutcome::Running,
            ),
        ),
        Instruction::BLTU(op) => Ok(
            (
                spec_branch(s, bltu_taken(reg_of(s, op.rs1), reg_of(s, op.rs2)), op.imm),
                StepOutcome::Running,
            ),
        ),
        Instruction::BGEU(op) => Ok(
            (
                spec_branch(s, bgeu_taken(reg_of(s, op.rs1), reg_of(s, op.rs2)), op.imm),
                StepOutcome::Running,
            ),
        ),
        Instruction::LW(op) => {
            let addr = reg_of(s, op.rs1).wrapping_add(op.imm);
            if access_ok(addr, 4, s.mem.len()) {
                Ok((write_rd(s, next, op.rd, spec_load32(s.mem, addr)), StepOutcome::Running))
            } else {
                Err(Error::MemoryOutOfBounds)
            }
        },
        Instruction::LH(op) => {
            let addr = reg_of(s, op.rs1).wrapping_add(op.imm);
            if access_ok(addr, 2, s.mem.len()) {
                Ok(
                    (
                        write_rd(s, next, op.rd, sext16(spec_load16(s.mem, addr))),
                        StepOutcome::Running,
                    ),
                )
            } else {
                Err(Error::MemoryOutOfBounds)
            }
        },
        Instruction::LHU(op) => {
            let addr = reg_of(s, op.rs1).wrapping_add(op.imm);
            if access_ok(addr, 2, s.mem.len()) {
                Ok(
                    (
                        write_rd(s, next, op.rd, spec_load16(s.mem, addr) as u32),
                        StepOutcome::Running,
                    ),
                )
            } else {
                Err(Error::MemoryOutOfBounds)
            }
        },
        Instruction::LB(op) => {
            let addr = reg_of(s, op.rs1).wrapping_add(op.imm);
            if access_ok(addr, 1, s.mem.len()) {
                Ok(
                    (
                        write_rd(s, next, op.rd, sext8(spec_load8(s.mem, addr))),
                        StepOutcome::Running,
                    ),
                )
            } else {
                Err(Error::MemoryOutOfBounds)
            }
        },
        Instruction::LBU(op) => {
            let addr = reg_of(s, op.rs1).wrapping_add(op.imm);
            if access_ok(addr, 1, s.mem.len()) {
                Ok(
                    (write_rd(s, next, op.rd, spec_load8(s.mem, addr) as u32), StepOutcome::Running),
                )
            } else {
                Err(Error::MemoryOutOfBounds)
            }
        },
        Instruction::SW(op) => {
            let addr = reg_of(s, op.rs1).wrapping_add(op.imm);
            if access_ok(addr, 4, s.mem.len()) {
                Ok(
                    (
                        State {
                            pc: next,
                            regs: s.regs,
                            mem: spec_store32(s.mem, addr, reg_of(s, op.rs2)),
                        },
                        StepOutcome::Running,
                    ),
                )
            } else {
                Err(Error::MemoryOutOfBounds)
            }
        },
        Instruction::SH(op) => {
            let addr = reg_of(s, op.rs1).wrapping_add(op.imm);
            if access_ok(addr, 2, s.mem.len()) {
                Ok(
                    (
                        State {
                            pc: next,
                            regs: s.regs,
                            mem: spec_store16(
                                s.mem,
                                addr,
                                ((reg_of(s, op.rs2) & 0xFFFF) as u16),
                            ),
                        },
                        StepOutcome::Running,
                    ),
                )
            } else {
                Err(Error::MemoryOutOfBounds)
            }
        },
        Instruction::SB(op) => {
            let addr = reg_of(s, op.rs1).wrapping_add(op.imm);
            if access_ok(addr, 1, s.mem.len()) {
                Ok(
                    (
                        State {
                            pc: next,
                            regs: s.regs,
                            mem: spec_store8(s.mem, addr, ((reg_of(s, op.rs2) & 0xFF) as u8)),
                        },
                        StepOutcome::Running,
                    ),
                )
            } else {
                Err(Error::MemoryOutOfBounds)
            }
        },
        Instruction::ECALL => Ok(
            (State { pc: next, regs: s.regs, mem: s.mem }, StepOutcome::Syscall),
        ),
        Instruction::EBREAK => Ok(
            (State { pc: next, regs: s.regs, mem: s.mem }, StepOutcome::Breakpoint),
        ),
    }
}

/// One whole fetch-decode-execute cycle on a state: the fetch may fault, the
/// decode may reject the word, and the execution is `spec_exec`. Any error
/// leaves the state untouched.
pub open spec fn spec_step(s: State) -> Result<(State, StepOutcome), Error> {
    if !access_ok(s.pc, 4, s.mem.len()) {
        Err(Error::MemoryOutOfBounds)
    } else {
        match spec_decode(spec_load32(s.mem, s.pc)) {
            Ok(inst) => spec_exec(s, inst),
            Err(e) => Err(e),
        }
    }
}

impl Machine {
    /// The program counter, as a specification-level value.
    pub closed spec fn spec_pc(self) -> u32 {
        self.pc
    }

    /// The register file of this machine: 32 values, entry 0 always zero.
    pub closed spec fn regs(self) -> Seq<u32> {
        spec_regs_of(self.iregs@)
    }

    /// The byte memory of this machine.
    pub closed spec fn mem(self) -> Seq<u8> {
        self.memory@
    }

    /// The whole architectural state of this machine, as one snapshot.
    pub open spec fn state(self) -> State {
        State { pc: self.spec_pc(), regs: self.regs(), mem: self.mem() }
    }

    /// The textual register dump, as ASCII bytes: a `PC : XXXXXXXX` line,
    /// then the 32 registers as `Rnn: XXXXXXXX` cells, four to a line.
    /// Writing it somewhere is the caller's business.
    pub fn dump(&self) -> (out: Vec<u8>)
        ensures
            out@ == spec_dump(self.state()),
    {
        let mut out: Vec<u8> = Vec::new();
        out.push(0x50);  // 'P'
        out.push(0x43);  // 'C'
        out.push(0x20);
        out.push(0x3a);  // ':'
        out.push(0x20);
        push_hex32(&mut out, self.pc);
        out.push(0x0a);
        proof {
            assert(out@ =~= spec_dump_header(self.spec_pc()) + spec_dump_entries(
                self.state().regs,
                0,
            ));
        }
        let mut i: u32 = 0;
        while i < 32
            invariant
                i <= 32,
                out@ == spec_dump_header(self.spec_pc()) + spec_dump_entries(
                    self.state().regs,
                    i as int,
                ),
            decreases 32 - i,
        {
            out.push(0x52);  // 'R'
            if i < 10 {
                out.push((0x30 + i) as u8);
                out.push(0x20);
            } else {
                out.push((0x30 + i / 10) as u8);
                out.push((0x30 + i % 10) as u8);
            }
            out.push(0x3a);  // ':'
            out.push(0x20);
            let reg = match Reg::new(i) {
                Ok(reg) => reg,
                Err(_) => {
                    return out;  // unreachable: i < 32
                },
            };
            let v = self.get_reg(reg);
            push_hex32(&mut out, v);
            out.push(0x20);
            out.push(0x20);
            out.push(0x20);
            out.push(0x20);
            if i % 4 == 3 {
                out.push(0x0a);
            }
            proof {
                crate::decode::lemma_spec_reg(i);
                assert(i < 32 ==> i & 0x1f == i) by (bit_vector);
                assert(spec_dump_entries(self.state().regs, i + 1int) =~= spec_dump_entries(
                    self.state().regs,
                    i as int,
                ) + spec_dump_entry(i, self.state().regs[i as int]));
                assert(out@ =~= spec_dump_header(self.spec_pc()) + spec_dump_entries(
                    self.state().regs,
                    i + 1int,
                ));
            }
            i = i + 1;
        }
        out
    }

    pub fn with_memory(size: usize) -> (m: Machine)
        ensures
            m.spec_pc() == 0,
            m.regs() =~= Seq::new(32, |i: int| 0u32),
            m.mem() =~= Seq::new(size as nat, |i: int| 0u8),
    {
        Machine { pc: 0, iregs: [0; 31], memory: vec![0u8; size] }
    }

    pub fn load8(&self, addr: u32) -> (r: Result<u8, Error>)
        ensures
            access_ok(addr, 1, self.mem().len()) ==> r == Ok::<u8, Error>(
                spec_load8(self.mem(), addr),
            ),
            !access_ok(addr, 1, self.mem().len()) ==> r == Err::<u8, Error>(
                Error::MemoryOutOfBounds,
            ),
    {
        if addr as usize >= self.memory.len() {
            return Err(Error::MemoryOutOfBounds);
        }
        Ok(self.memory[addr as usize])
    }

    pub fn load16(&self, addr: u32) -> (r: Result<u16, Error>)
        ensures
            access_ok(addr, 2, self.mem().len()) ==> r == Ok::<u16, Error>(
                spec_load16(self.mem(), addr),
            ),
            !access_ok(addr, 2, self.mem().len()) ==> r == Err::<u16, Error>(
                Error::MemoryOutOfBounds,
            ),
    {
        if let Some(last_addr) = addr.checked_add(1) {
            if (last_addr as usize) < self.memory.len() {
                return Ok(
                    (self.memory[addr as usize] as u16) | ((self.memory[(addr + 1) as usize]
                        as u16) << 8u32),
                );
            }
        }
        Err(Error::MemoryOutOfBounds)
    }

    pub fn load32(&self, addr: u32) -> (r: Result<u32, Error>)
        ensures
            access_ok(addr, 4, self.mem().len()) ==> r == Ok::<u32, Error>(
                spec_load32(self.mem(), addr),
            ),
            !access_ok(addr, 4, self.mem().len()) ==> r == Err::<u32, Error>(
                Error::MemoryOutOfBounds,
            ),
    {
        if let Some(last_addr) = addr.checked_add(3) {
            if (last_addr as usize) < self.memory.len() {
                return Ok(
                    (self.memory[addr as usize] as u32) | ((self.memory[(addr + 1) as usize]
                        as u32) << 8u32) | ((self.memory[(addr + 2) as usize] as u32) << 16u32) | ((
                    self.memory[(addr + 3) as usize] as u32) << 24u32),
                );
            }
        }
        Err(Error::MemoryOutOfBounds)
    }

    pub fn store8(&mut self, addr: u32, val: u8) -> (r: Result<(), Error>)
        ensures
            final(self).spec_pc() == old(self).spec_pc(),
            final(self).regs() == old(self).regs(),
            access_ok(addr, 1, old(self).mem().len()) ==> r == Ok::<(), Error>(())
                && final(self).mem() == spec_store8(old(self).mem(), addr, val),
            !access_ok(addr, 1, old(self).mem().len()) ==> r == Err::<(), Error>(
                Error::MemoryOutOfBounds,
            ) && final(self).mem() == old(self).mem(),
    {
        if addr as usize >= self.memory.len() {
            return Err(Error::MemoryOutOfBounds);
        }
        self.memory[addr as usize] = val;
        Ok(())
    }

    pub fn store16(&mut self, addr: u32, val: u16) -> (r: Result<(), Error>)
        ensures
            final(self).spec_pc() == old(self).spec_pc(),
            final(self).regs() == old(self).regs(),
            access_ok(addr, 2, old(self).mem().len()) ==> r == Ok::<(), Error>(())
                && final(self).mem() == spec_store16(old(self).mem(), addr, val),
            !access_ok(addr, 2, old(self).mem().len()) ==> r == Err::<(), Error>(
                Error::MemoryOutOfBounds,
            ) && final(self).mem() == old(self).mem(),
    {
        if let Some(last_addr) = addr.checked_add(1) {
            if (last_addr as usize) < self.memory.len() {
                self.memory[addr as usize] = (val & 0xFF) as u8;
                self.memory[(addr + 1) as usize] = ((val >> 8u32) & 0xFF) as u8;
                return Ok(());
            }
        }
        Err(Error::MemoryOutOfBounds)
    }

    pub fn store32(&mut self, addr: u32, val: u32) -> (r: Result<(), Error>)
        ensures
            final(self).spec_pc() == old(self).spec_pc(),
            final(self).regs() == old(self).regs(),
            access_ok(addr, 4, old(self).mem().len()) ==> r == Ok::<(), Error>(())
                && final(self).mem() == spec_store32(old(self).mem(), addr, val),
            !access_ok(addr, 4, old(self).mem().len()) ==> r == Err::<(), Error>(
                Error::MemoryOutOfBounds,
            ) && final(self).mem() == old(self).mem(),
    {
        if let Some(last_addr) = addr.checked_add(3) {
            if (last_addr as usize) < self.memory.len() {
                self.memory[addr as usize] = (val & 0xFF) as u8;
                self.memory[(addr + 1) as usize] = ((val >> 8u32) & 0xFF) as u8;
                self.memory[(addr + 2) as usize] = ((val >> 16u32) & 0xFF) as u8;
                self.memory[(addr + 3) as usize] = ((val >> 24u32) & 0xFF) as u8;
                return Ok(());
            }
        }
        Err(Error::MemoryOutOfBounds)
    }

    pub fn get_reg(&self, reg: Reg) -> (r: u32)
        ensures
            r == self.regs()[reg.spec_num() as int],
    {
        proof {
            use_type_invariant(&reg);
        }
        let n = reg.num();
        if n == 0 {
            0
        } else {
            self.iregs[(n - 1) as usize]
        }
    }

    pub fn set_reg(&mut self, reg: Reg, val: u32)
        ensures
            final(self).spec_pc() == old(self).spec_pc(),
            final(self).mem() == old(self).mem(),
            final(self).regs() == spec_set_reg(old(self).regs(), reg.spec_num(), val),
    {
        proof {
            use_type_invariant(&reg);
        }
        let n = reg.num();
        if n > 0 {
            self.iregs[(n - 1) as usize] = val;
        }
        proof {
            assert(self.regs() =~= spec_set_reg(old(self).regs(), reg.spec_num(), val));
        }
    }

    pub fn step(&mut self) -> (r: Result<StepOutcome, Error>)
        ensures
            match spec_step(old(self).state()) {
                Ok(res) => r == Ok::<StepOutcome, Error>(res.1) && final(self).state() == res.0,
                Err(e) => r == Err::<StepOutcome, Error>(e) && final(self).state() == old(
                    self,
                ).state(),
            },
    {
        let mut next_pc = self.pc.wrapping_add(4);
        let mut outcome = StepOutcome::Running;
        let word = self.load32(self.pc)?;
        match decode(word)? {
            Instruction::ADDI(op) => {
                let v = self.get_reg(op.rs1).wrapping_add(op.imm);
                self.set_reg(op.rd, v);
            },
            Instruction::ANDI(op) => {
                let v = self.get_reg(op.rs1) & op.imm;
                self.set_reg(op.rd, v);
            },
            Instruction::ORI(op) => {
                let v = self.get_reg(op.rs1) | op.imm;
                self.set_reg(op.rd, v);
            },
            Instruction::XORI(op) => {
                let v = self.get_reg(op.rs1) ^ op.imm;
                self.set_reg(op.rd, v);
            },
            Instruction::SLLI(op) => {
                let v = self.get_reg(op.rs1) << shamt(op.imm);
                self.set_reg(op.rd, v);
            },
            Instruction::SRLI(op) => {
                let v = self.get_reg(op.rs1) >> shamt(op.imm);
                self.set_reg(op.rd, v);
            },
            Instruction::SRAI(op) => {
                let v = ((self.get_reg(op.rs1) as i32) >> shamt(op.imm)) as u32;
                self.set_reg(op.rd, v);
            },
            Instruction::SLTI(op) => {
                let v: u32 = if (self.get_reg(op.rs1) as i32) < (op.imm as i32) {
                    1
                } else {
                    0
                };
                self.set_reg(op.rd, v);
            },
            Instruction::SLTIU(op) => {
                let v: u32 = if self.get_reg(op.rs1) < op.imm {
                    1
                } else {
                    0
                };
                self.set_reg(op.rd, v);
            },
            Instruction::ADD(op) => {
                let v = self.get_reg(op.rs1).wrapping_add(self.get_reg(op.rs2));
                self.set_reg(op.rd, v);
            },
            Instruction::SUB(op) => {
                let v = self.get_reg(op.rs1).wrapping_sub(self.get_reg(op.rs2));
                self.set_reg(op.rd, v);
            },
            Instruction::AND(op) => {
                let v = self.get_reg(op.rs1) & self.get_reg(op.rs2);
                self.set_reg(op.rd, v);
            },
            Instruction::OR(op) => {
                let v = self.get_reg(op.rs1) | self.get_reg(op.rs2);
                self.set_reg(op.rd, v);
            },
            Instruction::XOR(op) => {
                let v = self.get_reg(op.rs1) ^ self.get_reg(op.rs2);
                self.set_reg(op.rd, v);
            },
            // The base ISA takes a register-register shift amount from the
            // low five bits of rs2.
            Instruction::SLL(op) => {
                let v = self.get_reg(op.rs1) << shamt(self.get_reg(op.rs2));
                self.set_reg(op.rd, v);
            },
            Instruction::SRL(op) => {
                let v = self.get_reg(op.rs1) >> shamt(self.get_reg(op.rs2));
                self.set_reg(op.rd, v);
            },
            Instruction::SRA(op) => {
                let v = ((self.get_reg(op.rs1) as i32) >> shamt(self.get_reg(op.rs2))) as u32;
                self.set_reg(op.rd, v);
            },
            Instruction::SLT(op) => {
                let v: u32 = if (self.get_reg(op.rs1) as i32) < (self.get_reg(op.rs2) as i32) {
                    1
                } else {
                    0
                };
                self.set_reg(op.rd, v);
            },
            Instruction::SLTU(op) => {
                let v: u32 = if self.get_reg(op.rs1) < self.get_reg(op.rs2) {
                    1
                } else {
                    0
                };
                self.set_reg(op.rd, v);
            },
            Instruction::LUI(op) => {
                self.set_reg(op.rd, op.imm);
            },
            Instruction::AUIPC(op) => {
                let res = op.imm.wrapping_add(self.pc);
                self.set_reg(op.rd, res);
            },
            Instruction::JAL(op) => {
                self.set_reg(op.rd, next_pc);
                next_pc = self.pc.wrapping_add(op.imm);
            },
            Instruction::JALR(op) => {
                self.set_reg(op.rd, next_pc);
                next_pc = self.get_reg(op.rs1).wrapping_add(op.imm) & !1u32;
            },
            Instruction::BEQ(op) => {
                if self.get_reg(op.rs1) == self.get_reg(op.rs2) {
                    next_pc = self.pc.wrapping_add(op.imm);
                }
            },
            Instruction::BNE(op) => {
                if self.get_reg(op.rs1) != self.get_reg(op.rs2) {
                    next_pc = self.pc.wrapping_add(op.imm);
                }
            },
            Instruction::BLT(op) => {
                if (self.get_reg(op.rs1) as i32) < (self.get_reg(op.rs2) as i32) {
                    next_pc = self.pc.wrapping_add(op.imm);
                }
            },
            Instruction::BLTU(op) => {
                if self.get_reg(op.rs1) < self.get_reg(op.rs2) {
                    next_pc = self.pc.wrapping_add(op.imm);
                }
            },
            Instruction::BGE(op) => {
                if (self.get_reg(op.rs1) as i32) >= (self.get_reg(op.rs2) as i32) {
                    next_pc = self.pc.wrapping_add(op.imm);
                }
            },
            Instruction::BGEU(op) => {
                if self.get_reg(op.rs1) >= self.get_reg(op.rs2) {
                    next_pc = self.pc.wrapping_add(op.imm);
                }
            },
            Instruction::LW(op) => {
                let addr = self.get_reg(op.rs1).wrapping_add(op.imm);
                let val = self.load32(addr)?;
                self.set_reg(op.rd, val);
            },
            Instruction::LH(op) => {
                let addr = self.get_reg(op.rs1).wrapping_add(op.imm);
                let val = self.load16(addr)? as i16;
                self.set_reg(op.rd, val as i32 as u32);
            },
            Instruction::LHU(op) => {
                let addr = self.get_reg(op.rs1).wrapping_add(op.imm);
                let val = self.load16(addr)?;
                self.set_reg(op.rd, val as u32);
            },
            Instruction::LB(op) => {
                let addr = self.get_reg(op.rs1).wrapping_add(op.imm);
                let val = self.load8(addr)? as i8;
                self.set_reg(op.rd, val as i32 as u32);
            },
            Instruction::LBU(op) => {
                let addr = self.get_reg(op.rs1).wrapping_add(op.imm);
                let val = self.load8(addr)?;
                self.set_reg(op.rd, val as u32);
            },
            Instruction::SW(op) => {
                let addr = self.get_reg(op.rs1).wrapping_add(op.imm);
                let val = self.get_reg(op.rs2);
                self.store32(addr, val)?;
            },
            Instruction::SH(op) => {
                let addr = self.get_reg(op.rs1).wrapping_add(op.imm);
                let val = self.get_reg(op.rs2) & 0xFFFF;
                self.store16(addr, val as u16)?;
            },
            Instruction::SB(op) => {
                let addr = self.get_reg(op.rs1).wrapping_add(op.imm);
                let val = self.get_reg(op.rs2) & 0xFF;
                self.store8(addr, val as u8)?;
            },
            Instruction::ECALL => {
                outcome = StepOutcome::Syscall;
            },
            Instruction::EBREAK => {
                outcome = StepOutcome::Breakpoint;
            },
        }
        self.pc = next_pc;
        Ok(outcome)
    }
}

/// Nibble `k` of `v` as an executable value, always below 16.
fn nibble_at(v: u32, k: u32) -> (d: u32)
    requires
        k < 8,
    ensures
        d == nibble(v, k as int),
        d < 16,
{
    proof {
        assert((v >> (4 * k)) & 0xf < 16) by (bit_vector);
    }
    (v >> (4 * k)) & 0xf
}

/// The ASCII code of one hex nibble, upper case.
fn hex_digit_byte(d: u32) -> (b: u8)
    requires
        d < 16,
    ensures
        b == hex_digit(d),
{
    if d < 10 {
        (0x30 + d) as u8
    } else {
        (0x37 + d) as u8
    }
}

/// Append the eight upper-case hex digits of `v`.
fn push_hex32(out: &mut Vec<u8>, v: u32)
    ensures
        final(out)@ == old(out)@ + spec_hex32(v),
{
    let ghost prior = out@;
    let mut k: u32 = 0;
    while k < 8
        invariant
            k <= 8,
            out@ == prior + spec_hex32(v).subrange(0, k as int),
        decreases 8 - k,
    {
        let d = nibble_at(v, 7 - k);
        out.push(hex_digit_byte(d));
        proof {
            assert(spec_hex32(v).subrange(0, k + 1int) =~= spec_hex32(v).subrange(0, k as int)
                + seq![hex_digit(nibble(v, 7 - k as int))]);
            assert(out@ =~= prior + spec_hex32(v).subrange(0, k + 1int));
        }
        k = k + 1;
    }
    proof {
        assert(spec_hex32(v).subrange(0, 8) =~= spec_hex32(v));
    }
}

/// The low five bits of a shift operand: always an admissible shift amount.
fn shamt(y: u32) -> (r: u32)
    ensures
        r == spec_shamt(y),
        r < 32,
{
    proof {
        assert(y & 0x1f < 32) by (bit_vector);
    }
    y & 0x1f
}

/// Branch symmetry: for every operand pair, BEQ branches exactly when BNE
/// does not, BLT exactly when BGE does not, and BLTU exactly when BGEU does
/// not.
pub proof fn lemma_branch_symmetry(x: u32, y: u32)
    ensures
        beq_taken(x, y) <==> !bne_taken(x, y),
        blt_taken(x, y) <==> !bge_taken(x, y),
        bltu_taken(x, y) <==> !bgeu_taken(x, y),
{
}

/// JALR low-bit clear: whatever rs1, rd and the immediate hold, a JALR
/// leaves a program counter whose bit 0 is zero.
pub proof fn lemma_jalr_low_bit_clear(s: State, op: crate::decode::formats::IOperands)
    ensures
        spec_exec(s, Instruction::JALR(op)) matches Ok(res) ==> res.0.pc & 1 == 0,
{
    let regs2 = spec_set_reg(s.regs, op.rd.spec_num(), s.pc.wrapping_add(4));
    let t = regs2[op.rs1.spec_num() as int].wrapping_add(op.imm);
    assert((t & !1u32) & 1 == 0) by (bit_vector);
}

/// Hardwired zero: entry 0 of any machine's register file reads as zero, and
/// a write to register 0 — whatever instruction scheduled it — changes
/// nothing.
pub proof fn lemma_hardwired_zero(m: Machine, val: u32)
    ensures
        m.regs()[0] == 0,
        spec_set_reg(m.regs(), 0, val) == m.regs(),
{
}

/// Register 0 stays hardwired across execution: no instruction, whatever its
/// destination, leaves a value in entry 0 of the register file.
pub proof fn lemma_exec_keeps_zero(s: State, inst: Instruction)
    requires
        s.regs.len() == 32,
        s.regs[0] == 0,
        crate::decode::wf_inst(inst),
    ensures
        spec_exec(s, inst) matches Ok(res) ==> res.0.regs[0] == 0,
{
    assert(forall|n: u8, v: u32|
        n < 32 ==> (#[trigger] spec_set_reg(s.regs, n, v))[0] == 0);
}

/// Register 0 stays hardwired across a whole step: fetch, decode and execute
/// never leave a value in entry 0 of the register file.
pub proof fn lemma_step_keeps_zero(s: State)
    requires
        s.regs.len() == 32,
        s.regs[0] == 0,
    ensures
        spec_step(s) matches Ok(res) ==> res.0.regs[0] == 0,
{
    if access_ok(s.pc, 4, s.mem.len()) {
        match spec_decode(spec_load32(s.mem, s.pc)) {
            Ok(inst) => {
                crate::decode::lemma_decode_wf(spec_load32(s.mem, s.pc));
                lemma_exec_keeps_zero(s, inst);
            },
            Err(_) => {},
        }
    }
}

/// Memory round-trip, byte: storing then loading at the same address gives
/// the stored value back.
pub proof fn lemma_store_load8(mem: Seq<u8>, addr: u32, val: u8)
    requires
        access_ok(addr, 1, mem.len()),
    ensures
        spec_load8(spec_store8(mem, addr, val), addr) == val,
{
}

/// Memory round-trip, halfword: storing then loading at the same address
/// gives the stored value back.
pub proof fn lemma_store_load16(mem: Seq<u8>, addr: u32, val: u16)
    requires
        access_ok(addr, 2, mem.len()),
    ensures
        spec_load16(spec_store16(mem, addr, val), addr) == val,
{
    let b0 = (val & 0xff) as u8;
    let b1 = ((val >> 8) & 0xff) as u8;
    assert((b0 as u16) | ((b1 as u16) << 8) == val) by (bit_vector)
        requires
            b0 == (val & 0xff) as u8,
            b1 == ((val >> 8) & 0xff) as u8,
    ;
}

/// Memory round-trip, word: storing then loading at the same address gives
/// the stored value back.
pub proof fn lemma_store_load32(mem: Seq<u8>, addr: u32, val: u32)
    requires
        access_ok(addr, 4, mem.len()),
    ensures
        spec_load32(spec_store32(mem, addr, val), addr) == val,
{
    let b0 = (val & 0xff) as u8;
    let b1 = ((val >> 8) & 0xff) as u8;
    let b2 = ((val >> 16) & 0xff) as u8;
    let b3 = ((val >> 24) & 0xff) as u8;
    assert((b0 as u32) | ((b1 as u32) << 8) | ((b2 as u32) << 16) | ((b3 as u32) << 24)
        == val) by (bit_vector)
        requires
            b0 == (val & 0xff) as u8,
            b1 == ((val >> 8) & 0xff) as u8,
            b2 == ((val >> 16) & 0xff) as u8,
            b3 == ((val >> 24) & 0xff) as u8,
    ;
}

/// Little-endianness: after a word store, the byte at offset k holds bits
/// 8k..8k+7 of the value, for k in 0..4.
pub proof fn lemma_store32_little_endian(mem: Seq<u8>, addr: u32, val: u32)
    requires
        access_ok(addr, 4, mem.len()),
    ensures
        spec_load8(spec_store32(mem, addr, val), addr) == (val & 0xff) as u8,
        spec_load8(spec_store32(mem, addr, val), (addr + 1) as u32) == ((val >> 8) & 0xff) as u8,
        spec_load8(spec_store32(mem, addr, val), (addr + 2) as u32) == ((val >> 16) & 0xff) as u8,
        spec_load8(spec_store32(mem, addr, val), (addr + 3) as u32) == ((val >> 24) & 0xff) as u8,
{
}

/// Bounds: in a memory of `mem_len` bytes an access of `size` bytes at
/// `mem_len - size` is accepted, and one starting a single byte later is
/// already rejected.
pub proof fn lemma_access_bounds(mem_len: nat, size: nat)
    requires
        1 <= size <= mem_len,
        mem_len <= u32::MAX,
    ensures
        access_ok((mem_len - size) as u32, size, mem_len),
        !access_ok((mem_len - size + 1) as u32, size, mem_len),
{
}

/// Bounds: a four-byte access at 0xFFFFFFFD overflows the 32-bit address
/// space and is rejected whatever the memory size.
pub proof fn lemma_access_overflow(mem_len: nat)
    ensures
        !access_ok(0xFFFFFFFDu32, 4, mem_len),
{
}

} // verus!

