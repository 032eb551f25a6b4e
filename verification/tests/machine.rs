use minrisc::decode::Reg;
use minrisc::emu::{Machine, StepOutcome};
use minrisc::Error;

// A fifteen-word program that computes fib(a0) into a0 and stops on an
// ECALL.
static FIB: &[u32] = &[
    0x02050663, // beqz    a0,2c <.L4>
    0xfff50793, // addi    a5,a0,-1
    0x02078663, // beqz    a5,34 <.L5>
    0x00100713, // li      a4,1
    0x00000693, // li      a3,0
    0x00e68533, // add     a0,a3,a4
    0xfff78793, // addi    a5,a5,-1
    0x00070693, // mv      a3,a4
    0x00050713, // mv      a4,a0
    0xfe0798e3, // bnez    a5,14 <.L3>
    0x00000073, // ecall
    0x00000513, // li      a0,0
    0x00000073, // ecall
    0x00100513, // li      a0,1
    0x00000073, // ecall
];

fn machine_with_program(words: &[u32]) -> Machine {
    let mut m = Machine::with_memory(64 * 1024);
    for (i, &word) in words.iter().enumerate() {
        m.store32(4 * i as u32, word).unwrap();
    }
    m
}

fn run_fib(arg: u32) -> u32 {
    let mut m = machine_with_program(FIB);
    m.set_reg(Reg::a0(), arg);
    loop {
        match m.step().unwrap() {
            StepOutcome::Syscall => break,
            _ => (),
        }
    }
    m.get_reg(Reg::a0())
}

#[test]
fn fibonacci_of_ten() {
    assert_eq!(run_fib(10), 55);
}

#[test]
fn fibonacci_of_zero() {
    // The first instruction is a taken BEQ straight to the ECALL path.
    let mut m = machine_with_program(FIB);
    m.set_reg(Reg::a0(), 0);
    assert!(matches!(m.step().unwrap(), StepOutcome::Running));
    assert_eq!(m.pc, 0x2C);
    assert_eq!(run_fib(0), 0);
}

#[test]
fn fibonacci_of_one() {
    // The second and third instructions lead to the one-argument path.
    let mut m = machine_with_program(FIB);
    m.set_reg(Reg::a0(), 1);
    assert!(matches!(m.step().unwrap(), StepOutcome::Running));
    assert_eq!(m.pc, 4);
    assert!(matches!(m.step().unwrap(), StepOutcome::Running));
    assert!(matches!(m.step().unwrap(), StepOutcome::Running));
    assert_eq!(m.pc, 0x34);
    assert_eq!(run_fib(1), 1);
}

#[test]
fn illegal_opcode_leaves_pc() {
    let mut m = Machine::with_memory(16);
    // The word 0 at pc=0 has no recognized opcode.
    assert!(matches!(m.step(), Err(Error::BadOpcode)));
    assert_eq!(m.pc, 0);
}

#[test]
fn out_of_bounds_fetch() {
    let mut m = Machine::with_memory(64);
    m.set_reg(Reg::t0(), 7);
    m.pc = 62;
    assert!(matches!(m.step(), Err(Error::MemoryOutOfBounds)));
    assert_eq!(m.pc, 62);
    assert_eq!(m.get_reg(Reg::t0()), 7);
}

#[test]
fn ebreak_reports_breakpoint() {
    let mut m = Machine::with_memory(16);
    m.store32(0, 0x00100073).unwrap();
    assert!(matches!(m.step().unwrap(), StepOutcome::Breakpoint));
    assert_eq!(m.pc, 4);
}

#[test]
fn ecall_reports_syscall() {
    let mut m = Machine::with_memory(16);
    m.store32(0, 0x00000073).unwrap();
    assert!(matches!(m.step().unwrap(), StepOutcome::Syscall));
    assert_eq!(m.pc, 4);
}

#[test]
fn addi_writes_rd_and_advances() {
    let mut m = machine_with_program(&[0xfff50793]); // addi a5, a0, -1
    m.set_reg(Reg::a0(), 10);
    assert!(matches!(m.step().unwrap(), StepOutcome::Running));
    assert_eq!(m.get_reg(Reg::a5()), 9);
    assert_eq!(m.pc, 4);
}

#[test]
fn writes_to_register_zero_are_discarded() {
    // addi x0, x0, 1
    let mut m = machine_with_program(&[0x00100013]);
    assert!(matches!(m.step().unwrap(), StepOutcome::Running));
    assert_eq!(m.get_reg(Reg::zero()), 0);
}

#[test]
fn jalr_clears_low_bit() {
    // jalr x2, x1, 0 with an odd base address
    let mut m = machine_with_program(&[0x00008167]);
    m.set_reg(Reg::ra(), 103);
    assert!(matches!(m.step().unwrap(), StepOutcome::Running));
    assert_eq!(m.pc, 102);
    assert_eq!(m.get_reg(Reg::sp()), 4);
}

#[test]
fn jal_links_and_jumps() {
    // jal x1, +8
    let mut m = machine_with_program(&[0x008000EF]);
    assert!(matches!(m.step().unwrap(), StepOutcome::Running));
    assert_eq!(m.pc, 8);
    assert_eq!(m.get_reg(Reg::ra()), 4);
}

#[test]
fn branch_pairs_are_complementary() {
    // beq x1, x2, +8 and bne x1, x2, +8 on the same operands
    let beq = 0x00208463u32;
    let bne = 0x00209463u32;
    for &(x, y) in &[(5u32, 5u32), (5, 6), (0x80000000, 1)] {
        let mut m_eq = machine_with_program(&[beq]);
        m_eq.set_reg(Reg::ra(), x);
        m_eq.set_reg(Reg::sp(), y);
        m_eq.step().unwrap();
        let mut m_ne = machine_with_program(&[bne]);
        m_ne.set_reg(Reg::ra(), x);
        m_ne.set_reg(Reg::sp(), y);
        m_ne.step().unwrap();
        // exactly one of the two branches
        assert!((m_eq.pc == 8) != (m_ne.pc == 8));
        assert!((m_eq.pc == 4) != (m_ne.pc == 4));
    }
}

#[test]
fn signed_and_unsigned_compare_differ() {
    // slt x3, x1, x2 then sltu x4, x1, x2 with x1 = -1, x2 = 1
    let mut m = machine_with_program(&[0x0020A1B3, 0x0020B233]);
    m.set_reg(Reg::ra(), 0xFFFFFFFF);
    m.set_reg(Reg::sp(), 1);
    m.step().unwrap();
    m.step().unwrap();
    assert_eq!(m.get_reg(Reg::gp()), 1); // -1 < 1 signed
    assert_eq!(m.get_reg(Reg::tp()), 0); // 0xFFFFFFFF > 1 unsigned
}

#[test]
fn arithmetic_shift_keeps_sign() {
    // srai x2, x1, 4
    let mut m = machine_with_program(&[0x4040D113]);
    m.set_reg(Reg::ra(), 0x80000000);
    m.step().unwrap();
    assert_eq!(m.get_reg(Reg::sp()), 0xF8000000);
}

#[test]
fn register_shift_uses_low_five_bits() {
    // sll x3, x1, x2 with a shift operand of 35: only the low five bits count
    let mut m = machine_with_program(&[0x002091B3]);
    m.set_reg(Reg::ra(), 1);
    m.set_reg(Reg::sp(), 35);
    m.step().unwrap();
    assert_eq!(m.get_reg(Reg::gp()), 8);
}

#[test]
fn lui_and_auipc() {
    // lui x1, 0x12345 at 0, then auipc x2, 0x12345 at 4
    let mut m = machine_with_program(&[0x123450B7, 0x12345117]);
    m.step().unwrap();
    m.step().unwrap();
    assert_eq!(m.get_reg(Reg::ra()), 0x12345000);
    assert_eq!(m.get_reg(Reg::sp()), 0x12345004);
}

#[test]
fn loads_extend_correctly() {
    // lb x2, 0x40(x0); lbu x3, 0x40(x0); lh x4, 0x40(x0); lhu x5, 0x40(x0)
    let mut m = machine_with_program(&[0x04000103, 0x04004183, 0x04001203, 0x04005283]);
    m.store16(0x40, 0x8081).unwrap();
    for _ in 0..4 {
        m.step().unwrap();
    }
    assert_eq!(m.get_reg(Reg::sp()), 0xFFFFFF81);
    assert_eq!(m.get_reg(Reg::gp()), 0x81);
    assert_eq!(m.get_reg(Reg::tp()), 0xFFFF8081);
    assert_eq!(m.get_reg(Reg::t0()), 0x8081);
}

#[test]
fn stores_write_low_bits() {
    // sb x2, 9(x0); sh x2, 12(x0)
    let mut m = machine_with_program(&[0x002004A3, 0x00201623]);
    m.set_reg(Reg::sp(), 0x1234ABCD);
    m.step().unwrap();
    m.step().unwrap();
    assert_eq!(m.load8(9).unwrap(), 0xCD);
    assert_eq!(m.load16(12).unwrap(), 0xABCD);
}

#[test]
fn faulting_load_commits_nothing() {
    // lw x2, 0(x1) with x1 pointing far outside memory
    let mut m = machine_with_program(&[0x0000A103]);
    m.set_reg(Reg::ra(), 0x10000000);
    m.set_reg(Reg::sp(), 55);
    assert!(matches!(m.step(), Err(Error::MemoryOutOfBounds)));
    assert_eq!(m.get_reg(Reg::sp()), 55);
    assert_eq!(m.pc, 0);
}

#[test]
fn faulting_store_commits_nothing() {
    // sw x2, 0(x1) with x1 pointing far outside memory
    let mut m = machine_with_program(&[0x0020A023]);
    m.set_reg(Reg::ra(), 0x10000000);
    m.set_reg(Reg::sp(), 55);
    assert!(matches!(m.step(), Err(Error::MemoryOutOfBounds)));
    assert_eq!(m.pc, 0);
}
