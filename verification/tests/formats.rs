use minrisc::decode::formats::{decode_b, decode_i, decode_r, decode_u, Opcode};
use minrisc::decode::{decode, Instruction, Reg};
use minrisc::emu::{Machine, StepOutcome};
use minrisc::Error;

#[test]
fn opcode_from_inst_recognizes_the_eleven() {
    assert_eq!(Opcode::from_inst(0x03).unwrap(), Opcode::Load);
    assert_eq!(Opcode::from_inst(0x13).unwrap(), Opcode::OpImm);
    assert_eq!(Opcode::from_inst(0x17).unwrap(), Opcode::Auipc);
    assert_eq!(Opcode::from_inst(0x23).unwrap(), Opcode::Store);
    assert_eq!(Opcode::from_inst(0x33).unwrap(), Opcode::Op);
    assert_eq!(Opcode::from_inst(0x37).unwrap(), Opcode::Lui);
    assert_eq!(Opcode::from_inst(0x63).unwrap(), Opcode::Branch);
    assert_eq!(Opcode::from_inst(0x67).unwrap(), Opcode::Jalr);
    assert_eq!(Opcode::from_inst(0x6F).unwrap(), Opcode::Jal);
    assert_eq!(Opcode::from_inst(0x73).unwrap(), Opcode::System);
    assert!(matches!(Opcode::from_inst(0x00), Err(Error::BadOpcode)));
    assert!(matches!(Opcode::from_inst(0x3B), Err(Error::BadOpcode)));
}

#[test]
fn format_decoders_extract_fields() {
    // add a0, a3, a4
    let r = decode_r(0x00e68533).unwrap();
    assert_eq!(r.opcode, Opcode::Op);
    assert_eq!(r.funct, 0);
    assert_eq!(r.operands.rd.num(), 10);
    assert_eq!(r.operands.rs1.num(), 13);
    assert_eq!(r.operands.rs2.num(), 14);

    // addi a5, a0, -1
    let i = decode_i(0xfff50793).unwrap();
    assert_eq!(i.opcode, Opcode::OpImm);
    assert_eq!(i.funct, 0);
    assert_eq!(i.operands.imm, 0xFFFF_FFFF);

    // bne a5, x0, -16
    let b = decode_b(0xfe0798e3).unwrap();
    assert_eq!(b.opcode, Opcode::Branch);
    assert_eq!(b.funct, 1);
    assert_eq!(b.operands.imm, 0xFFFF_FFF0);

    // lui x1, 0x12345
    let u = decode_u(0x123450B7).unwrap();
    assert_eq!(u.opcode, Opcode::Lui);
    assert_eq!(u.operands.imm, 0x12345000);

    // an unrecognized opcode falls out of every format decoder
    assert!(matches!(decode_r(0), Err(Error::BadOpcode)));
}

#[test]
fn decode_every_branch() {
    // funct3 0/1/4/5/6/7 on rs1=1, rs2=2, offset +8
    let word = |funct3: u32| 0x00208463 | (funct3 << 12);
    assert!(matches!(decode(word(0)).unwrap(), Instruction::BEQ(_)));
    assert!(matches!(decode(word(1)).unwrap(), Instruction::BNE(_)));
    assert!(matches!(decode(word(4)).unwrap(), Instruction::BLT(_)));
    assert!(matches!(decode(word(5)).unwrap(), Instruction::BGE(_)));
    assert!(matches!(decode(word(6)).unwrap(), Instruction::BLTU(_)));
    assert!(matches!(decode(word(7)).unwrap(), Instruction::BGEU(_)));
    assert!(matches!(decode(word(2)), Err(Error::BadFunct)));
    assert!(matches!(decode(word(3)), Err(Error::BadFunct)));
}

#[test]
fn decoder_is_total() {
    // A crude linear-congruential sweep: whatever the word, decoding either
    // succeeds or reports BadOpcode or BadFunct, and never panics.
    let mut w: u32 = 0x12345678;
    for _ in 0..20000 {
        w = w.wrapping_mul(1664525).wrapping_add(1013904223);
        match decode(w) {
            Ok(_) => (),
            Err(Error::BadOpcode) => (),
            Err(Error::BadFunct) => (),
            Err(e) => panic!("unexpected decode error: {:?}", e),
        }
    }
}

fn branch_goes(word: u32, x: u32, y: u32) -> bool {
    let mut m = Machine::with_memory(64);
    m.store32(0, word).unwrap();
    m.set_reg(Reg::ra(), x);
    m.set_reg(Reg::sp(), y);
    assert!(matches!(m.step().unwrap(), StepOutcome::Running));
    m.pc == 8
}

#[test]
fn signed_branch_pairs_are_complementary() {
    let blt = 0x0020C463u32; // blt x1, x2, +8
    let bge = 0x0020D463u32; // bge x1, x2, +8
    for &(x, y) in &[(1u32, 2u32), (2, 1), (5, 5), (0xFFFFFFFF, 1), (1, 0xFFFFFFFF), (0x80000000, 0x7FFFFFFF)] {
        assert_ne!(branch_goes(blt, x, y), branch_goes(bge, x, y));
    }
    // and the signed reading: -1 < 1
    assert!(branch_goes(blt, 0xFFFFFFFF, 1));
}

#[test]
fn unsigned_branch_pairs_are_complementary() {
    let bltu = 0x0020E463u32; // bltu x1, x2, +8
    let bgeu = 0x0020F463u32; // bgeu x1, x2, +8
    for &(x, y) in &[(1u32, 2u32), (2, 1), (5, 5), (0xFFFFFFFF, 1), (1, 0xFFFFFFFF)] {
        assert_ne!(branch_goes(bltu, x, y), branch_goes(bgeu, x, y));
    }
    // and the unsigned reading: 0xFFFFFFFF is large
    assert!(!branch_goes(bltu, 0xFFFFFFFF, 1));
}

#[test]
fn add_and_sub_wrap() {
    // add x3, x1, x2 then sub x4, x1, x2
    let mut m = Machine::with_memory(64);
    m.store32(0, 0x002081B3).unwrap();
    m.store32(4, 0x40208233).unwrap();
    m.set_reg(Reg::ra(), 0xFFFFFFFF);
    m.set_reg(Reg::sp(), 2);
    m.step().unwrap();
    m.step().unwrap();
    assert_eq!(m.get_reg(Reg::gp()), 1); // 0xFFFFFFFF + 2 wraps to 1
    assert_eq!(m.get_reg(Reg::tp()), 0xFFFFFFFD);
}

#[test]
fn bitwise_immediates() {
    // andi x2, x1, -16; ori x3, x1, 5; xori x4, x1, -1
    let mut m = Machine::with_memory(64);
    m.store32(0, 0xFF00F113).unwrap();
    m.store32(4, 0x0050E193).unwrap();
    m.store32(8, 0xFFF0C213).unwrap();
    m.set_reg(Reg::ra(), 0x0000F0FF);
    m.step().unwrap();
    m.step().unwrap();
    m.step().unwrap();
    assert_eq!(m.get_reg(Reg::sp()), 0x0000F0F0); // andi with 0xFFFFFFF0
    assert_eq!(m.get_reg(Reg::gp()), 0x0000F0FF | 5);
    assert_eq!(m.get_reg(Reg::tp()), !0x0000F0FFu32); // xori with -1 complements
}
