use minrisc::decode::Reg;
use minrisc::emu::Machine;
use minrisc::Error;

#[test]
fn fresh_machine_is_zeroed() {
    let m = Machine::with_memory(64);
    assert_eq!(m.pc, 0);
    for i in 0..32 {
        assert_eq!(m.get_reg(Reg::new(i).unwrap()), 0);
    }
    for a in 0..64 {
        assert_eq!(m.load8(a).unwrap(), 0);
    }
}

#[test]
fn round_trip_8() {
    let mut m = Machine::with_memory(16);
    m.store8(5, 0xAB).unwrap();
    assert_eq!(m.load8(5).unwrap(), 0xAB);
}

#[test]
fn round_trip_16() {
    let mut m = Machine::with_memory(16);
    m.store16(3, 0xBEEF).unwrap();
    assert_eq!(m.load16(3).unwrap(), 0xBEEF);
}

#[test]
fn round_trip_32() {
    let mut m = Machine::with_memory(16);
    m.store32(4, 0xDEADBEEF).unwrap();
    assert_eq!(m.load32(4).unwrap(), 0xDEADBEEF);
}

#[test]
fn little_endian_layout() {
    let mut m = Machine::with_memory(16);
    m.store32(0, 0x12345678).unwrap();
    assert_eq!(m.load8(0).unwrap(), 0x78);
    assert_eq!(m.load8(1).unwrap(), 0x56);
    assert_eq!(m.load8(2).unwrap(), 0x34);
    assert_eq!(m.load8(3).unwrap(), 0x12);
    assert_eq!(m.load16(0).unwrap(), 0x5678);
    assert_eq!(m.load16(2).unwrap(), 0x1234);
}

#[test]
fn bounds_at_the_edge() {
    let m = Machine::with_memory(16);
    assert!(m.load8(15).is_ok());
    assert!(matches!(m.load8(16), Err(Error::MemoryOutOfBounds)));
    assert!(m.load16(14).is_ok());
    assert!(matches!(m.load16(15), Err(Error::MemoryOutOfBounds)));
    assert!(m.load32(12).is_ok());
    assert!(matches!(m.load32(13), Err(Error::MemoryOutOfBounds)));
}

#[test]
fn bounds_overflow_detected() {
    let m = Machine::with_memory(16);
    assert!(matches!(m.load32(0xFFFFFFFD), Err(Error::MemoryOutOfBounds)));
    assert!(matches!(m.load16(0xFFFFFFFF), Err(Error::MemoryOutOfBounds)));
}

#[test]
fn store_bounds_leave_memory_unchanged() {
    let mut m = Machine::with_memory(16);
    assert!(matches!(m.store32(14, 0xFFFFFFFF), Err(Error::MemoryOutOfBounds)));
    assert!(matches!(m.store16(15, 0xFFFF), Err(Error::MemoryOutOfBounds)));
    assert!(matches!(m.store8(16, 0xFF), Err(Error::MemoryOutOfBounds)));
    for a in 0..16 {
        assert_eq!(m.load8(a).unwrap(), 0);
    }
}

#[test]
fn register_zero_is_hardwired() {
    let mut m = Machine::with_memory(4);
    m.set_reg(Reg::zero(), 0xFFFFFFFF);
    assert_eq!(m.get_reg(Reg::zero()), 0);
}

#[test]
fn registers_hold_values() {
    let mut m = Machine::with_memory(4);
    for i in 1..32 {
        m.set_reg(Reg::new(i).unwrap(), i * 100);
    }
    for i in 1..32 {
        assert_eq!(m.get_reg(Reg::new(i).unwrap()), i * 100);
    }
}

#[test]
fn dump_formats_registers() {
    let mut m = Machine::with_memory(4);
    m.pc = 0x1C;
    m.set_reg(Reg::ra(), 0xDEADBEEF);
    let text = String::from_utf8(m.dump()).unwrap();
    let mut expected = format!("PC : {:08X}\n", 0x1Cu32);
    for i in 0..32u32 {
        let v = if i == 1 { 0xDEADBEEFu32 } else { 0 };
        expected.push_str(&format!("R{:<2}: {:08X}    ", i, v));
        if i % 4 == 3 {
            expected.push('\n');
        }
    }
    assert_eq!(text, expected);
}
