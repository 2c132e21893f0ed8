use rustygb::inst::{inst_cb_time, inst_time, Condition, Instruction, Operand, Reg16Index, Reg8Index};

#[test]
fn not_defined_inst_count() {
    let mut count = 0;
    for idx in 0x00 as u8..0xFF as u8 {
        if let None = Instruction::from_byte(idx) {
            println!("fail : {:#X}", idx);
            count += 1;
        }
    }
    assert_eq!(count, 11);
}

#[test]
fn not_defined_prefix_inst_count() {
    let mut count = 0;
    for idx in 0x00 as u8..=0xFF as u8 {
        if let None = Instruction::from_byte_prefixed(idx) {
            println!("fail : {:#X}", idx);
            count += 1;
        }
    }
    assert_eq!(count, 0);
}

#[test]
fn unassigned_opcodes_are_the_eleven_holes() {
    let holes = [0xD3u8, 0xDB, 0xDD, 0xE3, 0xE4, 0xEB, 0xEC, 0xED, 0xF4, 0xFC, 0xFD];
    for idx in 0u8..=0xFF {
        assert_eq!(Instruction::from_byte(idx).is_none(), holes.contains(&idx), "{:#X}", idx);
    }
}

#[test]
fn decodes_sample_opcodes() {
    assert_eq!(Instruction::from_byte(0x00), Some(Instruction::NOP));
    assert_eq!(
        Instruction::from_byte(0x3E),
        Some(Instruction::LD(Operand::Register8(Reg8Index::A), Operand::Value8))
    );
    assert_eq!(
        Instruction::from_byte(0x22),
        Some(Instruction::LD(
            Operand::Register16(Reg16Index::HLP),
            Operand::Register8(Reg8Index::A)
        ))
    );
    assert_eq!(
        Instruction::from_byte(0x7E),
        Some(Instruction::LD(
            Operand::Register8(Reg8Index::A),
            Operand::Register8(Reg8Index::HL)
        ))
    );
    assert_eq!(Instruction::from_byte(0x20), Some(Instruction::JR(Condition::NZ)));
    assert_eq!(Instruction::from_byte(0xD8), Some(Instruction::RET(Condition::C)));
    assert_eq!(Instruction::from_byte(0xFF), Some(Instruction::RST(0x38)));
    assert_eq!(
        Instruction::from_byte(0xF1),
        Some(Instruction::POP(Operand::Register16(Reg16Index::AF)))
    );
    assert_eq!(Instruction::from_byte(0xCB), Some(Instruction::PREFIX));
    assert_eq!(
        Instruction::from_byte_prefixed(0x7C),
        Some(Instruction::BIT(7, Operand::Register8(Reg8Index::H)))
    );
    assert_eq!(
        Instruction::from_byte_prefixed(0x36),
        Some(Instruction::SWAP(Operand::Register8(Reg8Index::HL)))
    );
}

#[test]
fn cycle_tables() {
    assert_eq!(inst_time(0x00), 1);
    assert_eq!(inst_time(0x08), 5);
    assert_eq!(inst_time(0xCD), 6);
    assert_eq!(inst_time(0x36), 3);
    assert_eq!(inst_time(0xD3), 0);
    assert_eq!(inst_cb_time(0x00), 2);
    assert_eq!(inst_cb_time(0x46), 3);
    assert_eq!(inst_cb_time(0x06), 4);
}
