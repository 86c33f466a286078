use asm6502::addressing_modes::{get_size, AddressingMode};
use asm6502::error::Error;
use asm6502::opcodes::{get_code, opcode_entry, OpcodeData, OpcodeType};

#[test]
fn test_opcode_name() {
    let strings = vec![("LDA", true), ("STA", true), ("JMP", true), ("xd", false)];
    for (string, is_ok) in strings.iter() {
        let res = OpcodeType::identify(&string);
        println!("{} -> {:?}", string, res);
        assert_eq!(res.is_ok(), *is_ok);
    }
}

#[test]
fn identify_names_the_mnemonic() {
    assert_eq!(OpcodeType::identify("BEQ"), Ok(OpcodeType::BEQ));
    assert_eq!(OpcodeType::identify("TYA"), Ok(OpcodeType::TYA));
    assert_eq!(OpcodeType::identify("lda"), Err(()));
    assert_eq!(OpcodeType::identify("LDAX"), Err(()));
    assert_eq!(OpcodeType::identify(""), Err(()));
}

#[test]
fn branch_mnemonics_are_the_eight_branches() {
    let branches = [
        OpcodeType::BCC,
        OpcodeType::BCS,
        OpcodeType::BEQ,
        OpcodeType::BMI,
        OpcodeType::BNE,
        OpcodeType::BPL,
        OpcodeType::BVC,
        OpcodeType::BVS,
    ];
    for op in branches.iter() {
        assert!(op.is_branch_op());
    }
    assert!(!OpcodeType::JMP.is_branch_op());
    assert!(!OpcodeType::JSR.is_branch_op());
    assert!(!OpcodeType::LDA.is_branch_op());
}

#[test]
fn widths_of_every_mode() {
    let widths = [
        (AddressingMode::A, 1),
        (AddressingMode::ABS, 3),
        (AddressingMode::ABSX, 3),
        (AddressingMode::ABSY, 3),
        (AddressingMode::IMM, 2),
        (AddressingMode::IMPL, 1),
        (AddressingMode::IND, 3),
        (AddressingMode::INDX, 2),
        (AddressingMode::INDY, 2),
        (AddressingMode::REL, 2),
        (AddressingMode::ZPG, 2),
        (AddressingMode::ZPGX, 2),
        (AddressingMode::ZPGY, 2),
    ];
    for (mode, width) in widths.iter() {
        assert_eq!(get_size(*mode), *width);
    }
}

#[test]
fn known_encodings() {
    assert_eq!(get_code(OpcodeType::LDA, AddressingMode::IMM), Ok(0xA9));
    assert_eq!(get_code(OpcodeType::LDA, AddressingMode::ABS), Ok(0xAD));
    assert_eq!(get_code(OpcodeType::STA, AddressingMode::ZPG), Ok(0x85));
    assert_eq!(get_code(OpcodeType::CLC, AddressingMode::IMPL), Ok(0x18));
    assert_eq!(get_code(OpcodeType::BRK, AddressingMode::IMPL), Ok(0x00));
    assert_eq!(get_code(OpcodeType::BEQ, AddressingMode::REL), Ok(0xF0));
    assert_eq!(get_code(OpcodeType::JMP, AddressingMode::IND), Ok(0x6C));
    assert_eq!(get_code(OpcodeType::INC, AddressingMode::ABSX), Ok(0xFE));
    assert_eq!(get_code(OpcodeType::ROL, AddressingMode::A), Ok(0x2A));
}

#[test]
fn unknown_encoding_is_an_error() {
    assert_eq!(
        get_code(OpcodeType::STA, AddressingMode::IMM),
        Err(Error::UnknownOpcode { name: OpcodeType::STA, mode: AddressingMode::IMM })
    );
    assert_eq!(
        get_code(OpcodeType::JMP, AddressingMode::ZPG),
        Err(Error::UnknownOpcode { name: OpcodeType::JMP, mode: AddressingMode::ZPG })
    );
}

#[test]
fn table_and_lookup_agree() {
    let mut populated = 0;
    for code in 0..=255u8 {
        if let Some(OpcodeData { name, addr_mode }) = opcode_entry(code) {
            populated += 1;
            assert_eq!(get_code(name, addr_mode), Ok(code));
        }
    }
    assert_eq!(populated, 151);
}
