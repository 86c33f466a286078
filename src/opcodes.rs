//! The mnemonics of the 6502 and the opcode table that encodes them.
use crate::addressing_modes::AddressingMode;
use crate::error::Error;
use vstd::prelude::*;
use vstd::string::StringSliceAdditionalSpecFns;

verus! {

/// The 56 mnemonics of the 6502.
#[derive(Debug, Copy, Clone, PartialEq, Eq, Structural)]
pub enum OpcodeType {
    ADC,
    AND,
    ASL,
    BCC,
    BCS,
    BEQ,
    BIT,
    BMI,
    BNE,
    BPL,
    BRK,
    BVC,
    BVS,
    CLC,
    CLD,
    CLI,
    CLV,
    CMP,
    CPX,
    CPY,
    DEC,
    DEX,
    DEY,
    EOR,
    INC,
    INX,
    INY,
    JMP,
    JSR,
    LDA,
    LDX,
    LDY,
    LSR,
    NOP,
    ORA,
    PHA,
    PHP,
    PLA,
    PLP,
    ROL,
    ROR,
    RTI,
    RTS,
    SBC,
    SEC,
    SED,
    SEI,
    STA,
    STX,
    STY,
    TAX,
    TAY,
    TSX,
    TXA,
    TXS,
    TYA,
}

/// The mnemonic of `op` as the three upper-case ASCII bytes that spell it.
pub open spec fn mnemonic(op: OpcodeType) -> Seq<u8> {
    match op {
        OpcodeType::ADC => seq![0x41, 0x44, 0x43],
        OpcodeType::AND => seq![0x41, 0x4E, 0x44],
        OpcodeType::ASL => seq![0x41, 0x53, 0x4C],
        OpcodeType::BCC => seq![0x42, 0x43, 0x43],
        OpcodeType::BCS => seq![0x42, 0x43, 0x53],
        OpcodeType::BEQ => seq![0x42, 0x45, 0x51],
        OpcodeType::BIT => seq![0x42, 0x49, 0x54],
        OpcodeType::BMI => seq![0x42, 0x4D, 0x49],
        OpcodeType::BNE => seq![0x42, 0x4E, 0x45],
        OpcodeType::BPL => seq![0x42, 0x50, 0x4C],
        OpcodeType::BRK => seq![0x42, 0x52, 0x4B],
        OpcodeType::BVC => seq![0x42, 0x56, 0x43],
        OpcodeType::BVS => seq![0x42, 0x56, 0x53],
        OpcodeType::CLC => seq![0x43, 0x4C, 0x43],
        OpcodeType::CLD => seq![0x43, 0x4C, 0x44],
        OpcodeType::CLI => seq![0x43, 0x4C, 0x49],
        OpcodeType::CLV => seq![0x43, 0x4C, 0x56],
        OpcodeType::CMP => seq![0x43, 0x4D, 0x50],
        OpcodeType::CPX => seq![0x43, 0x50, 0x58],
        OpcodeType::CPY => seq![0x43, 0x50, 0x59],
        OpcodeType::DEC => seq![0x44, 0x45, 0x43],
        OpcodeType::DEX => seq![0x44, 0x45, 0x58],
        OpcodeType::DEY => seq![0x44, 0x45, 0x59],
        OpcodeType::EOR => seq![0x45, 0x4F, 0x52],
        OpcodeType::INC => seq![0x49, 0x4E, 0x43],
        OpcodeType::INX => seq![0x49, 0x4E, 0x58],
        OpcodeType::INY => seq![0x49, 0x4E, 0x59],
        OpcodeType::JMP => seq![0x4A, 0x4D, 0x50],
        OpcodeType::JSR => seq![0x4A, 0x53, 0x52],
        OpcodeType::LDA => seq![0x4C, 0x44, 0x41],
        OpcodeType::LDX => seq![0x4C, 0x44, 0x58],
        OpcodeType::LDY => seq![0x4C, 0x44, 0x59],
        OpcodeType::LSR => seq![0x4C, 0x53, 0x52],
        OpcodeType::NOP => seq![0x4E, 0x4F, 0x50],
        OpcodeType::ORA => seq![0x4F, 0x52, 0x41],
        OpcodeType::PHA => seq![0x50, 0x48, 0x41],
        OpcodeType::PHP => seq![0x50, 0x48, 0x50],
        OpcodeType::PLA => seq![0x50, 0x4C, 0x41],
        OpcodeType::PLP => seq![0x50, 0x4C, 0x50],
        OpcodeType::ROL => seq![0x52, 0x4F, 0x4C],
        OpcodeType::ROR => seq![0x52, 0x4F, 0x52],
        OpcodeType::RTI => seq![0x52, 0x54, 0x49],
        OpcodeType::RTS => seq![0x52, 0x54, 0x53],
        OpcodeType::SBC => seq![0x53, 0x42, 0x43],
        OpcodeType::SEC => seq![0x53, 0x45, 0x43],
        OpcodeType::SED => seq![0x53, 0x45, 0x44],
        OpcodeType::SEI => seq![0x53, 0x45, 0x49],
        OpcodeType::STA => seq![0x53, 0x54, 0x41],
        OpcodeType::STX => seq![0x53, 0x54, 0x58],
        OpcodeType::STY => seq![0x53, 0x54, 0x59],
        OpcodeType::TAX => seq![0x54, 0x41, 0x58],
        OpcodeType::TAY => seq![0x54, 0x41, 0x59],
        OpcodeType::TSX => seq![0x54, 0x53, 0x58],
        OpcodeType::TXA => seq![0x54, 0x58, 0x41],
        OpcodeType::TXS => seq![0x54, 0x58, 0x53],
        OpcodeType::TYA => seq![0x54, 0x59, 0x41],
    }
}

/// The eight conditional branches, whose operand is a relative displacement.
pub open spec fn is_branch(op: OpcodeType) -> bool {
    matches!(op, OpcodeType::BCC | OpcodeType::BCS | OpcodeType::BEQ | OpcodeType::BMI | OpcodeType::BNE | OpcodeType::BPL | OpcodeType::BVC | OpcodeType::BVS)
}

impl OpcodeType {
    /// The mnemonic spelled by `string`, if there is one.
    pub fn identify(string: &str) -> (r: Result<OpcodeType, ()>)
        ensures
            match r {
                Ok(op) => string.spec_bytes() == mnemonic(op),
                Err(_) => forall|op: OpcodeType| string.spec_bytes() != mnemonic(op),
            },
    {
        Self::from_mnemonic(string.as_bytes())
    }

    /// The mnemonic spelled by the bytes of `text`, if there is one.
    pub fn from_mnemonic(text: &[u8]) -> (r: Result<OpcodeType, ()>)
        ensures
            match r {
                Ok(op) => text@ == mnemonic(op),
                Err(_) => forall|op: OpcodeType| text@ != mnemonic(op),
            },
    {
        if text.len() != 3 {
            proof {
                assert forall|op: OpcodeType| text@ != mnemonic(op) by {
                    assert(mnemonic(op).len() == 3);
                }
            }
            return Err(());
        }
        let r = match (text[0], text[1], text[2]) {
            (0x41, 0x44, 0x43) => Ok(OpcodeType::ADC),
            (0x41, 0x4E, 0x44) => Ok(OpcodeType::AND),
            (0x41, 0x53, 0x4C) => Ok(OpcodeType::ASL),
            (0x42, 0x43, 0x43) => Ok(OpcodeType::BCC),
            (0x42, 0x43, 0x53) => Ok(OpcodeType::BCS),
            (0x42, 0x45, 0x51) => Ok(OpcodeType::BEQ),
            (0x42, 0x49, 0x54) => Ok(OpcodeType::BIT),
            (0x42, 0x4D, 0x49) => Ok(OpcodeType::BMI),
            (0x42, 0x4E, 0x45) => Ok(OpcodeType::BNE),
            (0x42, 0x50, 0x4C) => Ok(OpcodeType::BPL),
            (0x42, 0x52, 0x4B) => Ok(OpcodeType::BRK),
            (0x42, 0x56, 0x43) => Ok(OpcodeType::BVC),
            (0x42, 0x56, 0x53) => Ok(OpcodeType::BVS),
            (0x43, 0x4C, 0x43) => Ok(OpcodeType::CLC),
            (0x43, 0x4C, 0x44) => Ok(OpcodeType::CLD),
            (0x43, 0x4C, 0x49) => Ok(OpcodeType::CLI),
            (0x43, 0x4C, 0x56) => Ok(OpcodeType::CLV),
            (0x43, 0x4D, 0x50) => Ok(OpcodeType::CMP),
            (0x43, 0x50, 0x58) => Ok(OpcodeType::CPX),
            (0x43, 0x50, 0x59) => Ok(OpcodeType::CPY),
            (0x44, 0x45, 0x43) => Ok(OpcodeType::DEC),
            (0x44, 0x45, 0x58) => Ok(OpcodeType::DEX),
            (0x44, 0x45, 0x59) => Ok(OpcodeType::DEY),
            (0x45, 0x4F, 0x52) => Ok(OpcodeType::EOR),
            (0x49, 0x4E, 0x43) => Ok(OpcodeType::INC),
            (0x49, 0x4E, 0x58) => Ok(OpcodeType::INX),
            (0x49, 0x4E, 0x59) => Ok(OpcodeType::INY),
            (0x4A, 0x4D, 0x50) => Ok(OpcodeType::JMP),
            (0x4A, 0x53, 0x52) => Ok(OpcodeType::JSR),
            (0x4C, 0x44, 0x41) => Ok(OpcodeType::LDA),
            (0x4C, 0x44, 0x58) => Ok(OpcodeType::LDX),
            (0x4C, 0x44, 0x59) => Ok(OpcodeType::LDY),
            (0x4C, 0x53, 0x52) => Ok(OpcodeType::LSR),
            (0x4E, 0x4F, 0x50) => Ok(OpcodeType::NOP),
            (0x4F, 0x52, 0x41) => Ok(OpcodeType::ORA),
            (0x50, 0x48, 0x41) => Ok(OpcodeType::PHA),
            (0x50, 0x48, 0x50) => Ok(OpcodeType::PHP),
            (0x50, 0x4C, 0x41) => Ok(OpcodeType::PLA),
            (0x50, 0x4C, 0x50) => Ok(OpcodeType::PLP),
            (0x52, 0x4F, 0x4C) => Ok(OpcodeType::ROL),
            (0x52, 0x4F, 0x52) => Ok(OpcodeType::ROR),
            (0x52, 0x54, 0x49) => Ok(OpcodeType::RTI),
            (0x52, 0x54, 0x53) => Ok(OpcodeType::RTS),
            (0x53, 0x42, 0x43) => Ok(OpcodeType::SBC),
            (0x53, 0x45, 0x43) => Ok(OpcodeType::SEC),
            (0x53, 0x45, 0x44) => Ok(OpcodeType::SED),
            (0x53, 0x45, 0x49) => Ok(OpcodeType::SEI),
            (0x53, 0x54, 0x41) => Ok(OpcodeType::STA),
            (0x53, 0x54, 0x58) => Ok(OpcodeType::STX),
            (0x53, 0x54, 0x59) => Ok(OpcodeType::STY),
            (0x54, 0x41, 0x58) => Ok(OpcodeType::TAX),
            (0x54, 0x41, 0x59) => Ok(OpcodeType::TAY),
            (0x54, 0x53, 0x58) => Ok(OpcodeType::TSX),
            (0x54, 0x58, 0x41) => Ok(OpcodeType::TXA),
            (0x54, 0x58, 0x53) => Ok(OpcodeType::TXS),
            (0x54, 0x59, 0x41) => Ok(OpcodeType::TYA),
            _ => Err(()),
        };
        proof {
            match r {
                Ok(op) => {
                    assert(text@ =~= mnemonic(op));
                },
                Err(_) => {
                    assert forall|op: OpcodeType| text@ != mnemonic(op) by {
                        if text@ == mnemonic(op) {
                            assert(text@[0] == mnemonic(op)[0]);
                            assert(text@[1] == mnemonic(op)[1]);
                            assert(text@[2] == mnemonic(op)[2]);
                        }
                    }
                },
            }
        }
        r
    }

    /// Whether this is one of the eight conditional branches.
    pub fn is_branch_op(self) -> (r: bool)
        ensures
            r == is_branch(self),
    {
        matches!(self, OpcodeType::BCC | OpcodeType::BCS | OpcodeType::BEQ | OpcodeType::BMI | OpcodeType::BNE | OpcodeType::BPL | OpcodeType::BVC | OpcodeType::BVS)
    }
}

/// One populated slot of the opcode table: what an opcode byte encodes.
#[derive(Debug, Copy, Clone, PartialEq, Eq, Structural)]
pub struct OpcodeData {
    pub name: OpcodeType,
    pub addr_mode: AddressingMode,
}

/// The official opcode matrix: what each opcode byte encodes, if anything.
pub open spec fn opcode_table(code: u8) -> Option<OpcodeData> {
    match code {
        0x00 => Some(OpcodeData { name: OpcodeType::BRK, addr_mode: AddressingMode::IMPL }),
        0x01 => Some(OpcodeData { name: OpcodeType::ORA, addr_mode: AddressingMode::INDX }),
        0x05 => Some(OpcodeData { name: OpcodeType::ORA, addr_mode: AddressingMode::ZPG }),
        0x06 => Some(OpcodeData { name: OpcodeType::ASL, addr_mode: AddressingMode::ZPG }),
        0x08 => Some(OpcodeData { name: OpcodeType::PHP, addr_mode: AddressingMode::IMPL }),
        0x09 => Some(OpcodeData { name: OpcodeType::ORA, addr_mode: AddressingMode::IMM }),
        0x0A => Some(OpcodeData { name: OpcodeType::ASL, addr_mode: AddressingMode::A }),
        0x0D => Some(OpcodeData { name: OpcodeType::ORA, addr_mode: AddressingMode::ABS }),
        0x0E => Some(OpcodeData { name: OpcodeType::ASL, addr_mode: AddressingMode::ABS }),
        0x10 => Some(OpcodeData { name: OpcodeType::BPL, addr_mode: AddressingMode::REL }),
        0x11 => Some(OpcodeData { name: OpcodeType::ORA, addr_mode: AddressingMode::INDY }),
        0x15 => Some(OpcodeData { name: OpcodeType::ORA, addr_mode: AddressingMode::ZPGX }),
        0x16 => Some(OpcodeData { name: OpcodeType::ASL, addr_mode: AddressingMode::ZPGX }),
        0x18 => Some(OpcodeData { name: OpcodeType::CLC, addr_mode: AddressingMode::IMPL }),
        0x19 => Some(OpcodeData { name: OpcodeType::ORA, addr_mode: AddressingMode::ABSY }),
        0x1D => Some(OpcodeData { name: OpcodeType::ORA, addr_mode: AddressingMode::ABSX }),
        0x1E => Some(OpcodeData { name: OpcodeType::ASL, addr_mode: AddressingMode::ABSX }),
        0x20 => Some(OpcodeData { name: OpcodeType::JSR, addr_mode: AddressingMode::ABS }),
        0x21 => Some(OpcodeData { name: OpcodeType::AND, addr_mode: AddressingMode::INDX }),
        0x24 => Some(OpcodeData { name: OpcodeType::BIT, addr_mode: AddressingMode::ZPG }),
        0x25 => Some(OpcodeData { name: OpcodeType::AND, addr_mode: AddressingMode::ZPG }),
        0x26 => Some(OpcodeData { name: OpcodeType::ROL, addr_mode: AddressingMode::ZPG }),
        0x28 => Some(OpcodeData { name: OpcodeType::PLP, addr_mode: AddressingMode::IMPL }),
        0x29 => Some(OpcodeData { name: OpcodeType::AND, addr_mode: AddressingMode::IMM }),
        0x2A => Some(OpcodeData { name: OpcodeType::ROL, addr_mode: AddressingMode::A }),
        0x2C => Some(OpcodeData { name: OpcodeType::BIT, addr_mode: AddressingMode::ABS }),
        0x2D => Some(OpcodeData { name: OpcodeType::AND, addr_mode: AddressingMode::ABS }),
        0x2E => Some(OpcodeData { name: OpcodeType::ROL, addr_mode: AddressingMode::ABS }),
        0x30 => Some(OpcodeData { name: OpcodeType::BMI, addr_mode: AddressingMode::REL }),
        0x31 => Some(OpcodeData { name: OpcodeType::AND, addr_mode: AddressingMode::INDY }),
        0x35 => Some(OpcodeData { name: OpcodeType::AND, addr_mode: AddressingMode::ZPGX }),
        0x36 => Some(OpcodeData { name: OpcodeType::ROL, addr_mode: AddressingMode::ZPGX }),
        0x38 => Some(OpcodeData { name: OpcodeType::SEC, addr_mode: AddressingMode::IMPL }),
        0x39 => Some(OpcodeData { name: OpcodeType::AND, addr_mode: AddressingMode::ABSY }),
        0x3D => Some(OpcodeData { name: OpcodeType::AND, addr_mode: AddressingMode::ABSX }),
        0x3E => Some(OpcodeData { name: OpcodeType::ROL, addr_mode: AddressingMode::ABSX }),
        0x40 => Some(OpcodeData { name: OpcodeType::RTI, addr_mode: AddressingMode::IMPL }),
        0x41 => Some(OpcodeData { name: OpcodeType::EOR, addr_mode: AddressingMode::INDX }),
        0x45 => Some(OpcodeData { name: OpcodeType::EOR, addr_mode: AddressingMode::ZPG }),
        0x46 => Some(OpcodeData { name: OpcodeType::LSR, addr_mode: AddressingMode::ZPG }),
        0x48 => Some(OpcodeData { name: OpcodeType::PHA, addr_mode: AddressingMode::IMPL }),
        0x49 => Some(OpcodeData { name: OpcodeType::EOR, addr_mode: AddressingMode::IMM }),
        0x4A => Some(OpcodeData { name: OpcodeType::LSR, addr_mode: AddressingMode::A }),
        0x4C => Some(OpcodeData { name: OpcodeType::JMP, addr_mode: AddressingMode::ABS }),
        0x4D => Some(OpcodeData { name: OpcodeType::EOR, addr_mode: AddressingMode::ABS }),
        0x4E => Some(OpcodeData { name: OpcodeType::LSR, addr_mode: AddressingMode::ABS }),
        0x50 => Some(OpcodeData { name: OpcodeType::BVC, addr_mode: AddressingMode::REL }),
        0x51 => Some(OpcodeData { name: OpcodeType::EOR, addr_mode: AddressingMode::INDY }),
        0x55 => Some(OpcodeData { name: OpcodeType::EOR, addr_mode: AddressingMode::ZPGX }),
        0x56 => Some(OpcodeData { name: OpcodeType::LSR, addr_mode: AddressingMode::ZPGX }),
        0x58 => Some(OpcodeData { name: OpcodeType::CLI, addr_mode: AddressingMode::IMPL }),
        0x59 => Some(OpcodeData { name: OpcodeType::EOR, addr_mode: AddressingMode::ABSY }),
        0x5D => Some(OpcodeData { name: OpcodeType::EOR, addr_mode: AddressingMode::ABSX }),
        0x5E => Some(OpcodeData { name: OpcodeType::LSR, addr_mode: AddressingMode::ABSX }),
        0x60 => Some(OpcodeData { name: OpcodeType::RTS, addr_mode: AddressingMode::IMPL }),
        0x61 => Some(OpcodeData { name: OpcodeType::ADC, addr_mode: AddressingMode::INDX }),
        0x65 => Some(OpcodeData { name: OpcodeType::ADC, addr_mode: AddressingMode::ZPG }),
        0x66 => Some(OpcodeData { name: OpcodeType::ROR, addr_mode: AddressingMode::ZPG }),
        0x68 => Some(OpcodeData { name: OpcodeType::PLA, addr_mode: AddressingMode::IMPL }),
        0x69 => Some(OpcodeData { name: OpcodeType::ADC, addr_mode: AddressingMode::IMM }),
        0x6A => Some(OpcodeData { name: OpcodeType::ROR, addr_mode: AddressingMode::A }),
        0x6C => Some(OpcodeData { name: OpcodeType::JMP, addr_mode: AddressingMode::IND }),
        0x6D => Some(OpcodeData { name: OpcodeType::ADC, addr_mode: AddressingMode::ABS }),
        0x6E => Some(OpcodeData { name: OpcodeType::ROR, addr_mode: AddressingMode::ABS }),
        0x70 => Some(OpcodeData { name: OpcodeType::BVS, addr_mode: AddressingMode::REL }),
        0x71 => Some(OpcodeData { name: OpcodeType::ADC, addr_mode: AddressingMode::INDY }),
        0x75 => Some(OpcodeData { name: OpcodeType::ADC, addr_mode: AddressingMode::ZPGX }),
        0x76 => Some(OpcodeData { name: OpcodeType::ROR, addr_mode: AddressingMode::ZPGX }),
        0x78 => Some(OpcodeData { name: OpcodeType::SEI, addr_mode: AddressingMode::IMPL }),
        0x79 => Some(OpcodeData { name: OpcodeType::ADC, addr_mode: AddressingMode::ABSY }),
        0x7D => Some(OpcodeData { name: OpcodeType::ADC, addr_mode: AddressingMode::ABSX }),
        0x7E => Some(OpcodeData { name: OpcodeType::ROR, addr_mode: AddressingMode::ABSX }),
        0x81 => Some(OpcodeData { name: OpcodeType::STA, addr_mode: AddressingMode::INDX }),
        0x84 => Some(OpcodeData { name: OpcodeType::STY, addr_mode: AddressingMode::ZPG }),
        0x85 => Some(OpcodeData { name: OpcodeType::STA, addr_mode: AddressingMode::ZPG }),
        0x86 => Some(OpcodeData { name: OpcodeType::STX, addr_mode: AddressingMode::ZPG }),
        0x88 => Some(OpcodeData { name: OpcodeType::DEY, addr_mode: AddressingMode::IMPL }),
        0x8A => Some(OpcodeData { name: OpcodeType::TXA, addr_mode: AddressingMode::IMPL }),
        0x8C => Some(OpcodeData { name: OpcodeType::STY, addr_mode: AddressingMode::ABS }),
        0x8D => Some(OpcodeData { name: OpcodeType::STA, addr_mode: AddressingMode::ABS }),
        0x8E => Some(OpcodeData { name: OpcodeType::STX, addr_mode: AddressingMode::ABS }),
        0x90 => Some(OpcodeData { name: OpcodeType::BCC, addr_mode: AddressingMode::REL }),
        0x91 => Some(OpcodeData { name: OpcodeType::STA, addr_mode: AddressingMode::INDY }),
        0x94 => Some(OpcodeData { name: OpcodeType::STY, addr_mode: AddressingMode::ZPGX }),
        0x95 => Some(OpcodeData { name: OpcodeType::STA, addr_mode: AddressingMode::ZPGX }),
        0x96 => Some(OpcodeData { name: OpcodeType::STX, addr_mode: AddressingMode::ZPGY }),
        0x98 => Some(OpcodeData { name: OpcodeType::TYA, addr_mode: AddressingMode::IMPL }),
        0x99 => Some(OpcodeData { name: OpcodeType::STA, addr_mode: AddressingMode::ABSY }),
        0x9A => Some(OpcodeData { name: OpcodeType::TXS, addr_mode: AddressingMode::IMPL }),
        0x9D => Some(OpcodeData { name: OpcodeType::STA, addr_mode: AddressingMode::ABSX }),
        0xA0 => Some(OpcodeData { name: OpcodeType::LDY, addr_mode: AddressingMode::IMM }),
        0xA1 => Some(OpcodeData { name: OpcodeType::LDA, addr_mode: AddressingMode::INDX }),
        0xA2 => Some(OpcodeData { name: OpcodeType::LDX, addr_mode: AddressingMode::IMM }),
        0xA4 => Some(OpcodeData { name: OpcodeType::LDY, addr_mode: AddressingMode::ZPG }),
        0xA5 => Some(OpcodeData { name: OpcodeType::LDA, addr_mode: AddressingMode::ZPG }),
        0xA6 => Some(OpcodeData { name: OpcodeType::LDX, addr_mode: AddressingMode::ZPG }),
        0xA8 => Some(OpcodeData { name: OpcodeType::TAY, addr_mode: AddressingMode::IMPL }),
        0xA9 => Some(OpcodeData { name: OpcodeType::LDA, addr_mode: AddressingMode::IMM }),
        0xAA => Some(OpcodeData { name: OpcodeType::TAX, addr_mode: AddressingMode::IMPL }),
        0xAC => Some(OpcodeData { name: OpcodeType::LDY, addr_mode: AddressingMode::ABS }),
        0xAD => Some(OpcodeData { name: OpcodeType::LDA, addr_mode: AddressingMode::ABS }),
        0xAE => Some(OpcodeData { name: OpcodeType::LDX, addr_mode: AddressingMode::ABS }),
        0xB0 => Some(OpcodeData { name: OpcodeType::BCS, addr_mode: AddressingMode::REL }),
        0xB1 => Some(OpcodeData { name: OpcodeType::LDA, addr_mode: AddressingMode::INDY }),
        0xB4 => Some(OpcodeData { name: OpcodeType::LDY, addr_mode: AddressingMode::ZPGX }),
        0xB5 => Some(OpcodeData { name: OpcodeType::LDA, addr_mode: AddressingMode::ZPGX }),
        0xB6 => Some(OpcodeData { name: OpcodeType::LDX, addr_mode: AddressingMode::ZPGY }),
        0xB8 => Some(OpcodeData { name: OpcodeType::CLV, addr_mode: AddressingMode::IMPL }),
        0xB9 => Some(OpcodeData { name: OpcodeType::LDA, addr_mode: AddressingMode::ABSY }),
        0xBA => Some(OpcodeData { name: OpcodeType::TSX, addr_mode: AddressingMode::IMPL }),
        0xBC => Some(OpcodeData { name: OpcodeType::LDY, addr_mode: AddressingMode::ABSX }),
        0xBD => Some(OpcodeData { name: OpcodeType::LDA, addr_mode: AddressingMode::ABSX }),
        0xBE => Some(OpcodeData { name: OpcodeType::LDX, addr_mode: AddressingMode::ABSY }),
        0xC0 => Some(OpcodeData { name: OpcodeType::CPY, addr_mode: AddressingMode::IMM }),
        0xC1 => Some(OpcodeData { name: OpcodeType::CMP, addr_mode: AddressingMode::INDX }),
        0xC4 => Some(OpcodeData { name: OpcodeType::CPY, addr_mode: AddressingMode::ZPG }),
        0xC5 => Some(OpcodeData { name: OpcodeType::CMP, addr_mode: AddressingMode::ZPG }),
        0xC6 => Some(OpcodeData { name: OpcodeType::DEC, addr_mode: AddressingMode::ZPG }),
        0xC8 => Some(OpcodeData { name: OpcodeType::INY, addr_mode: AddressingMode::IMPL }),
        0xC9 => Some(OpcodeData { name: OpcodeType::CMP, addr_mode: AddressingMode::IMM }),
        0xCA => Some(OpcodeData { name: OpcodeType::DEX, addr_mode: AddressingMode::IMPL }),
        0xCC => Some(OpcodeData { name: OpcodeType::CPY, addr_mode: AddressingMode::ABS }),
        0xCD => Some(OpcodeData { name: OpcodeType::CMP, addr_mode: AddressingMode::ABS }),
        0xCE => Some(OpcodeData { name: OpcodeType::DEC, addr_mode: AddressingMode::ABS }),
        0xD0 => Some(OpcodeData { name: OpcodeType::BNE, addr_mode: AddressingMode::REL }),
        0xD1 => Some(OpcodeData { name: OpcodeType::CMP, addr_mode: AddressingMode::INDY }),
        0xD5 => Some(OpcodeData { name: OpcodeType::CMP, addr_mode: AddressingMode::ZPGX }),
        0xD6 => Some(OpcodeData { name: OpcodeType::DEC, addr_mode: AddressingMode::ZPGX }),
        0xD8 => Some(OpcodeData { name: OpcodeType::CLD, addr_mode: AddressingMode::IMPL }),
        0xD9 => Some(OpcodeData { name: OpcodeType::CMP, addr_mode: AddressingMode::ABSY }),
        0xDD => Some(OpcodeData { name: OpcodeType::CMP, addr_mode: AddressingMode::ABSX }),
        0xDE => Some(OpcodeData { name: OpcodeType::DEC, addr_mode: AddressingMode::ABSX }),
        0xE0 => Some(OpcodeData { name: OpcodeType::CPX, addr_mode: AddressingMode::IMM }),
        0xE1 => Some(OpcodeData { name: OpcodeType::SBC, addr_mode: AddressingMode::INDX }),
        0xE4 => Some(OpcodeData { name: OpcodeType::CPX, addr_mode: AddressingMode::ZPG }),
        0xE5 => Some(OpcodeData { name: OpcodeType::SBC, addr_mode: AddressingMode::ZPG }),
        0xE6 => Some(OpcodeData { name: OpcodeType::INC, addr_mode: AddressingMode::ZPG }),
        0xE8 => Some(OpcodeData { name: OpcodeType::INX, addr_mode: AddressingMode::IMPL }),
        0xE9 => Some(OpcodeData { name: OpcodeType::SBC, addr_mode: AddressingMode::IMM }),
        0xEA => Some(OpcodeData { name: OpcodeType::NOP, addr_mode: AddressingMode::IMPL }),
        0xEC => Some(OpcodeData { name: OpcodeType::CPX, addr_mode: AddressingMode::ABS }),
        0xED => Some(OpcodeData { name: OpcodeType::SBC, addr_mode: AddressingMode::ABS }),
        0xEE => Some(OpcodeData { name: OpcodeType::INC, addr_mode: AddressingMode::ABS }),
        0xF0 => Some(OpcodeData { name: OpcodeType::BEQ, addr_mode: AddressingMode::REL }),
        0xF1 => Some(OpcodeData { name: OpcodeType::SBC, addr_mode: AddressingMode::INDY }),
        0xF5 => Some(OpcodeData { name: OpcodeType::SBC, addr_mode: AddressingMode::ZPGX }),
        0xF6 => Some(OpcodeData { name: OpcodeType::INC, addr_mode: AddressingMode::ZPGX }),
        0xF8 => Some(OpcodeData { name: OpcodeType::SED, addr_mode: AddressingMode::IMPL }),
        0xF9 => Some(OpcodeData { name: OpcodeType::SBC, addr_mode: AddressingMode::ABSY }),
        0xFD => Some(OpcodeData { name: OpcodeType::SBC, addr_mode: AddressingMode::ABSX }),
        0xFE => Some(OpcodeData { name: OpcodeType::INC, addr_mode: AddressingMode::ABSX }),
        _ => None,
    }
}

/// The slot of the opcode table for `code`.
pub fn opcode_entry(code: u8) -> (r: Option<OpcodeData>)
    ensures
        r == opcode_table(code),
{
    match code {
        0x00 => Some(OpcodeData { name: OpcodeType::BRK, addr_mode: AddressingMode::IMPL }),
        0x01 => Some(OpcodeData { name: OpcodeType::ORA, addr_mode: AddressingMode::INDX }),
        0x05 => Some(OpcodeData { name: OpcodeType::ORA, addr_mode: AddressingMode::ZPG }),
        0x06 => Some(OpcodeData { name: OpcodeType::ASL, addr_mode: AddressingMode::ZPG }),
        0x08 => Some(OpcodeData { name: OpcodeType::PHP, addr_mode: AddressingMode::IMPL }),
        0x09 => Some(OpcodeData { name: OpcodeType::ORA, addr_mode: AddressingMode::IMM }),
        0x0A => Some(OpcodeData { name: OpcodeType::ASL, addr_mode: AddressingMode::A }),
        0x0D => Some(OpcodeData { name: OpcodeType::ORA, addr_mode: AddressingMode::ABS }),
        0x0E => Some(OpcodeData { name: OpcodeType::ASL, addr_mode: AddressingMode::ABS }),
        0x10 => Some(OpcodeData { name: OpcodeType::BPL, addr_mode: AddressingMode::REL }),
        0x11 => Some(OpcodeData { name: OpcodeType::ORA, addr_mode: AddressingMode::INDY }),
        0x15 => Some(OpcodeData { name: OpcodeType::ORA, addr_mode: AddressingMode::ZPGX }),
        0x16 => Some(OpcodeData { name: OpcodeType::ASL, addr_mode: AddressingMode::ZPGX }),
        0x18 => Some(OpcodeData { name: OpcodeType::CLC, addr_mode: AddressingMode::IMPL }),
        0x19 => Some(OpcodeData { name: OpcodeType::ORA, addr_mode: AddressingMode::ABSY }),
        0x1D => Some(OpcodeData { name: OpcodeType::ORA, addr_mode: AddressingMode::ABSX }),
        0x1E => Some(OpcodeData { name: OpcodeType::ASL, addr_mode: AddressingMode::ABSX }),
        0x20 => Some(OpcodeData { name: OpcodeType::JSR, addr_mode: AddressingMode::ABS }),
        0x21 => Some(OpcodeData { name: OpcodeType::AND, addr_mode: AddressingMode::INDX }),
        0x24 => Some(OpcodeData { name: OpcodeType::BIT, addr_mode: AddressingMode::ZPG }),
        0x25 => Some(OpcodeData { name: OpcodeType::AND, addr_mode: AddressingMode::ZPG }),
        0x26 => Some(OpcodeData { name: OpcodeType::ROL, addr_mode: AddressingMode::ZPG }),
        0x28 => Some(OpcodeData { name: OpcodeType::PLP, addr_mode: AddressingMode::IMPL }),
        0x29 => Some(OpcodeData { name: OpcodeType::AND, addr_mode: AddressingMode::IMM }),
        0x2A => Some(OpcodeData { name: OpcodeType::ROL, addr_mode: AddressingMode::A }),
        0x2C => Some(OpcodeData { name: OpcodeType::BIT, addr_mode: AddressingMode::ABS }),
        0x2D => Some(OpcodeData { name: OpcodeType::AND, addr_mode: AddressingMode::ABS }),
        0x2E => Some(OpcodeData { name: OpcodeType::ROL, addr_mode: AddressingMode::ABS }),
        0x30 => Some(OpcodeData { name: OpcodeType::BMI, addr_mode: AddressingMode::REL }),
        0x31 => Some(OpcodeData { name: OpcodeType::AND, addr_mode: AddressingMode::INDY }),
        0x35 => Some(OpcodeData { name: OpcodeType::AND, addr_mode: AddressingMode::ZPGX }),
        0x36 => Some(OpcodeData { name: OpcodeType::ROL, addr_mode: AddressingMode::ZPGX }),
        0x38 => Some(OpcodeData { name: OpcodeType::SEC, addr_mode: AddressingMode::IMPL }),
        0x39 => Some(OpcodeData { name: OpcodeType::AND, addr_mode: AddressingMode::ABSY }),
        0x3D => Some(OpcodeData { name: OpcodeType::AND, addr_mode: AddressingMode::ABSX }),
        0x3E => Some(OpcodeData { name: OpcodeType::ROL, addr_mode: AddressingMode::ABSX }),
        0x40 => Some(OpcodeData { name: OpcodeType::RTI, addr_mode: AddressingMode::IMPL }),
        0x41 => Some(OpcodeData { name: OpcodeType::EOR, addr_mode: AddressingMode::INDX }),
        0x45 => Some(OpcodeData { name: OpcodeType::EOR, addr_mode: AddressingMode::ZPG }),
        0x46 => Some(OpcodeData { name: OpcodeType::LSR, addr_mode: AddressingMode::ZPG }),
        0x48 => Some(OpcodeData { name: OpcodeType::PHA, addr_mode: AddressingMode::IMPL }),
        0x49 => Some(OpcodeData { name: OpcodeType::EOR, addr_mode: AddressingMode::IMM }),
        0x4A => Some(OpcodeData { name: OpcodeType::LSR, addr_mode: AddressingMode::A }),
        0x4C => Some(OpcodeData { name: OpcodeType::JMP, addr_mode: AddressingMode::ABS }),
        0x4D => Some(OpcodeData { name: OpcodeType::EOR, addr_mode: AddressingMode::ABS }),
        0x4E => Some(OpcodeData { name: OpcodeType::LSR, addr_mode: AddressingMode::ABS }),
        0x50 => Some(OpcodeData { name: OpcodeType::BVC, addr_mode: AddressingMode::REL }),
        0x51 => Some(OpcodeData { name: OpcodeType::EOR, addr_mode: AddressingMode::INDY }),
        0x55 => Some(OpcodeData { name: OpcodeType::EOR, addr_mode: AddressingMode::ZPGX }),
        0x56 => Some(OpcodeData { name: OpcodeType::LSR, addr_mode: AddressingMode::ZPGX }),
        0x58 => Some(OpcodeData { name: OpcodeType::CLI, addr_mode: AddressingMode::IMPL }),
        0x59 => Some(OpcodeData { name: OpcodeType::EOR, addr_mode: AddressingMode::ABSY }),
        0x5D => Some(OpcodeData { name: OpcodeType::EOR, addr_mode: AddressingMode::ABSX }),
        0x5E => Some(OpcodeData { name: OpcodeType::LSR, addr_mode: AddressingMode::ABSX }),
        0x60 => Some(OpcodeData { name: OpcodeType::RTS, addr_mode: AddressingMode::IMPL }),
        0x61 => Some(OpcodeData { name: OpcodeType::ADC, addr_mode: AddressingMode::INDX }),
        0x65 => Some(OpcodeData { name: OpcodeType::ADC, addr_mode: AddressingMode::ZPG }),
        0x66 => Some(OpcodeData { name: OpcodeType::ROR, addr_mode: AddressingMode::ZPG }),
        0x68 => Some(OpcodeData { name: OpcodeType::PLA, addr_mode: AddressingMode::IMPL }),
        0x69 => Some(OpcodeData { name: OpcodeType::ADC, addr_mode: AddressingMode::IMM }),
        0x6A => Some(OpcodeData { name: OpcodeType::ROR, addr_mode: AddressingMode::A }),
        0x6C => Some(OpcodeData { name: OpcodeType::JMP, addr_mode: AddressingMode::IND }),
        0x6D => Some(OpcodeData { name: OpcodeType::ADC, addr_mode: AddressingMode::ABS }),
        0x6E => Some(OpcodeData { name: OpcodeType::ROR, addr_mode: AddressingMode::ABS }),
        0x70 => Some(OpcodeData { name: OpcodeType::BVS, addr_mode: AddressingMode::REL }),
        0x71 => Some(OpcodeData { name: OpcodeType::ADC, addr_mode: AddressingMode::INDY }),
        0x75 => Some(OpcodeData { name: OpcodeType::ADC, addr_mode: AddressingMode::ZPGX }),
        0x76 => Some(OpcodeData { name: OpcodeType::ROR, addr_mode: AddressingMode::ZPGX }),
        0x78 => Some(OpcodeData { name: OpcodeType::SEI, addr_mode: AddressingMode::IMPL }),
        0x79 => Some(OpcodeData { name: OpcodeType::ADC, addr_mode: AddressingMode::ABSY }),
        0x7D => Some(OpcodeData { name: OpcodeType::ADC, addr_mode: AddressingMode::ABSX }),
        0x7E => Some(OpcodeData { name: OpcodeType::ROR, addr_mode: AddressingMode::ABSX }),
        0x81 => Some(OpcodeData { name: OpcodeType::STA, addr_mode: AddressingMode::INDX }),
        0x84 => Some(OpcodeData { name: OpcodeType::STY, addr_mode: AddressingMode::ZPG }),
        0x85 => Some(OpcodeData { name: OpcodeType::STA, addr_mode: AddressingMode::ZPG }),
        0x86 => Some(OpcodeData { name: OpcodeType::STX, addr_mode: AddressingMode::ZPG }),
        0x88 => Some(OpcodeData { name: OpcodeType::DEY, addr_mode: AddressingMode::IMPL }),
        0x8A => Some(OpcodeData { name: OpcodeType::TXA, addr_mode: AddressingMode::IMPL }),
        0x8C => Some(OpcodeData { name: OpcodeType::STY, addr_mode: AddressingMode::ABS }),
        0x8D => Some(OpcodeData { name: OpcodeType::STA, addr_mode: AddressingMode::ABS }),
        0x8E => Some(OpcodeData { name: OpcodeType::STX, addr_mode: AddressingMode::ABS }),
        0x90 => Some(OpcodeData { name: OpcodeType::BCC, addr_mode: AddressingMode::REL }),
        0x91 => Some(OpcodeData { name: OpcodeType::STA, addr_mode: AddressingMode::INDY }),
        0x94 => Some(OpcodeData { name: OpcodeType::STY, addr_mode: AddressingMode::ZPGX }),
        0x95 => Some(OpcodeData { name: OpcodeType::STA, addr_mode: AddressingMode::ZPGX }),
        0x96 => Some(OpcodeData { name: OpcodeType::STX, addr_mode: AddressingMode::ZPGY }),
        0x98 => Some(OpcodeData { name: OpcodeType::TYA, addr_mode: AddressingMode::IMPL }),
        0x99 => Some(OpcodeData { name: OpcodeType::STA, addr_mode: AddressingMode::ABSY }),
        0x9A => Some(OpcodeData { name: OpcodeType::TXS, addr_mode: AddressingMode::IMPL }),
        0x9D => Some(OpcodeData { name: OpcodeType::STA, addr_mode: AddressingMode::ABSX }),
        0xA0 => Some(OpcodeData { name: OpcodeType::LDY, addr_mode: AddressingMode::IMM }),
        0xA1 => Some(OpcodeData { name: OpcodeType::LDA, addr_mode: AddressingMode::INDX }),
        0xA2 => Some(OpcodeData { name: OpcodeType::LDX, addr_mode: AddressingMode::IMM }),
        0xA4 => Some(OpcodeData { name: OpcodeType::LDY, addr_mode: AddressingMode::ZPG }),
        0xA5 => Some(OpcodeData { name: OpcodeType::LDA, addr_mode: AddressingMode::ZPG }),
        0xA6 => Some(OpcodeData { name: OpcodeType::LDX, addr_mode: AddressingMode::ZPG }),
        0xA8 => Some(OpcodeData { name: OpcodeType::TAY, addr_mode: AddressingMode::IMPL }),
        0xA9 => Some(OpcodeData { name: OpcodeType::LDA, addr_mode: AddressingMode::IMM }),
        0xAA => Some(OpcodeData { name: OpcodeType::TAX, addr_mode: AddressingMode::IMPL }),
        0xAC => Some(OpcodeData { name: OpcodeType::LDY, addr_mode: AddressingMode::ABS }),
        0xAD => Some(OpcodeData { name: OpcodeType::LDA, addr_mode: AddressingMode::ABS }),
        0xAE => Some(OpcodeData { name: OpcodeType::LDX, addr_mode: AddressingMode::ABS }),
        0xB0 => Some(OpcodeData { name: OpcodeType::BCS, addr_mode: AddressingMode::REL }),
        0xB1 => Some(OpcodeData { name: OpcodeType::LDA, addr_mode: AddressingMode::INDY }),
        0xB4 => Some(OpcodeData { name: OpcodeType::LDY, addr_mode: AddressingMode::ZPGX }),
        0xB5 => Some(OpcodeData { name: OpcodeType::LDA, addr_mode: AddressingMode::ZPGX }),
        0xB6 => Some(OpcodeData { name: OpcodeType::LDX, addr_mode: AddressingMode::ZPGY }),
        0xB8 => Some(OpcodeData { name: OpcodeType::CLV, addr_mode: AddressingMode::IMPL }),
        0xB9 => Some(OpcodeData { name: OpcodeType::LDA, addr_mode: AddressingMode::ABSY }),
        0xBA => Some(OpcodeData { name: OpcodeType::TSX, addr_mode: AddressingMode::IMPL }),
        0xBC => Some(OpcodeData { name: OpcodeType::LDY, addr_mode: AddressingMode::ABSX }),
        0xBD => Some(OpcodeData { name: OpcodeType::LDA, addr_mode: AddressingMode::ABSX }),
        0xBE => Some(OpcodeData { name: OpcodeType::LDX, addr_mode: AddressingMode::ABSY }),
        0xC0 => Some(OpcodeData { name: OpcodeType::CPY, addr_mode: AddressingMode::IMM }),
        0xC1 => Some(OpcodeData { name: OpcodeType::CMP, addr_mode: AddressingMode::INDX }),
        0xC4 => Some(OpcodeData { name: OpcodeType::CPY, addr_mode: AddressingMode::ZPG }),
        0xC5 => Some(OpcodeData { name: OpcodeType::CMP, addr_mode: AddressingMode::ZPG }),
        0xC6 => Some(OpcodeData { name: OpcodeType::DEC, addr_mode: AddressingMode::ZPG }),
        0xC8 => Some(OpcodeData { name: OpcodeType::INY, addr_mode: AddressingMode::IMPL }),
        0xC9 => Some(OpcodeData { name: OpcodeType::CMP, addr_mode: AddressingMode::IMM }),
        0xCA => Some(OpcodeData { name: OpcodeType::DEX, addr_mode: AddressingMode::IMPL }),
        0xCC => Some(OpcodeData { name: OpcodeType::CPY, addr_mode: AddressingMode::ABS }),
        0xCD => Some(OpcodeData { name: OpcodeType::CMP, addr_mode: AddressingMode::ABS }),
        0xCE => Some(OpcodeData { name: OpcodeType::DEC, addr_mode: AddressingMode::ABS }),
        0xD0 => Some(OpcodeData { name: OpcodeType::BNE, addr_mode: AddressingMode::REL }),
        0xD1 => Some(OpcodeData { name: OpcodeType::CMP, addr_mode: AddressingMode::INDY }),
        0xD5 => Some(OpcodeData { name: OpcodeType::CMP, addr_mode: AddressingMode::ZPGX }),
        0xD6 => Some(OpcodeData { name: OpcodeType::DEC, addr_mode: AddressingMode::ZPGX }),
        0xD8 => Some(OpcodeData { name: OpcodeType::CLD, addr_mode: AddressingMode::IMPL }),
        0xD9 => Some(OpcodeData { name: OpcodeType::CMP, addr_mode: AddressingMode::ABSY }),
        0xDD => Some(OpcodeData { name: OpcodeType::CMP, addr_mode: AddressingMode::ABSX }),
        0xDE => Some(OpcodeData { name: OpcodeType::DEC, addr_mode: AddressingMode::ABSX }),
        0xE0 => Some(OpcodeData { name: OpcodeType::CPX, addr_mode: AddressingMode::IMM }),
        0xE1 => Some(OpcodeData { name: OpcodeType::SBC, addr_mode: AddressingMode::INDX }),
        0xE4 => Some(OpcodeData { name: OpcodeType::CPX, addr_mode: AddressingMode::ZPG }),
        0xE5 => Some(OpcodeData { name: OpcodeType::SBC, addr_mode: AddressingMode::ZPG }),
        0xE6 => Some(OpcodeData { name: OpcodeType::INC, addr_mode: AddressingMode::ZPG }),
        0xE8 => Some(OpcodeData { name: OpcodeType::INX, addr_mode: AddressingMode::IMPL }),
        0xE9 => Some(OpcodeData { name: OpcodeType::SBC, addr_mode: AddressingMode::IMM }),
        0xEA => Some(OpcodeData { name: OpcodeType::NOP, addr_mode: AddressingMode::IMPL }),
        0xEC => Some(OpcodeData { name: OpcodeType::CPX, addr_mode: AddressingMode::ABS }),
        0xED => Some(OpcodeData { name: OpcodeType::SBC, addr_mode: AddressingMode::ABS }),
        0xEE => Some(OpcodeData { name: OpcodeType::INC, addr_mode: AddressingMode::ABS }),
        0xF0 => Some(OpcodeData { name: OpcodeType::BEQ, addr_mode: AddressingMode::REL }),
        0xF1 => Some(OpcodeData { name: OpcodeType::SBC, addr_mode: AddressingMode::INDY }),
        0xF5 => Some(OpcodeData { name: OpcodeType::SBC, addr_mode: AddressingMode::ZPGX }),
        0xF6 => Some(OpcodeData { name: OpcodeType::INC, addr_mode: AddressingMode::ZPGX }),
        0xF8 => Some(OpcodeData { name: OpcodeType::SED, addr_mode: AddressingMode::IMPL }),
        0xF9 => Some(OpcodeData { name: OpcodeType::SBC, addr_mode: AddressingMode::ABSY }),
        0xFD => Some(OpcodeData { name: OpcodeType::SBC, addr_mode: AddressingMode::ABSX }),
        0xFE => Some(OpcodeData { name: OpcodeType::INC, addr_mode: AddressingMode::ABSX }),
        _ => None,
    }
}

/// The first opcode byte at or after `from` whose slot holds `name` in `mode`.
pub open spec fn first_encoding(name: OpcodeType, mode: AddressingMode, from: int) -> Option<u8>
    decreases 256 - from,
{
    if from < 0 || from >= 256 {
        None
    } else if opcode_table(from as u8) == Some(OpcodeData { name, addr_mode: mode }) {
        Some(from as u8)
    } else {
        first_encoding(name, mode, from + 1)
    }
}

/// The opcode byte that encodes `name` in `mode`, if the 6502 has one.
pub open spec fn encoding(name: OpcodeType, mode: AddressingMode) -> Option<u8> {
    first_encoding(name, mode, 0)
}

/// The opcode byte of `name` in `addr_mode`, found by a scan of the opcode table.
pub fn get_code(name: OpcodeType, addr_mode: AddressingMode) -> (r: Result<u8, Error>)
    ensures
        match encoding(name, addr_mode) {
            Some(c) => r == Ok::<u8, Error>(c),
            None => r == Err::<u8, Error>(Error::UnknownOpcode { name, mode: addr_mode }),
        },
        r matches Ok(c) ==> opcode_table(c) == Some(OpcodeData { name, addr_mode }),
{
    proof {
        if encoding(name, addr_mode) is Some {
            lemma_encoding_in_table(name, addr_mode, 0);
        }
    }
    let mut i: usize = 0;
    while i < 256
        invariant
            0 <= i <= 256,
            first_encoding(name, addr_mode, 0) == first_encoding(name, addr_mode, i as int),
        decreases 256 - i,
    {
        match opcode_entry(i as u8) {
            None => {},
            Some(entry) => {
                if entry.name == name && entry.addr_mode == addr_mode {
                    return Ok(i as u8);
                }
            },
        }
        i = i + 1;
    }
    Err(Error::UnknownOpcode { name, mode: addr_mode })
}

/// The slot that the scan finds holds the mnemonic and mode asked for.
pub proof fn lemma_encoding_in_table(name: OpcodeType, mode: AddressingMode, from: int)
    requires
        first_encoding(name, mode, from) is Some,
    ensures
        opcode_table(first_encoding(name, mode, from)->Some_0) == Some(OpcodeData { name, addr_mode: mode }),
    decreases 256 - from,
{
    if 0 <= from < 256 && opcode_table(from as u8) != Some(OpcodeData { name, addr_mode: mode }) {
        lemma_encoding_in_table(name, mode, from + 1);
    }
}

} // verus!
