//! The addressing modes of the 6502 and the width of an instruction in each.
use vstd::prelude::*;

verus! {

/// The addressing modes of the 6502, each with a fixed instruction width.
#[derive(Debug, Copy, Clone, PartialEq, Eq, Structural)]
pub enum AddressingMode {
    /// `LSR A`
    A,
    /// `LDA $1234`
    ABS,
    /// `STA $3000,X`
    ABSX,
    /// `AND $4000,Y`
    ABSY,
    /// `LDA #$10`
    IMM,
    /// `CLC`
    IMPL,
    /// `JMP ($FFFC)`
    IND,
    /// `LDA ($40,X)`
    INDX,
    /// `LDA ($40),Y`
    INDY,
    /// a branch target, as a signed displacement
    REL,
    /// `LDA $10`
    ZPG,
    /// `LDA $10,X`
    ZPGX,
    /// `LDA $10,Y`
    ZPGY,
}

/// Total width in bytes of an instruction in the given mode, opcode included.
pub open spec fn mode_width(mode: AddressingMode) -> nat {
    match mode {
        AddressingMode::A | AddressingMode::IMPL => 1,
        AddressingMode::ABS | AddressingMode::ABSX | AddressingMode::ABSY | AddressingMode::IND => 3,
        _ => 2,
    }
}

/// The width of an instruction in `addr_mode`, opcode byte included.
pub fn get_size(addr_mode: AddressingMode) -> (r: usize)
    ensures
        r == mode_width(addr_mode),
{
    match addr_mode {
        AddressingMode::A | AddressingMode::IMPL => 1,
        AddressingMode::ABS | AddressingMode::ABSX | AddressingMode::ABSY | AddressingMode::IND => 3,
        AddressingMode::IMM | AddressingMode::INDX | AddressingMode::INDY | AddressingMode::REL
        | AddressingMode::ZPG | AddressingMode::ZPGX | AddressingMode::ZPGY => 2,
    }
}

} // verus!
