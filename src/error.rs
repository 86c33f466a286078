//! The ways an assembly run can fail.
use crate::addressing_modes::AddressingMode;
use crate::opcodes::OpcodeType;
use crate::parser::types::{ErrorKind, ParseError};
use vstd::prelude::*;

verus! {

/// Why an assembly run failed. No run that fails yields an image.
#[derive(Debug, PartialEq)]
pub enum Error {
    /// A source line did not parse.
    Parser { error: ParseError },
    /// The mnemonic has no encoding in the addressing mode asked for.
    UnknownOpcode { name: OpcodeType, mode: AddressingMode },
    /// Labels that were used but never defined, in order of first use.
    UndefLabel { labels: Vec<String> },
    /// An instruction was given an array or a text as its operand.
    InvalidOperand { name: OpcodeType },
    /// A directive that the assembler does not know.
    UnknownDirective { directive: String },
    /// A directive was given an argument of the wrong kind.
    InvalidArgument { directive: String },
    /// An `.incbin` whose file contents were not supplied.
    MissingInclude { file: Vec<u8> },
    /// A statement would write past the end of the 64 KiB image.
    Overflow { at: usize },
}

/// What an `Error` holds, with names and texts as sequences.
pub enum Fault {
    Parser(Seq<u8>, ErrorKind),
    UnknownOpcode(OpcodeType, AddressingMode),
    UndefLabel(Seq<Seq<char>>),
    InvalidOperand(OpcodeType),
    UnknownDirective(Seq<char>),
    InvalidArgument(Seq<char>),
    MissingInclude(Seq<u8>),
    Overflow(int),
}

/// The names of `labels`, as sequences.
pub open spec fn names_of(labels: Seq<String>) -> Seq<Seq<char>> {
    labels.map_values(|s: String| s@)
}

impl View for Error {
    type V = Fault;

    open spec fn view(&self) -> Fault {
        match self {
            Error::Parser { error } => Fault::Parser(error.rest@, error.kind),
            Error::UnknownOpcode { name, mode } => Fault::UnknownOpcode(*name, *mode),
            Error::UndefLabel { labels } => Fault::UndefLabel(names_of(labels@)),
            Error::InvalidOperand { name } => Fault::InvalidOperand(*name),
            Error::UnknownDirective { directive } => Fault::UnknownDirective(directive@),
            Error::InvalidArgument { directive } => Fault::InvalidArgument(directive@),
            Error::MissingInclude { file } => Fault::MissingInclude(file@),
            Error::Overflow { at } => Fault::Overflow(*at as int),
        }
    }
}

} // verus!
