//! What the parser produces: operand values and statements.
use crate::addressing_modes::AddressingMode;
use crate::opcodes::OpcodeType;
use crate::error::{Error, Fault};
use crate::parser::helpers::{all_hex, number, u8_to_hex};
use vstd::prelude::*;

verus! {

/// The operand of an instruction or the argument of a directive.
#[derive(Debug, PartialEq)]
pub enum Value {
    Short(u8),
    Long(u16),
    Label(String),
    Array(Vec<Value>),
    Text(Vec<u8>),
    Empty,
}

/// What a `Value` holds, with names and texts as sequences.
pub enum Operand {
    Short(u8),
    Long(u16),
    Label(Seq<char>),
    Array(Seq<Value>),
    Text(Seq<u8>),
    Empty,
}

impl View for Value {
    type V = Operand;

    open spec fn view(&self) -> Operand {
        match self {
            Value::Short(b) => Operand::Short(*b),
            Value::Long(w) => Operand::Long(*w),
            Value::Label(name) => Operand::Label(name@),
            Value::Array(items) => Operand::Array(items@),
            Value::Text(bytes) => Operand::Text(bytes@),
            Value::Empty => Operand::Empty,
        }
    }
}

impl Value {
    pub fn is_short(&self) -> (r: bool)
        ensures
            r == self is Short,
    {
        match self {
            Value::Short(_) => true,
            _ => false,
        }
    }

    pub fn is_long(&self) -> (r: bool)
        ensures
            r == self is Long,
    {
        match self {
            Value::Long(_) => true,
            _ => false,
        }
    }

    pub fn is_label(&self) -> (r: bool)
        ensures
            r == self is Label,
    {
        match self {
            Value::Label(_) => true,
            _ => false,
        }
    }

    pub fn is_array(&self) -> (r: bool)
        ensures
            r == self is Array,
    {
        match self {
            Value::Array(_) => true,
            _ => false,
        }
    }

    pub fn is_text(&self) -> (r: bool)
        ensures
            r == self is Text,
    {
        match self {
            Value::Text(_) => true,
            _ => false,
        }
    }

    pub fn is_none(&self) -> (r: bool)
        ensures
            r == self is Empty,
    {
        match self {
            Value::Empty => true,
            _ => false,
        }
    }
}

/// Which rule of the grammar a parse failed at.
#[derive(Debug, Copy, Clone, PartialEq, Eq, Structural)]
pub enum ErrorKind {
    /// A specific character was expected.
    Char,
    /// The input ended too early, or went on where it should have ended.
    Eof,
    /// A run of digits did not read as a number.
    MapRes,
    /// Bytes were left over after a complete operand.
    TooLarge,
    /// The three letters of an instruction spell no known mnemonic.
    Mnemonic,
    /// The line is neither a label, an instruction nor a directive.
    Alt,
}

/// A parse failure: the input that was left where it failed, and why.
#[derive(Debug, PartialEq)]
pub struct ParseError {
    pub rest: Vec<u8>,
    pub kind: ErrorKind,
}

impl From<u8> for Value {
    fn from(v: u8) -> (r: Value) {
        Value::Short(v)
    }
}

impl vstd::std_specs::convert::FromSpecImpl<u8> for Value {
    open spec fn obeys_from_spec() -> bool {
        true
    }

    open spec fn from_spec(v: u8) -> Value {
        Value::Short(v)
    }
}

/// Whether `s` spells a byte in hexadecimal.
pub open spec fn hex_byte_text(s: Seq<u8>) -> bool {
    s.len() > 0 && all_hex(s) && number(s, 16) <= 255
}

impl Value {
    /// An array of the bytes that the items of `v` spell in hexadecimal; the
    /// first item that spells none is the error.
    pub fn try_from(v: Vec<&[u8]>) -> (r: Result<Value, Error>)
        ensures
            match r {
                Ok(value) => (forall|i: int| 0 <= i < v@.len() ==> hex_byte_text(#[trigger] v@[i]@))
                    && value@ == Operand::Array(
                    Seq::new(v@.len(), |i: int| Value::Short(number(v@[i]@, 16) as u8)),
                ),
                Err(e) => exists|i: int|
                    0 <= i < v@.len() && !hex_byte_text(#[trigger] v@[i]@) && (forall|j: int|
                        0 <= j < i ==> hex_byte_text(v@[j]@)) && e@ == Fault::Parser(
                        v@[i]@,
                        ErrorKind::MapRes,
                    ),
            },
    {
        let mut items: Vec<Value> = Vec::new();
        let mut i: usize = 0;
        while i < v.len()
            invariant
                i <= v@.len(),
                items@.len() == i,
                forall|j: int| 0 <= j < i ==> hex_byte_text(#[trigger] v@[j]@),
                forall|j: int|
                    0 <= j < i ==> #[trigger] items@[j] == Value::Short(number(v@[j]@, 16) as u8),
            decreases v@.len() - i,
        {
            let text: &[u8] = v[i];
            match u8_to_hex(text) {
                Ok(n) => {
                    if n > 255 {
                        return Err(
                            Error::Parser {
                                error: ParseError {
                                    rest: vstd::slice::slice_to_vec(text),
                                    kind: ErrorKind::MapRes,
                                },
                            },
                        );
                    }
                    items.push(Value::Short(n as u8));
                },
                Err(_) => {
                    return Err(
                        Error::Parser {
                            error: ParseError {
                                rest: vstd::slice::slice_to_vec(text),
                                kind: ErrorKind::MapRes,
                            },
                        },
                    );
                },
            }
            i = i + 1;
        }
        assert(items@ =~= Seq::new(v@.len(), |i: int| Value::Short(number(v@[i]@, 16) as u8)));
        Ok(Value::Array(items))
    }
}

/// An operand together with the addressing mode it selects.
pub type ArgumentType = (AddressingMode, Value);

/// An instruction: a mnemonic and its operand.
#[derive(Debug)]
pub struct Opcode {
    pub name: OpcodeType,
    pub arg: ArgumentType,
}

/// One parsed source line.
#[derive(Debug)]
pub enum LineType {
    Opcode(Opcode),
    LabelDef(String),
    Macro(String, Value),
}

/// What a `LineType` holds, with names as sequences.
pub enum Statement {
    Instruction(OpcodeType, AddressingMode, Operand),
    LabelDef(Seq<char>),
    Directive(Seq<char>, Operand),
}

impl View for LineType {
    type V = Statement;

    open spec fn view(&self) -> Statement {
        match self {
            LineType::Opcode(op) => Statement::Instruction(op.name, op.arg.0, op.arg.1@),
            LineType::LabelDef(name) => Statement::LabelDef(name@),
            LineType::Macro(name, arg) => Statement::Directive(name@, arg@),
        }
    }
}

} // verus!
