//! Operands: the forms they take, and the parsers that read them.
use crate::addressing_modes::AddressingMode;
use crate::parser::helpers::{
    all_alnum, all_bits, all_hex, ascii_string, bin_to_hex, is_alnum, is_alphanumeric, is_graphic,
    is_symbol, lemma_number_bound, number, power, u8_to_hex,
};
use crate::parser::types::{ArgumentType, ErrorKind, Operand, ParseError, Value};
use vstd::prelude::*;
use vstd::slice::{slice_subrange, slice_to_vec};
use vstd::utf8::decode_utf8;

verus! {

/// The result of a parser: the input left over, and what was read.
pub type ParseResult<'a, T> = Result<(&'a [u8], T), ParseError>;

/// How many bytes an operand form takes, the mode it selects, and its value.
pub type Form = (nat, AddressingMode, Operand);

/// Whether `s[at..at + n]` is `n` hexadecimal digits.
pub open spec fn hex_at(s: Seq<u8>, at: int, n: int) -> bool {
    at + n <= s.len() && all_hex(s.subrange(at, at + n))
}

/// The number spelled by the `n` hexadecimal digits at `at`.
pub open spec fn hex_number_at(s: Seq<u8>, at: int, n: int) -> nat {
    number(s.subrange(at, at + n), 16)
}

/// `A`: the accumulator.
pub open spec fn accumulator_form(s: Seq<u8>) -> Option<Form> {
    if s.len() == 1 && s[0] == 0x41 {
        Some((1, AddressingMode::A, Operand::Empty))
    } else {
        None
    }
}

/// `$HH`: a zero-page address.
pub open spec fn short_form(s: Seq<u8>) -> Option<Form> {
    if s.len() == 3 && s[0] == 0x24 && hex_at(s, 1, 2) {
        Some((3, AddressingMode::ZPG, Operand::Short(hex_number_at(s, 1, 2) as u8)))
    } else {
        None
    }
}

/// `$HHHH`: an absolute address.
pub open spec fn long_form(s: Seq<u8>) -> Option<Form> {
    if s.len() == 5 && s[0] == 0x24 && hex_at(s, 1, 4) {
        Some((5, AddressingMode::ABS, Operand::Long(hex_number_at(s, 1, 4) as u16)))
    } else {
        None
    }
}

/// `$HHHH,X` or `$HHHH,Y`: an absolute address indexed by a register.
pub open spec fn indexed_form(s: Seq<u8>) -> Option<Form> {
    if s.len() >= 7 && s[0] == 0x24 && hex_at(s, 1, 4) && s[5] == 0x2C && (s[6] == 0x58
        || s[6] == 0x59) {
        let mode = if s[6] == 0x58 {
            AddressingMode::ABSX
        } else {
            AddressingMode::ABSY
        };
        Some((7, mode, Operand::Long(hex_number_at(s, 1, 4) as u16)))
    } else {
        None
    }
}

/// `#$HH`: an immediate byte.
pub open spec fn immediate_form(s: Seq<u8>) -> Option<Form> {
    if s.len() == 4 && s[0] == 0x23 && s[1] == 0x24 && hex_at(s, 2, 2) {
        Some((4, AddressingMode::IMM, Operand::Short(hex_number_at(s, 2, 2) as u8)))
    } else {
        None
    }
}

/// `#%BBBBBBBB`: an immediate byte in binary.
pub open spec fn binary_form(s: Seq<u8>) -> Option<Form> {
    if s.len() == 10 && s[0] == 0x23 && s[1] == 0x25 && all_bits(s.subrange(2, 10)) {
        Some((10, AddressingMode::IMM, Operand::Short(number(s.subrange(2, 10), 2) as u8)))
    } else {
        None
    }
}

/// `($HH,X)`: a zero-page address, indexed, then indirect.
pub open spec fn indirect_x_form(s: Seq<u8>) -> Option<Form> {
    if s.len() >= 7 && s[0] == 0x28 && s[1] == 0x24 && hex_at(s, 2, 2) && s[4] == 0x2C && s[5]
        == 0x58 && s[6] == 0x29 {
        Some((7, AddressingMode::INDX, Operand::Short(hex_number_at(s, 2, 2) as u8)))
    } else {
        None
    }
}

/// A run of letters and digits: a label.
pub open spec fn label_form(s: Seq<u8>) -> Option<Form> {
    if all_alnum(s) {
        Some((s.len(), AddressingMode::ABS, Operand::Label(decode_utf8(s))))
    } else {
        None
    }
}

/// A byte that may stand inside a quoted text.
pub open spec fn is_text_byte(b: u8) -> bool {
    is_graphic(b) && b != 0x22
}

/// How many bytes at the start of `s` may stand inside a quoted text.
pub open spec fn text_span(s: Seq<u8>) -> nat
    decreases s.len(),
{
    if s.len() > 0 && is_text_byte(s[0]) {
        1 + text_span(s.drop_first())
    } else {
        0
    }
}

/// `"..."`: a quoted text of printable characters.
pub open spec fn text_form(s: Seq<u8>) -> Option<Form> {
    let k = text_span(s.drop_first()) as int;
    if s.len() >= 2 && s[0] == 0x22 && k + 1 < s.len() && s[k + 1] == 0x22 {
        Some(((k + 2) as nat, AddressingMode::ABS, Operand::Text(s.subrange(1, k + 1))))
    } else {
        None
    }
}

/// The first operand form that `s` starts with, tried in a fixed order.
pub open spec fn operand_form(s: Seq<u8>) -> Option<Form> {
    if accumulator_form(s) is Some {
        accumulator_form(s)
    } else if short_form(s) is Some {
        short_form(s)
    } else if long_form(s) is Some {
        long_form(s)
    } else if indexed_form(s) is Some {
        indexed_form(s)
    } else if immediate_form(s) is Some {
        immediate_form(s)
    } else if binary_form(s) is Some {
        binary_form(s)
    } else if indirect_x_form(s) is Some {
        indirect_x_form(s)
    } else if label_form(s) is Some {
        label_form(s)
    } else {
        text_form(s)
    }
}

/// What follows a mnemonic: nothing, a lone space, or a space and an operand
/// that takes the rest of the line.
pub open spec fn argument_form(s: Seq<u8>) -> Option<(AddressingMode, Operand)> {
    if s.len() == 0 || (s.len() == 1 && s[0] == 0x20) {
        Some((AddressingMode::IMPL, Operand::Empty))
    } else if s[0] != 0x20 {
        None
    } else {
        match operand_form(s.drop_first()) {
            Some((n, mode, v)) => if n == s.len() - 1 {
                Some((mode, v))
            } else {
                None
            },
            None => None,
        }
    }
}

/// Where the hexadecimal parsers stop and why, for `$` and `digits` digits.
pub open spec fn hex_failure(s: Seq<u8>, digits: int) -> (int, ErrorKind) {
    if s.len() == 0 || s[0] != 0x24 {
        (0, ErrorKind::Char)
    } else if s.len() < 1 + digits {
        (1, ErrorKind::Eof)
    } else if !all_hex(s.subrange(1, 1 + digits)) {
        (1, ErrorKind::MapRes)
    } else {
        (1 + digits, ErrorKind::Eof)
    }
}

/// Whether a parser produced exactly `form` from `input`.
pub open spec fn yields(input: Seq<u8>, r: Result<(&[u8], ArgumentType), ParseError>, form: Form) -> bool {
    match r {
        Ok((rest, arg)) => rest@ == input.skip(form.0 as int) && arg.0 == form.1 && arg.1@
            == form.2,
        Err(_) => false,
    }
}

/// Whether a parser gave what `form` says: the form read, or a failure.
pub open spec fn follows(input: Seq<u8>, r: Result<(&[u8], ArgumentType), ParseError>, form: Option<Form>) -> bool {
    match form {
        Some(f) => yields(input, r, f),
        None => r is Err,
    }
}

/// A failure that leaves `input[from..]`.
pub(crate) fn failure(input: &[u8], from: usize, kind: ErrorKind) -> (e: ParseError)
    requires
        from <= input@.len(),
    ensures
        e.rest@ == input@.skip(from as int),
        e.kind == kind,
{
    let rest = slice_to_vec(slice_subrange(input, from, input.len()));
    assert(input@.subrange(from as int, input@.len() as int) =~= input@.skip(from as int));
    ParseError { rest, kind }
}

/// The value of the `n` hexadecimal digits at `at`, if they all are digits.
pub(crate) fn hex_field(input: &[u8], at: usize, n: usize) -> (r: Option<usize>)
    requires
        at + n <= input@.len(),
        1 <= n <= 4,
    ensures
        match r {
            Some(v) => hex_at(input@, at as int, n as int) && v == hex_number_at(input@, at as int, n as int)
                && v < power(16, n as nat),
            None => !hex_at(input@, at as int, n as int),
        },
{
    let len = input.len();
    assert(at + n <= len);
    let digits = slice_subrange(input, at, at + n);
    proof {
        assert(power(16, 0) == 1);
        assert(power(16, 1) == 16);
        assert(power(16, 2) == 256);
        assert(power(16, 3) == 4096);
        assert(power(16, 4) == 65536);
    }
    match u8_to_hex(digits) {
        Ok(v) => {
            proof {
                lemma_number_bound(digits@, 16);
            }
            Some(v)
        },
        Err(_) => {
            proof {
                if all_hex(digits@) {
                    lemma_number_bound(digits@, 16);
                }
            }
            None
        },
    }
}

/// The accumulator, written `A`.
pub fn a(input: &[u8]) -> (r: ParseResult<ArgumentType>)
    ensures
        follows(input@, r, accumulator_form(input@)),
{
    if input.len() == 1 && input[0] == 0x41 {
        Ok((slice_subrange(input, 1, 1), (AddressingMode::A, Value::Empty)))
    } else {
        Err(failure(input, 0, ErrorKind::Char))
    }
}

/// A zero-page address, written `$HH`.
pub fn hex_addr_short(input: &[u8]) -> (r: ParseResult<ArgumentType>)
    ensures
        follows(input@, r, short_form(input@)),
        r matches Err(e) ==> e.rest@ == input@.skip(hex_failure(input@, 2).0) && e.kind
            == hex_failure(input@, 2).1,
{
    if input.len() == 0 || input[0] != 0x24 {
        return Err(failure(input, 0, ErrorKind::Char));
    }
    if input.len() < 3 {
        return Err(failure(input, 1, ErrorKind::Eof));
    }
    match hex_field(input, 1, 2) {
        None => Err(failure(input, 1, ErrorKind::MapRes)),
        Some(v) => if input.len() != 3 {
            Err(failure(input, 3, ErrorKind::Eof))
        } else {
            Ok((slice_subrange(input, 3, 3), (AddressingMode::ZPG, Value::Short(v as u8))))
        },
    }
}

/// An absolute address, written `$HHHH`.
pub fn hex_addr_long(input: &[u8]) -> (r: ParseResult<ArgumentType>)
    ensures
        follows(input@, r, long_form(input@)),
        r matches Err(e) ==> e.rest@ == input@.skip(hex_failure(input@, 4).0) && e.kind
            == hex_failure(input@, 4).1,
{
    if input.len() == 0 || input[0] != 0x24 {
        return Err(failure(input, 0, ErrorKind::Char));
    }
    if input.len() < 5 {
        return Err(failure(input, 1, ErrorKind::Eof));
    }
    match hex_field(input, 1, 4) {
        None => Err(failure(input, 1, ErrorKind::MapRes)),
        Some(v) => if input.len() != 5 {
            Err(failure(input, 5, ErrorKind::Eof))
        } else {
            Ok((slice_subrange(input, 5, 5), (AddressingMode::ABS, Value::Long(v as u16))))
        },
    }
}

/// An absolute address indexed by X or Y, written `$HHHH,X` or `$HHHH,Y`.
pub fn absolute_indexed(input: &[u8]) -> (r: ParseResult<ArgumentType>)
    ensures
        follows(input@, r, indexed_form(input@)),
{
    if input.len() < 7 || input[0] != 0x24 || input[5] != 0x2C || (input[6] != 0x58 && input[6]
        != 0x59) {
        return Err(failure(input, 0, ErrorKind::Char));
    }
    match hex_field(input, 1, 4) {
        None => Err(failure(input, 1, ErrorKind::MapRes)),
        Some(v) => {
            let mode = if input[6] == 0x58 {
                AddressingMode::ABSX
            } else {
                AddressingMode::ABSY
            };
            Ok((slice_subrange(input, 7, input.len()), (mode, Value::Long(v as u16))))
        },
    }
}

/// An immediate byte, written `#$HH`.
pub fn hex_value(input: &[u8]) -> (r: ParseResult<ArgumentType>)
    ensures
        follows(input@, r, immediate_form(input@)),
{
    if input.len() < 2 || input[0] != 0x23 || input[1] != 0x24 {
        return Err(failure(input, 0, ErrorKind::Char));
    }
    if input.len() != 4 {
        return Err(failure(input, 2, ErrorKind::Eof));
    }
    match hex_field(input, 2, 2) {
        None => Err(failure(input, 2, ErrorKind::MapRes)),
        Some(v) => Ok((slice_subrange(input, 4, 4), (AddressingMode::IMM, Value::Short(v as u8)))),
    }
}

/// An immediate byte in binary, written `#%BBBBBBBB`.
pub fn bin_value(input: &[u8]) -> (r: ParseResult<ArgumentType>)
    ensures
        follows(input@, r, binary_form(input@)),
{
    if input.len() < 2 || input[0] != 0x23 || input[1] != 0x25 {
        return Err(failure(input, 0, ErrorKind::Char));
    }
    if input.len() != 10 {
        return Err(failure(input, 2, ErrorKind::Eof));
    }
    let bits = slice_subrange(input, 2, 10);
    match bin_to_hex(bits) {
        Err(_) => {
            proof {
                if all_bits(bits@) {
                    lemma_number_bound(bits@, 2);
                    assert(power(2, 8) == 256) by {
                        assert(power(2, 0) == 1);
                        assert(power(2, 1) == 2);
                        assert(power(2, 2) == 4);
                        assert(power(2, 3) == 8);
                        assert(power(2, 4) == 16);
                        assert(power(2, 5) == 32);
                        assert(power(2, 6) == 64);
                        assert(power(2, 7) == 128);
                    }
                }
            }
            Err(failure(input, 2, ErrorKind::MapRes))
        },
        Ok(v) => Ok((slice_subrange(input, 10, 10), (AddressingMode::IMM, Value::Short(v as u8)))),
    }
}

/// A zero-page address indexed by X, then indirect, written `($HH,X)`.
pub fn indexed_indirect(input: &[u8]) -> (r: ParseResult<ArgumentType>)
    ensures
        follows(input@, r, indirect_x_form(input@)),
{
    if input.len() < 7 || input[0] != 0x28 || input[1] != 0x24 || input[4] != 0x2C || input[5]
        != 0x58 || input[6] != 0x29 {
        return Err(failure(input, 0, ErrorKind::Char));
    }
    match hex_field(input, 2, 2) {
        None => Err(failure(input, 2, ErrorKind::MapRes)),
        Some(v) => Ok(
            (slice_subrange(input, 7, input.len()), (AddressingMode::INDX, Value::Short(v as u8))),
        ),
    }
}

/// The length of the run of letters and digits that starts at `from`.
pub fn alnum_span(input: &[u8], from: usize) -> (r: usize)
    requires
        from <= input@.len(),
    ensures
        from <= r <= input@.len(),
        all_alnum(input@.subrange(from as int, r as int)),
        r < input@.len() ==> !is_alnum(input@[r as int]),
{
    let mut i = from;
    while i < input.len() && is_alphanumeric(input[i])
        invariant
            from <= i <= input@.len(),
            all_alnum(input@.subrange(from as int, i as int)),
        decreases input@.len() - i,
    {
        assert(input@.subrange(from as int, i + 1).drop_last() =~= input@.subrange(
            from as int,
            i as int,
        ));
        i = i + 1;
    }
    i
}

/// A label, written as letters and digits only.
pub fn label_name(input: &[u8]) -> (r: ParseResult<ArgumentType>)
    ensures
        follows(input@, r, label_form(input@)),
{
    let end = alnum_span(input, 0);
    if end != input.len() {
        proof {
            assert(!is_alnum(input@[end as int]));
        }
        return Err(failure(input, end, ErrorKind::Eof));
    }
    assert(input@.subrange(0, end as int) =~= input@);
    let name = ascii_string(input);
    Ok((slice_subrange(input, end, end), (AddressingMode::ABS, Value::Label(name))))
}

/// A quoted text of printable characters, written `"..."`.
pub fn text(input: &[u8]) -> (r: ParseResult<ArgumentType>)
    ensures
        follows(input@, r, text_form(input@)),
{
    if input.len() == 0 || input[0] != 0x22 {
        return Err(failure(input, 0, ErrorKind::Char));
    }
    let mut i: usize = 1;
    while i < input.len() && is_symbol(input[i]) && input[i] != 0x22
        invariant
            1 <= i <= input@.len(),
            text_span(input@.drop_first()) == (i - 1) + text_span(input@.skip(i as int)),
        decreases input@.len() - i,
    {
        assert(input@.skip(i as int).drop_first() =~= input@.skip(i + 1));
        i = i + 1;
    }
    assert(text_span(input@.skip(i as int)) == 0);
    if i >= input.len() || input[i] != 0x22 {
        return Err(failure(input, i, ErrorKind::Char));
    }
    let body = slice_to_vec(slice_subrange(input, 1, i));
    Ok((slice_subrange(input, i + 1, input.len()), (AddressingMode::ABS, Value::Text(body))))
}

/// The first operand form that the input starts with.
pub fn argument(input: &[u8]) -> (r: ParseResult<ArgumentType>)
    ensures
        follows(input@, r, operand_form(input@)),
{
    if let Ok(r) = a(input) {
        return Ok(r);
    }
    if let Ok(r) = hex_addr_short(input) {
        return Ok(r);
    }
    if let Ok(r) = hex_addr_long(input) {
        return Ok(r);
    }
    if let Ok(r) = absolute_indexed(input) {
        return Ok(r);
    }
    if let Ok(r) = hex_value(input) {
        return Ok(r);
    }
    if let Ok(r) = bin_value(input) {
        return Ok(r);
    }
    if let Ok(r) = indexed_indirect(input) {
        return Ok(r);
    }
    if let Ok(r) = label_name(input) {
        return Ok(r);
    }
    text(input)
}

/// What follows a mnemonic: nothing (implied), or one space and an operand
/// that takes the rest of the input.
pub fn parse_argument(input: &[u8]) -> (r: ParseResult<ArgumentType>)
    ensures
        match argument_form(input@) {
            Some((mode, v)) => r matches Ok((rest, arg)) && rest@.len() == 0 && arg.0 == mode
                && arg.1@ == v,
            None => r is Err,
        },
{
    if input.len() == 0 || (input.len() == 1 && input[0] == 0x20) {
        return Ok((slice_subrange(input, input.len(), input.len()), (AddressingMode::IMPL, Value::Empty)));
    }
    if input[0] != 0x20 {
        return Err(failure(input, 0, ErrorKind::Char));
    }
    let operand = slice_subrange(input, 1, input.len());
    assert(operand@ =~= input@.drop_first());
    let (rest, arg) = argument(operand)?;
    if rest.len() != 0 {
        return Err(failure(input, input.len() - rest.len(), ErrorKind::TooLarge));
    }
    Ok((rest, arg))
}

} // verus!
