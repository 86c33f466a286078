//! Whole source lines: label definitions, instructions and directives.
use crate::addressing_modes::AddressingMode;
use crate::opcodes::{is_branch, mnemonic, OpcodeType};
use crate::parser::arguments::{
    alnum_span, argument_form, failure, hex_at, hex_field, hex_number_at, parse_argument,
    ParseResult,
};
use crate::parser::helpers::{all_alnum, ascii_string, is_alnum, is_alpha, is_alphabetic, is_space};
use crate::parser::types::{ErrorKind, LineType, Opcode, Operand, Statement, Value};
use vstd::prelude::*;
use vstd::slice::slice_subrange;
use vstd::utf8::decode_utf8;

verus! {

/// How many spaces and tabs `s` starts with.
pub open spec fn margin_run(s: Seq<u8>) -> nat
    decreases s.len(),
{
    if s.len() > 0 && is_space(s[0]) {
        1 + margin_run(s.drop_first())
    } else {
        0
    }
}

/// How many letters `s` starts with.
pub open spec fn alpha_run(s: Seq<u8>) -> nat
    decreases s.len(),
{
    if s.len() > 0 && is_alpha(s[0]) {
        1 + alpha_run(s.drop_first())
    } else {
        0
    }
}

/// The mnemonic that `t` spells, if any.
pub open spec fn mnemonic_op(t: Seq<u8>) -> Option<OpcodeType> {
    if exists|op: OpcodeType| mnemonic(op) == t {
        Some(choose|op: OpcodeType| mnemonic(op) == t)
    } else {
        None
    }
}

/// No two mnemonics are spelled alike.
pub proof fn lemma_mnemonic_injective(x: OpcodeType, y: OpcodeType)
    requires
        mnemonic(x) == mnemonic(y),
    ensures
        x == y,
{
    assert(mnemonic(x)[0] == mnemonic(y)[0]);
    assert(mnemonic(x)[1] == mnemonic(y)[1]);
    assert(mnemonic(x)[2] == mnemonic(y)[2]);
}

/// `name:`, a label definition.
pub open spec fn label_def_form(s: Seq<u8>) -> Option<Seq<char>> {
    if s.len() >= 2 && s.last() == 0x3A && all_alnum(s.drop_last()) {
        Some(decode_utf8(s.drop_last()))
    } else {
        None
    }
}

/// Three letters that spell a mnemonic, then what `argument_form` accepts. A
/// branch takes its operand as a relative displacement.
pub open spec fn instruction_form(s: Seq<u8>) -> Option<(OpcodeType, AddressingMode, Operand)> {
    if s.len() >= 3 && is_alpha(s[0]) && is_alpha(s[1]) && is_alpha(s[2]) {
        match mnemonic_op(s.take(3)) {
            Some(op) => match argument_form(s.skip(3)) {
                Some((mode, v)) => Some(
                    (op, if is_branch(op) {
                        AddressingMode::REL
                    } else {
                        mode
                    }, v),
                ),
                None => None,
            },
            None => None,
        }
    } else {
        None
    }
}

/// `$HH`, then either the end or `,` and more of the same: a byte array.
pub open spec fn byte_list(t: Seq<u8>) -> Option<Seq<Value>>
    decreases t.len(),
{
    if t.len() >= 3 && t[0] == 0x24 && hex_at(t, 1, 2) {
        let head = seq![Value::Short(hex_number_at(t, 1, 2) as u8)];
        if t.len() == 3 {
            Some(head)
        } else if t.len() > 4 && t[3] == 0x2C {
            match byte_list(t.skip(4)) {
                Some(tail) => Some(head + tail),
                None => None,
            }
        } else {
            None
        }
    } else {
        None
    }
}

/// The argument of a directive: what an instruction accepts, or else a space
/// and a byte array.
pub open spec fn directive_argument_form(s: Seq<u8>) -> Option<Operand> {
    match argument_form(s) {
        Some((_, v)) => Some(v),
        None => if s.len() > 1 && s[0] == 0x20 {
            match byte_list(s.drop_first()) {
                Some(items) => Some(Operand::Array(items)),
                None => None,
            }
        } else {
            None
        },
    }
}

/// `.name` and its argument: a directive.
pub open spec fn directive_form(s: Seq<u8>) -> Option<(Seq<char>, Operand)> {
    let n = alpha_run(s.drop_first()) as int;
    if s.len() >= 2 && s[0] == 0x2E && n > 0 {
        match directive_argument_form(s.skip(n + 1)) {
            Some(v) => Some((decode_utf8(s.subrange(1, n + 1)), v)),
            None => None,
        }
    } else {
        None
    }
}

/// A line without its margin: a label definition, an instruction or a directive.
pub open spec fn statement_form(s: Seq<u8>) -> Option<Statement> {
    if label_def_form(s) is Some {
        Some(Statement::LabelDef(label_def_form(s)->Some_0))
    } else if instruction_form(s) is Some {
        let (op, mode, v) = instruction_form(s)->Some_0;
        Some(Statement::Instruction(op, mode, v))
    } else if directive_form(s) is Some {
        let (name, v) = directive_form(s)->Some_0;
        Some(Statement::Directive(name, v))
    } else {
        None
    }
}

/// The statement that a source line holds, after its margin.
pub open spec fn line_form(s: Seq<u8>) -> Option<Statement> {
    statement_form(s.skip(margin_run(s) as int))
}

/// The length of the margin of spaces and tabs.
pub fn margin(input: &[u8]) -> (r: usize)
    ensures
        r == margin_run(input@),
        r <= input@.len(),
        r < input@.len() ==> !is_space(input@[r as int]),
{
    let mut i: usize = 0;
    assert(input@.skip(0) =~= input@);
    while i < input.len() && (input[i] == 0x20 || input[i] == 0x09)
        invariant
            i <= input@.len(),
            margin_run(input@) == i + margin_run(input@.skip(i as int)),
        decreases input@.len() - i,
    {
        assert(input@.skip(i as int).drop_first() =~= input@.skip(i + 1));
        i = i + 1;
    }
    i
}

/// The end of the run of letters that starts at `from`.
fn alpha_span(input: &[u8], from: usize) -> (r: usize)
    requires
        from <= input@.len(),
    ensures
        r == from + alpha_run(input@.skip(from as int)),
        r <= input@.len(),
{
    let mut i: usize = from;
    while i < input.len() && is_alphabetic(input[i])
        invariant
            from <= i <= input@.len(),
            alpha_run(input@.skip(from as int)) == (i - from) + alpha_run(input@.skip(i as int)),
        decreases input@.len() - i,
    {
        assert(input@.skip(i as int).drop_first() =~= input@.skip(i + 1));
        i = i + 1;
    }
    i
}

/// A label definition, `name:`, that takes the whole input.
pub fn label_def(input: &[u8]) -> (r: ParseResult<String>)
    ensures
        match label_def_form(input@) {
            Some(name) => r matches Ok((rest, s)) && rest@.len() == 0 && s@ == name,
            None => r is Err,
        },
{
    let end = alnum_span(input, 0);
    if end == 0 || end >= input.len() || end + 1 != input.len() || input[end] != 0x3A {
        proof {
            if label_def_form(input@) is Some {
                let body = input@.drop_last();
                if end < body.len() {
                    assert(body[end as int] == input@[end as int]);
                } else if end == input@.len() {
                    let last = input@.len() - 1;
                    assert(input@.subrange(0, end as int)[last] == input@[last]);
                }
            }
        }
        return Err(failure(input, end, ErrorKind::Char));
    }
    let body = slice_subrange(input, 0, end);
    assert(body@ =~= input@.drop_last());
    let name = ascii_string(body);
    Ok((slice_subrange(input, input.len(), input.len()), name))
}

/// An instruction after an optional margin: a mnemonic and its operand.
pub fn parse_opcode_line(input: &[u8]) -> (r: ParseResult<Opcode>)
    ensures
        match instruction_form(input@.skip(margin_run(input@) as int)) {
            Some((op, mode, v)) => r matches Ok((rest, o)) && rest@.len() == 0 && o.name == op
                && o.arg.0 == mode && o.arg.1@ == v,
            None => r is Err,
        },
{
    let m = margin(input);
    let s = slice_subrange(input, m, input.len());
    assert(s@ =~= input@.skip(m as int));
    if s.len() < 3 || !is_alphabetic(s[0]) || !is_alphabetic(s[1]) || !is_alphabetic(s[2]) {
        return Err(failure(s, 0, ErrorKind::Char));
    }
    let letters = slice_subrange(s, 0, 3);
    assert(letters@ =~= s@.take(3));
    let name = match OpcodeType::from_mnemonic(letters) {
        Ok(op) => {
            proof {
                let other = choose|o: OpcodeType| mnemonic(o) == s@.take(3);
                lemma_mnemonic_injective(op, other);
            }
            op
        },
        Err(_) => {
            return Err(failure(s, 3, ErrorKind::Mnemonic));
        },
    };
    let tail = slice_subrange(s, 3, s.len());
    assert(tail@ =~= s@.skip(3));
    let (rest, arg) = parse_argument(tail)?;
    let arg = if name.is_branch_op() {
        (AddressingMode::REL, arg.1)
    } else {
        arg
    };
    Ok((rest, Opcode { name, arg }))
}

/// `items` followed by what `rest` holds, if it holds anything.
pub open spec fn prepend(items: Seq<Value>, rest: Option<Seq<Value>>) -> Option<Seq<Value>> {
    match rest {
        Some(tail) => Some(items + tail),
        None => None,
    }
}

/// A byte array, `$HH,$HH,...`, that takes the whole input.
pub fn hex_byte_array(input: &[u8]) -> (r: Option<Vec<Value>>)
    ensures
        match byte_list(input@) {
            Some(items) => r matches Some(v) && v@ == items,
            None => r is None,
        },
{
    let mut items: Vec<Value> = Vec::new();
    let mut pos: usize = 0;
    assert(input@.skip(0) =~= input@);
    assert(Seq::<Value>::empty() + Seq::<Value>::empty() =~= Seq::<Value>::empty());
    loop
        invariant
            pos <= input@.len(),
            prepend(items@, byte_list(input@.skip(pos as int))) == byte_list(input@),
        decreases input@.len() - pos,
    {
        let len = input.len();
        let here = slice_subrange(input, pos, len);
        assert(here@ =~= input@.skip(pos as int));
        if here.len() < 3 || here[0] != 0x24 {
            return None;
        }
        let value = match hex_field(here, 1, 2) {
            Some(v) => v,
            None => {
                return None;
            },
        };
        let item = Value::Short(value as u8);
        let ghost head = seq![item];
        let ghost before = items@;
        items.push(item);
        assert(items@ =~= before + head);
        if here.len() == 3 {
            assert(byte_list(here@) == Some(head));
            assert(before + head =~= items@);
            return Some(items);
        }
        if here.len() <= 4 || here[3] != 0x2C {
            return None;
        }
        proof {
            assert(here@.skip(4) =~= input@.skip(pos + 4));
            match byte_list(here@.skip(4)) {
                Some(tail) => {
                    assert(before + (head + tail) =~= items@ + tail);
                },
                None => {},
            }
        }
        pos = pos + 4;
    }
}

/// A directive, `.name` and its argument.
pub fn parse_macro(input: &[u8]) -> (r: ParseResult<(String, Value)>)
    ensures
        match directive_form(input@) {
            Some((name, v)) => r matches Ok((rest, d)) && rest@.len() == 0 && d.0@ == name && d.1@
                == v,
            None => r is Err,
        },
{
    if input.len() < 2 || input[0] != 0x2E {
        return Err(failure(input, 0, ErrorKind::Char));
    }
    let end = alpha_span(input, 1);
    assert(input@.skip(1) =~= input@.drop_first());
    if end == 1 {
        return Err(failure(input, 1, ErrorKind::Char));
    }
    let letters = slice_subrange(input, 1, end);
    proof {
        assert forall|i: int| 0 <= i < letters@.len() implies is_alnum(#[trigger] letters@[i]) by {
            lemma_alpha_run(input@.skip(1), i);
            assert(letters@[i] == input@.skip(1)[i]);
        }
    }
    let name = ascii_string(letters);
    let tail = slice_subrange(input, end, input.len());
    assert(tail@ =~= input@.skip(end as int));
    match parse_argument(tail) {
        Ok((rest, arg)) => Ok((rest, (name, arg.1))),
        Err(e) => {
            if tail.len() > 1 && tail[0] == 0x20 {
                let items = slice_subrange(tail, 1, tail.len());
                assert(items@ =~= tail@.drop_first());
                match hex_byte_array(items) {
                    Some(v) => Ok((slice_subrange(tail, tail.len(), tail.len()), (name, Value::Array(v)))),
                    None => Err(e),
                }
            } else {
                Err(e)
            }
        },
    }
}

/// Every byte within the run of letters at the start of `s` is a letter.
pub proof fn lemma_alpha_run(s: Seq<u8>, i: int)
    requires
        0 <= i < alpha_run(s),
    ensures
        i < s.len(),
        is_alpha(s[i]),
    decreases s.len(),
{
    if i > 0 {
        lemma_alpha_run(s.drop_first(), i - 1);
        assert(s.drop_first()[i - 1] == s[i]);
    }
}

/// One source line: a label definition, an instruction or a directive, each
/// after an optional margin of spaces and tabs.
pub fn parse_line(input: &[u8]) -> (r: ParseResult<LineType>)
    ensures
        match line_form(input@) {
            Some(st) => r matches Ok((rest, l)) && rest@.len() == 0 && l@ == st,
            None => r is Err,
        },
{
    let m = margin(input);
    let s = slice_subrange(input, m, input.len());
    assert(s@ =~= input@.skip(m as int));
    assert(margin_run(s@) == 0);
    assert(s@.skip(0) =~= s@);
    if let Ok((rest, name)) = label_def(s) {
        return Ok((rest, LineType::LabelDef(name)));
    }
    if let Ok((rest, op)) = parse_opcode_line(s) {
        return Ok((rest, LineType::Opcode(op)));
    }
    match parse_macro(s) {
        Ok((rest, (name, arg))) => Ok((rest, LineType::Macro(name, arg))),
        Err(_) => Err(failure(s, 0, ErrorKind::Alt)),
    }
}

/// A raw source line without its comment, with escapes replaced: `;` starts a
/// comment, a backslash starts an escape, after which `n` stands for the byte 0x10
/// and `"` for itself. There is none when an escape is followed by anything
/// else.
pub open spec fn stripped(s: Seq<u8>, escape: bool) -> Option<Seq<u8>>
    decreases s.len(),
{
    if s.len() == 0 {
        Some(seq![])
    } else {
        let c = s[0];
        let rest = s.drop_first();
        if c == 0x5C {
            stripped(rest, true)
        } else if c == 0x22 || (c == 0x6E && escape) || (c != 0x3B && !escape) {
            let out = if c == 0x6E && escape {
                0x10u8
            } else {
                c
            };
            match stripped(rest, escape) {
                Some(tail) => Some(seq![out] + tail),
                None => None,
            }
        } else if c == 0x3B {
            Some(seq![])
        } else {
            None
        }
    }
}

/// The line `line` as the parser takes it: its comment removed and its escapes
/// replaced, or nothing when it holds an escape that means nothing.
pub fn strip_line(line: &[u8]) -> (r: Option<Vec<u8>>)
    ensures
        match stripped(line@, false) {
            Some(text) => r matches Some(v) && v@ == text,
            None => r is None,
        },
{
    let mut out: Vec<u8> = Vec::new();
    let mut escape = false;
    let mut i: usize = 0;
    assert(line@.skip(0) =~= line@);
    assert(out@ + seq![] =~= out@);
    while i < line.len()
        invariant
            i <= line@.len(),
            stripped(line@, false) == match stripped(line@.skip(i as int), escape) {
                Some(tail) => Some(out@ + tail),
                None => None::<Seq<u8>>,
            },
        decreases line@.len() - i,
    {
        let c = line[i];
        assert(line@.skip(i as int).drop_first() =~= line@.skip(i + 1));
        assert(line@.skip(i as int)[0] == c);
        if c == 0x5C {
            escape = true;
        } else if c == 0x22 || (c == 0x6E && escape) || (c != 0x3B && !escape) {
            let b = if c == 0x6E && escape {
                0x10u8
            } else {
                c
            };
            let ghost before = out@;
            out.push(b);
            proof {
                match stripped(line@.skip(i + 1), escape) {
                    Some(tail) => {
                        assert(before + (seq![b] + tail) =~= out@ + tail);
                    },
                    None => {},
                }
            }
        } else if c == 0x3B {
            assert(out@ + seq![] =~= out@);
            return Some(out);
        } else {
            return None;
        }
        i = i + 1;
    }
    assert(out@ + seq![] =~= out@);
    Some(out)
}

} // verus!
