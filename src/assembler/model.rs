//! The two passes of the assembler as functions on sequences: what
//! `assemble` computes.
use crate::addressing_modes::mode_width;
use crate::assembler::code::{le_bytes, overwrite, IMAGE_SIZE};
use crate::assembler::types::{patch_width, LabelUse, Pass};
use crate::error::Fault;
use crate::opcodes::{encoding, is_branch};
use crate::parser::types::{LineType, Operand, Statement, Value};
use vstd::prelude::*;

verus! {

/// The statements that `lines` hold.
pub open spec fn statements(lines: Seq<LineType>) -> Seq<Statement> {
    lines.map_values(|l: LineType| l@)
}

/// The contents of the files that `.incbin` directives name, in order.
pub open spec fn contents(files: Seq<Vec<u8>>) -> Seq<Seq<u8>> {
    files.map_values(|f: Vec<u8>| f@)
}

/// The state before the first statement: a zeroed image, the cursor at 0.
pub open spec fn start() -> Pass {
    Pass {
        image: Seq::new(IMAGE_SIZE as nat, |i: int| 0u8),
        pointer: 0,
        labels: seq![],
        pending: seq![],
        included: 0,
    }
}

/// `bytes` written at the cursor, which moves past them; they must fit.
pub open spec fn emit(st: Pass, bytes: Seq<u8>) -> Result<Pass, Fault> {
    if st.pointer + bytes.len() > IMAGE_SIZE {
        Err(Fault::Overflow(st.pointer))
    } else {
        Ok(Pass { image: overwrite(st.image, st.pointer, bytes), pointer: st.pointer + bytes.len(), ..st })
    }
}

/// `head` written at the cursor, a use of `name` noted right after it, and the
/// cursor moved `width` bytes on; both the statement and the patch must fit.
pub open spec fn refer(st: Pass, head: Seq<u8>, name: Seq<char>, relative: bool, width: int) -> Result<Pass, Fault> {
    let u = LabelUse { location: (st.pointer + head.len()) as usize, is_relative: relative };
    if st.pointer + width > IMAGE_SIZE || st.pointer + head.len() + patch_width(u) > IMAGE_SIZE {
        Err(Fault::Overflow(st.pointer))
    } else {
        Ok(
            Pass {
                image: overwrite(st.image, st.pointer, head),
                pointer: st.pointer + width,
                pending: st.pending.push((name, u)),
                ..st
            },
        )
    }
}

/// The bytes of the `Short` items of an array, in order; other items are skipped.
pub open spec fn array_bytes(items: Seq<Value>) -> Seq<u8>
    decreases items.len(),
{
    if items.len() == 0 {
        seq![]
    } else {
        let init = array_bytes(items.drop_last());
        match items.last() {
            Value::Short(b) => init.push(b),
            _ => init,
        }
    }
}

/// The effect of the directive `.name v`.
pub open spec fn directive(st: Pass, name: Seq<char>, v: Operand, files: Seq<Seq<u8>>) -> Result<Pass, Fault> {
    if name == "org"@ {
        match v {
            Operand::Long(a) => Ok(Pass { pointer: a as int, ..st }),
            _ => Err(Fault::InvalidArgument(name)),
        }
    } else if name == "byte"@ {
        match v {
            Operand::Short(b) => emit(st, seq![b]),
            Operand::Long(w) => emit(st, le_bytes(w)),
            _ => Err(Fault::InvalidArgument(name)),
        }
    } else if name == "dw"@ {
        match v {
            Operand::Long(w) => emit(st, le_bytes(w)),
            Operand::Label(label) => refer(st, seq![], label, false, 2),
            _ => Err(Fault::InvalidArgument(name)),
        }
    } else if name == "db"@ {
        match v {
            Operand::Array(items) => emit(st, array_bytes(items)),
            Operand::Short(b) => emit(st, seq![b]),
            _ => Err(Fault::InvalidArgument(name)),
        }
    } else if name == "incbin"@ {
        match v {
            Operand::Text(file) => if st.included < files.len() {
                emit(Pass { included: st.included + 1, ..st }, files[st.included as int])
            } else {
                Err(Fault::MissingInclude(file))
            },
            _ => Err(Fault::InvalidArgument(name)),
        }
    } else {
        Err(Fault::UnknownDirective(name))
    }
}

/// The effect of one statement in the first pass.
pub open spec fn step(st: Pass, stmt: Statement, files: Seq<Seq<u8>>) -> Result<Pass, Fault> {
    match stmt {
        Statement::LabelDef(name) => Ok(Pass { labels: st.labels.push((name, st.pointer)), ..st }),
        Statement::Instruction(op, mode, v) => match encoding(op, mode) {
            None => Err(Fault::UnknownOpcode(op, mode)),
            Some(code) => match v {
                Operand::Short(b) => emit(st, seq![code, b]),
                Operand::Long(w) => emit(st, seq![code] + le_bytes(w)),
                Operand::Empty => emit(st, seq![code]),
                Operand::Label(name) => refer(st, seq![code], name, is_branch(op), mode_width(mode) as int),
                _ => Err(Fault::InvalidOperand(op)),
            },
        },
        Statement::Directive(name, v) => directive(st, name, v, files),
    }
}

/// The first pass over `stmts`: the state after the last one, or the first failure.
pub open spec fn pass1(stmts: Seq<Statement>, files: Seq<Seq<u8>>) -> Result<Pass, Fault>
    decreases stmts.len(),
{
    if stmts.len() == 0 {
        Ok(start())
    } else {
        match pass1(stmts.drop_last(), files) {
            Ok(st) => step(st, stmts.last(), files),
            Err(f) => Err(f),
        }
    }
}

/// The address of the last definition of `name`.
pub open spec fn resolve(labels: Seq<(Seq<char>, int)>, name: Seq<char>) -> Option<int>
    decreases labels.len(),
{
    if labels.len() == 0 {
        None
    } else if labels.last().0 == name {
        Some(labels.last().1)
    } else {
        resolve(labels.drop_last(), name)
    }
}

/// The labels used in `pending` but never defined, each once, in order of first use.
pub open spec fn undefined(pending: Seq<(Seq<char>, LabelUse)>, labels: Seq<(Seq<char>, int)>) -> Seq<Seq<char>>
    decreases pending.len(),
{
    if pending.len() == 0 {
        seq![]
    } else {
        let init = undefined(pending.drop_last(), labels);
        let name = pending.last().0;
        if resolve(labels, name) is None && !init.contains(name) {
            init.push(name)
        } else {
            init
        }
    }
}

/// An address as the two bytes of a 16-bit word.
pub open spec fn address_bytes(address: int) -> Seq<u8> {
    le_bytes((address % 0x10000) as u16)
}

/// The branch displacement from a branch whose operand is at `location` to
/// `address`, wrapped to one byte.
pub open spec fn relative_byte(address: int, location: int) -> u8 {
    ((address - (location + 1)) % 256) as u8
}

/// The bytes that the patch for `u` writes when the label is at `address`.
pub open spec fn patch_bytes(u: LabelUse, address: int) -> Seq<u8> {
    if u.is_relative {
        seq![relative_byte(address, u.location as int)]
    } else {
        address_bytes(address)
    }
}

/// `image` with the address of a label written at the place `u`.
pub open spec fn patch(image: Seq<u8>, u: LabelUse, address: int) -> Seq<u8> {
    overwrite(image, u.location as int, patch_bytes(u, address))
}

/// `image` with every use in `pending` patched, in order.
pub open spec fn patch_all(image: Seq<u8>, labels: Seq<(Seq<char>, int)>, pending: Seq<(Seq<char>, LabelUse)>) -> Seq<u8>
    decreases pending.len(),
{
    if pending.len() == 0 {
        image
    } else {
        let img = patch_all(image, labels, pending.drop_last());
        match resolve(labels, pending.last().0) {
            Some(address) => patch(img, pending.last().1, address),
            None => img,
        }
    }
}

/// The second pass over the state that the first pass left: the check that
/// every label used was defined, then the patches.
pub open spec fn pass2(st: Pass) -> Result<Seq<u8>, Fault> {
    let missing = undefined(st.pending, st.labels);
    if missing.len() > 0 {
        Err(Fault::UndefLabel(missing))
    } else {
        Ok(patch_all(st.image, st.labels, st.pending))
    }
}

/// The result of an assembly run: the image, or why there is none.
pub open spec fn assembled(stmts: Seq<Statement>, files: Seq<Seq<u8>>) -> Result<Seq<u8>, Fault> {
    match pass1(stmts, files) {
        Err(f) => Err(f),
        Ok(st) => pass2(st),
    }
}

/// The names of the files that the `.incbin` directives among `stmts` name, in order.
pub open spec fn include_names(stmts: Seq<Statement>) -> Seq<Seq<u8>>
    decreases stmts.len(),
{
    if stmts.len() == 0 {
        seq![]
    } else {
        let init = include_names(stmts.drop_last());
        match stmts.last() {
            Statement::Directive(name, Operand::Text(file)) => if name == "incbin"@ {
                init.push(file)
            } else {
                init
            },
            _ => init,
        }
    }
}

/// The bounds that every state of the first pass keeps.
pub open spec fn wf(st: Pass) -> bool {
    &&& st.image.len() == IMAGE_SIZE
    &&& 0 <= st.pointer <= IMAGE_SIZE
    &&& forall|i: int| 0 <= i < st.labels.len() ==> 0 <= #[trigger] st.labels[i].1 <= IMAGE_SIZE
    &&& forall|k: int|
        0 <= k < st.pending.len() ==> #[trigger] st.pending[k].1.location + patch_width(
            st.pending[k].1,
        ) <= IMAGE_SIZE
}

/// Every statement keeps the bounds.
pub proof fn lemma_step_wf(st: Pass, stmt: Statement, files: Seq<Seq<u8>>)
    requires
        wf(st),
        step(st, stmt, files) is Ok,
    ensures
        wf(step(st, stmt, files)->Ok_0),
{
    let next = step(st, stmt, files)->Ok_0;
    assert forall|i: int| 0 <= i < next.labels.len() implies 0 <= #[trigger] next.labels[i].1
        <= IMAGE_SIZE by {
        if i < st.labels.len() {
            assert(next.labels[i] == st.labels[i]);
        }
    }
    assert forall|k: int| 0 <= k < next.pending.len() implies #[trigger] next.pending[k].1.location
        + patch_width(next.pending[k].1) <= IMAGE_SIZE by {
        if k < st.pending.len() {
            assert(next.pending[k] == st.pending[k]);
        }
    }
}

/// Every state that the first pass reaches keeps the bounds.
pub proof fn lemma_pass1_wf(stmts: Seq<Statement>, files: Seq<Seq<u8>>)
    requires
        pass1(stmts, files) is Ok,
    ensures
        wf(pass1(stmts, files)->Ok_0),
    decreases stmts.len(),
{
    if stmts.len() > 0 {
        lemma_pass1_wf(stmts.drop_last(), files);
        lemma_step_wf(pass1(stmts.drop_last(), files)->Ok_0, stmts.last(), files);
    }
}

/// A failure of the first pass on a prefix is the failure of the whole.
pub proof fn lemma_pass1_failure(stmts: Seq<Statement>, files: Seq<Seq<u8>>, i: int)
    requires
        0 <= i <= stmts.len(),
        pass1(stmts.take(i), files) is Err,
    ensures
        pass1(stmts, files) == pass1(stmts.take(i), files),
    decreases stmts.len() - i,
{
    if i < stmts.len() {
        assert(stmts.take(i + 1).drop_last() =~= stmts.take(i));
        lemma_pass1_failure(stmts, files, i + 1);
    } else {
        assert(stmts.take(i) =~= stmts);
    }
}

/// A label that resolves has one of the addresses that were defined.
pub proof fn lemma_resolve_bounded(labels: Seq<(Seq<char>, int)>, name: Seq<char>)
    requires
        forall|i: int| 0 <= i < labels.len() ==> 0 <= #[trigger] labels[i].1 <= IMAGE_SIZE,
    ensures
        resolve(labels, name) matches Some(a) ==> 0 <= a <= IMAGE_SIZE,
    decreases labels.len(),
{
    if labels.len() > 0 {
        let init = labels.drop_last();
        assert forall|i: int| 0 <= i < init.len() implies 0 <= #[trigger] init[i].1 <= IMAGE_SIZE by {
            assert(init[i] == labels[i]);
        }
        lemma_resolve_bounded(init, name);
        assert(labels.last() == labels[labels.len() - 1]);
    }
}

/// When no label is missing, every use resolves.
pub proof fn lemma_all_defined(pending: Seq<(Seq<char>, LabelUse)>, labels: Seq<(Seq<char>, int)>, k: int)
    requires
        undefined(pending, labels).len() == 0,
        0 <= k < pending.len(),
    ensures
        resolve(labels, pending[k].0) is Some,
    decreases pending.len(),
{
    let init = undefined(pending.drop_last(), labels);
    if init.len() > 0 {
        lemma_undefined_grows(pending, labels);
    } else if k < pending.len() - 1 {
        assert(pending.drop_last()[k] == pending[k]);
        lemma_all_defined(pending.drop_last(), labels, k);
    }
}

/// The missing labels of a prefix stay missing.
pub proof fn lemma_undefined_grows(pending: Seq<(Seq<char>, LabelUse)>, labels: Seq<(Seq<char>, int)>)
    requires
        pending.len() > 0,
    ensures
        undefined(pending, labels).len() >= undefined(pending.drop_last(), labels).len(),
{
}

} // verus!
