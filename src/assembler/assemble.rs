//! The assembler itself: the first pass over the statements, then the
//! patches that write each label's address where it was used.
use crate::addressing_modes::get_size;
use crate::assembler::code::{big_to_little_endian, le_bytes, overwrite, Code, IMAGE_SIZE};
use crate::assembler::model::{
    array_bytes, assembled, contents, directive, emit, include_names, lemma_all_defined,
    lemma_pass1_failure, lemma_resolve_bounded, lemma_step_wf, pass1, pass2, patch, patch_all,
    refer, resolve, start, statements, step, undefined, wf,
};
use crate::assembler::types::{patch_width, LabelUse, Pass};
use crate::error::{names_of, Error, Fault};
use crate::opcodes::get_code;
use crate::parser::types::{LineType, Statement, Value};
use vstd::prelude::*;
use vstd::string::StrSliceExecFns;

verus! {
/// Whether `name` is spelled `text`.
fn spelled(name: &String, text: &str) -> (r: bool)
    ensures
        r == (name@ == text@),
{
    let chars = name.as_str();
    let n = chars.unicode_len();
    if n != text.unicode_len() {
        return false;
    }
    let mut i: usize = 0;
    while i < n
        invariant
            chars@ == name@,
            n == chars@.len() == text@.len(),
            i <= n,
            forall|j: int| 0 <= j < i ==> chars@[j] == text@[j],
        decreases n - i,
    {
        if chars.get_char(i) != text.get_char(i) {
            assert(chars@[i as int] != text@[i as int]);
            return false;
        }
        i = i + 1;
    }
    assert(chars@ =~= text@);
    true
}

/// The definitions as names and addresses.
pub open spec fn labels_view(labels: Seq<(String, usize)>) -> Seq<(Seq<char>, int)> {
    labels.map_values(|d: (String, usize)| (d.0@, d.1 as int))
}

/// The uses as names and places.
pub open spec fn pending_view(pending: Seq<(String, LabelUse)>) -> Seq<(Seq<char>, LabelUse)> {
    pending.map_values(|u: (String, LabelUse)| (u.0@, u.1))
}

/// The address of the last definition of `name`.
fn lookup(labels: &Vec<(String, usize)>, name: &String) -> (r: Option<usize>)
    ensures
        match resolve(labels_view(labels@), name@) {
            Some(a) => r == Some(a as usize) && a == r->Some_0,
            None => r is None,
        },
{
    let ghost all = labels_view(labels@);
    let mut i = labels.len();
    assert(all.take(i as int) =~= all);
    while i > 0
        invariant
            i <= labels@.len(),
            all == labels_view(labels@),
            resolve(all, name@) == resolve(all.take(i as int), name@),
        decreases i,
    {
        i = i - 1;
        assert(all.take(i + 1).drop_last() =~= all.take(i as int));
        if labels[i].0 == *name {
            return Some(labels[i].1);
        }
    }
    None
}

/// Whether `name` is among `names`.
fn contains(names: &Vec<String>, name: &String) -> (r: bool)
    ensures
        r == names_of(names@).contains(name@),
{
    let mut i: usize = 0;
    while i < names.len()
        invariant
            i <= names@.len(),
            forall|j: int| 0 <= j < i ==> names@[j]@ != name@,
        decreases names@.len() - i,
    {
        if names[i] == *name {
            assert(names_of(names@)[i as int] == name@);
            return true;
        }
        i = i + 1;
    }
    assert forall|j: int| 0 <= j < names_of(names@).len() implies names_of(names@)[j] != name@ by {
        assert(names_of(names@)[j] == names@[j]@);
    }
    false
}

/// The bytes of the `Short` items of an array.
fn short_bytes(items: &Vec<Value>) -> (r: Vec<u8>)
    ensures
        r@ == array_bytes(items@),
{
    let mut bytes: Vec<u8> = Vec::new();
    let mut i: usize = 0;
    while i < items.len()
        invariant
            i <= items@.len(),
            bytes@ == array_bytes(items@.take(i as int)),
        decreases items@.len() - i,
    {
        assert(items@.take(i + 1).drop_last() =~= items@.take(i as int));
        if let Value::Short(b) = items[i] {
            bytes.push(b);
        }
        i = i + 1;
    }
    assert(items@.take(items@.len() as int) =~= items@);
    bytes
}

/// A vector of the one byte `b`.
fn single(b: u8) -> (r: Vec<u8>)
    ensures
        r@ == seq![b],
{
    let r = vec![b];
    assert(r@ =~= seq![b]);
    r
}

/// A word as a vector of its two bytes, low first.
fn word_bytes(w: u16) -> (r: Vec<u8>)
    ensures
        r@ == le_bytes(w),
{
    let (lo, hi) = big_to_little_endian(w);
    let r = vec![lo, hi];
    assert(r@ =~= le_bytes(w));
    r
}

/// The first pass in progress: the image, the definitions and the uses met so
/// far, and how many included files were written.
struct Assembly {
    code: Code,
    labels: Vec<(String, usize)>,
    pending: Vec<(String, LabelUse)>,
    included: usize,
}

impl Assembly {
    /// The state of the first pass that this holds.
    spec fn pass(&self) -> Pass {
        Pass {
            image: self.code@,
            pointer: self.code.pointer as int,
            labels: labels_view(self.labels@),
            pending: pending_view(self.pending@),
            included: self.included as nat,
        }
    }

    /// Whether this call had the effect `expected` says.
    /// Whether a step from `old_self` to `new_self` with result `r` did what
    /// `expected` says: reached that state, or failed with that fault.
    spec fn follows(old_self: Assembly, new_self: Assembly, r: Result<(), Error>, expected: Result<Pass, Fault>) -> bool {
        match expected {
            Ok(next) => r is Ok && new_self.pass() == next,
            Err(f) => r matches Err(e) && e@ == f,
        }
    }

    /// Writes `bytes` at the cursor.
    fn emit(&mut self, bytes: &Vec<u8>) -> (r: Result<(), Error>)
        requires
            wf(old(self).pass()),
        ensures
            Self::follows(*old(self), *final(self), r, emit(old(self).pass(), bytes@)),
    {
        let start = self.code.pointer;
        if bytes.len() > IMAGE_SIZE - start {
            return Err(Error::Overflow { at: start });
        }
        let ghost image = self.code@;
        let mut i: usize = 0;
        assert(overwrite(image, start as int, bytes@.take(0)) =~= image);
        while i < bytes.len()
            invariant
                i <= bytes@.len(),
                start + bytes@.len() <= IMAGE_SIZE,
                image.len() == IMAGE_SIZE,
                self.code@ == overwrite(image, start as int, bytes@.take(i as int)),
                self.code.pointer == start + i,
                self.labels == old(self).labels,
                self.pending == old(self).pending,
                self.included == old(self).included,
            decreases bytes@.len() - i,
        {
            self.code.push_byte(bytes[i]);
            assert(self.code@ =~= overwrite(image, start as int, bytes@.take(i + 1)));
            i = i + 1;
        }
        assert(bytes@.take(bytes@.len() as int) =~= bytes@);
        Ok(())
    }

    /// Writes `head` at the cursor and notes a use of `name` right after it.
    fn refer(&mut self, head: &Vec<u8>, name: &String, relative: bool, width: usize) -> (r: Result<(), Error>)
        requires
            wf(old(self).pass()),
            head@.len() <= 1,
            width <= 3,
        ensures
            Self::follows(*old(self), *final(self), r, refer(old(self).pass(), head@, name@, relative, width as int)),
    {
        let start = self.code.pointer;
        let patch: usize = if relative { 1 } else { 2 };
        if width > IMAGE_SIZE - start || head.len() + patch > IMAGE_SIZE - start {
            return Err(Error::Overflow { at: start });
        }
        let ghost before = self.pass();
        if head.len() == 1 {
            self.code.push_byte(head[0]);
        }
        assert(self.code@ =~= overwrite(before.image, start as int, head@));
        let u = LabelUse { location: start + head.len(), is_relative: relative };
        self.pending.push((name.clone(), u));
        self.code.pointer = start + width;
        assert(pending_view(self.pending@) =~= before.pending.push((name@, u)));
        Ok(())
    }

    /// Defines `name` at the cursor.
    fn define(&mut self, name: &String)
        ensures
            final(self).pass() == (Pass { labels: old(self).pass().labels.push((name@, old(self).code.pointer as int)), ..old(self).pass() }),
    {
        let ghost before = self.pass();
        self.labels.push((name.clone(), self.code.pointer));
        assert(labels_view(self.labels@) =~= before.labels.push((name@, self.code.pointer as int)));
    }

    /// Carries out the directive `.name arg`.
    fn directive(&mut self, name: &String, arg: &Value, files: &Vec<Vec<u8>>) -> (r: Result<(), Error>)
        requires
            wf(old(self).pass()),
        ensures
            Self::follows(*old(self), *final(self), r, directive(old(self).pass(), name@, arg@, contents(files@))),
    {
        if spelled(name, "org") {
            match arg {
                Value::Long(a) => {
                    self.code.pointer = *a as usize;
                    Ok(())
                },
                _ => Err(Error::InvalidArgument { directive: name.clone() }),
            }
        } else if spelled(name, "byte") {
            match arg {
                Value::Short(b) => self.emit(&single(*b)),
                Value::Long(w) => self.emit(&word_bytes(*w)),
                _ => Err(Error::InvalidArgument { directive: name.clone() }),
            }
        } else if spelled(name, "dw") {
            match arg {
                Value::Long(w) => self.emit(&word_bytes(*w)),
                Value::Label(label) => {
                    assert(Seq::<u8>::empty() =~= seq![]);
                    self.refer(&Vec::new(), label, false, 2)
                },
                _ => Err(Error::InvalidArgument { directive: name.clone() }),
            }
        } else if spelled(name, "db") {
            match arg {
                Value::Array(items) => self.emit(&short_bytes(items)),
                Value::Short(b) => self.emit(&single(*b)),
                _ => Err(Error::InvalidArgument { directive: name.clone() }),
            }
        } else if spelled(name, "incbin") {
            match arg {
                Value::Text(file) => {
                    if self.included < files.len() {
                        let k = self.included;
                        self.included = k + 1;
                        self.emit(&files[k])
                    } else {
                        Err(Error::MissingInclude { file: vstd::slice::slice_to_vec(file.as_slice()) })
                    }
                },
                _ => Err(Error::InvalidArgument { directive: name.clone() }),
            }
        } else {
            Err(Error::UnknownDirective { directive: name.clone() })
        }
    }

    /// Carries out one statement of the first pass.
    fn line(&mut self, line: &LineType, files: &Vec<Vec<u8>>) -> (r: Result<(), Error>)
        requires
            wf(old(self).pass()),
        ensures
            Self::follows(*old(self), *final(self), r, step(old(self).pass(), line@, contents(files@))),
    {
        match line {
            LineType::LabelDef(name) => {
                self.define(name);
                Ok(())
            },
            LineType::Opcode(opcode) => {
                let code = match get_code(opcode.name, opcode.arg.0) {
                    Ok(code) => code,
                    Err(e) => {
                        return Err(e);
                    },
                };
                match &opcode.arg.1 {
                    Value::Short(b) => {
                        let bytes = vec![code, *b];
                        assert(bytes@ =~= seq![code, *b]);
                        self.emit(&bytes)
                    },
                    Value::Long(w) => {
                        let word = word_bytes(*w);
                        let bytes = vec![code, word[0], word[1]];
                        assert(bytes@ =~= seq![code] + le_bytes(*w));
                        self.emit(&bytes)
                    },
                    Value::Empty => self.emit(&single(code)),
                    Value::Label(name) => {
                        let size = get_size(opcode.arg.0);
                        self.refer(&single(code), name, opcode.name.is_branch_op(), size)
                    },
                    _ => Err(Error::InvalidOperand { name: opcode.name }),
                }
            },
            LineType::Macro(name, arg) => self.directive(name, arg, files),
        }
    }

    /// The second pass: fails when a label used was never defined, else
    /// patches every use and hands the image out.
    fn finish(self) -> (r: Result<Vec<u8>, Error>)
        requires
            wf(self.pass()),
        ensures
            match pass2(self.pass()) {
                Ok(image) => r matches Ok(v) && v@ == image,
                Err(f) => r matches Err(e) && e@ == f,
            },
    {
        let ghost st = self.pass();
        let Assembly { mut code, labels, pending, included: _ } = self;
        let mut missing: Vec<String> = Vec::new();
        let mut k: usize = 0;
        assert(st.pending.take(0) =~= Seq::<(Seq<char>, LabelUse)>::empty());
        assert(names_of(missing@) =~= Seq::<Seq<char>>::empty());
        while k < pending.len()
            invariant
                k <= pending@.len(),
                st.pending == pending_view(pending@),
                st.labels == labels_view(labels@),
                names_of(missing@) == undefined(st.pending.take(k as int), st.labels),
            decreases pending@.len() - k,
        {
            assert(st.pending.take(k + 1).drop_last() =~= st.pending.take(k as int));
            let name = &pending[k].0;
            if lookup(&labels, name).is_none() && !contains(&missing, name) {
                let ghost before = missing@;
                missing.push(name.clone());
                assert(names_of(missing@) =~= names_of(before).push(name@));
            }
            k = k + 1;
        }
        assert(st.pending.take(pending@.len() as int) =~= st.pending);
        if missing.len() > 0 {
            return Err(Error::UndefLabel { labels: missing });
        }
        assert(names_of(missing@).len() == 0);
        k = 0;
        assert(st.pending.take(0) =~= Seq::<(Seq<char>, LabelUse)>::empty());
        while k < pending.len()
            invariant
                k <= pending@.len(),
                wf(st),
                st.pending == pending_view(pending@),
                st.labels == labels_view(labels@),
                undefined(st.pending, st.labels).len() == 0,
                code@.len() == IMAGE_SIZE,
                code@ == patch_all(st.image, st.labels, st.pending.take(k as int)),
            decreases pending@.len() - k,
        {
            assert(st.pending.take(k + 1).drop_last() =~= st.pending.take(k as int));
            assert(st.pending[k as int] == (pending@[k as int].0@, pending@[k as int].1));
            proof {
                lemma_all_defined(st.pending, st.labels, k as int);
                lemma_resolve_bounded(st.labels, st.pending[k as int].0);
            }
            let name = &pending[k].0;
            let u = pending[k].1;
            assert(st.pending[k as int].1.location + patch_width(st.pending[k as int].1) <= IMAGE_SIZE);
            let address = lookup(&labels, name).unwrap();
            code.pointer = u.location;
            let ghost before = code@;
            if u.is_relative {
                let wrapped: usize = address + 0x10000 - (u.location + 1);
                proof {
                    vstd::arithmetic::div_mod::lemma_mod_multiples_vanish(
                        256,
                        address - (u.location + 1),
                        256,
                    );
                }
                code.push_byte((wrapped % 256) as u8);
            } else {
                code.push_long((address % 0x10000) as u16);
            }
            assert(code@ == patch(before, u, address as int));
            k = k + 1;
        }
        assert(st.pending.take(pending@.len() as int) =~= st.pending);
        Ok(code.into_bytes())
    }
}

/// Assembles `parsed_code` into a 64 KiB image. The `.incbin` directives take
/// the contents of `files` in order; `includes` says which files they name.
pub fn assemble(parsed_code: Vec<LineType>, files: &Vec<Vec<u8>>) -> (r: Result<Vec<u8>, Error>)
    ensures
        match assembled(statements(parsed_code@), contents(files@)) {
            Ok(image) => r matches Ok(v) && v@ == image,
            Err(f) => r matches Err(e) && e@ == f,
        },
{
    let mut st = Assembly { code: Code::new(), labels: Vec::new(), pending: Vec::new(), included: 0 };
    let ghost stmts = statements(parsed_code@);
    let ghost fs = contents(files@);
    assert(st.pass().labels =~= start().labels);
    assert(st.pass().pending =~= start().pending);
    assert(st.pass().image =~= start().image);
    assert(stmts.take(0) =~= Seq::<Statement>::empty());
    let mut i: usize = 0;
    while i < parsed_code.len()
        invariant
            i <= parsed_code@.len(),
            stmts == statements(parsed_code@),
            fs == contents(files@),
            pass1(stmts.take(i as int), fs) == Ok::<Pass, Fault>(st.pass()),
            wf(st.pass()),
        decreases parsed_code@.len() - i,
    {
        assert(stmts.take(i + 1).drop_last() =~= stmts.take(i as int));
        assert(stmts.take(i + 1).last() == parsed_code@[i as int]@);
        let ghost before = st.pass();
        match st.line(&parsed_code[i], files) {
            Ok(()) => {
                proof {
                    lemma_step_wf(before, parsed_code@[i as int]@, fs);
                }
            },
            Err(e) => {
                proof {
                    lemma_pass1_failure(stmts, fs, i + 1);
                }
                return Err(e);
            },
        }
        i = i + 1;
    }
    assert(stmts.take(parsed_code@.len() as int) =~= stmts);
    st.finish()
}

/// The names of the files that the `.incbin` directives of `parsed_code` name,
/// in order: the contents that `assemble` takes.
pub fn includes(parsed_code: &Vec<LineType>) -> (r: Vec<Vec<u8>>)
    ensures
        contents(r@) == include_names(statements(parsed_code@)),
{
    let ghost stmts = statements(parsed_code@);
    let mut names: Vec<Vec<u8>> = Vec::new();
    let mut i: usize = 0;
    assert(contents(names@) =~= include_names(stmts.take(0)));
    while i < parsed_code.len()
        invariant
            i <= parsed_code@.len(),
            stmts == statements(parsed_code@),
            contents(names@) == include_names(stmts.take(i as int)),
        decreases parsed_code@.len() - i,
    {
        assert(stmts.take(i + 1).drop_last() =~= stmts.take(i as int));
        assert(stmts.take(i + 1).last() == parsed_code@[i as int]@);
        if let LineType::Macro(name, Value::Text(file)) = &parsed_code[i] {
            if spelled(name, "incbin") {
                let ghost before = names@;
                names.push(vstd::slice::slice_to_vec(file.as_slice()));
                assert(contents(names@) =~= contents(before).push(file@));
            }
        }
        i = i + 1;
    }
    assert(stmts.take(parsed_code@.len() as int) =~= stmts);
    names
}

} // verus!
