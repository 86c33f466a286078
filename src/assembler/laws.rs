//! What holds of every assembly run, proved over the model of the two passes.
use crate::addressing_modes::{mode_width, AddressingMode};
use crate::assembler::model::{
    assembled, pass1, patch_all, patch_bytes, resolve, step, undefined, wf,
};
use crate::assembler::code::IMAGE_SIZE;
use crate::assembler::types::{patch_width, LabelUse, Pass};
use crate::error::Fault;
use crate::opcodes::{is_branch, OpcodeType};
use crate::parser::types::{Operand, Statement};
use vstd::prelude::*;

verus! {

/// Assembly depends on its input alone: `assemble` returns what `assembled`
/// gives for its statements and included contents, so two runs on the same
/// input give byte-identical images, or the same failure.
pub proof fn lemma_deterministic(
    a: Seq<Statement>,
    b: Seq<Statement>,
    files_a: Seq<Seq<u8>>,
    files_b: Seq<Seq<u8>>,
)
    requires
        a == b,
        files_a == files_b,
    ensures
        assembled(a, files_a) == assembled(b, files_b),
{
}

/// Whether an instruction's operand has the size that its mode gives: none,
/// a byte or a word, or for a label the displacement or address it becomes.
pub open spec fn operand_fits(op: OpcodeType, mode: AddressingMode, v: Operand) -> bool {
    match v {
        Operand::Empty => mode_width(mode) == 1,
        Operand::Short(_) => mode_width(mode) == 2,
        Operand::Long(_) => mode_width(mode) == 3,
        Operand::Label(_) => mode_width(mode) == if is_branch(op) {
            2nat
        } else {
            3nat
        },
        _ => false,
    }
}

/// An instruction whose operand fits its mode takes exactly the mode's width:
/// the cursor moves on by that width, no byte outside it changes, and a label
/// it uses is patched within it.
pub proof fn lemma_instruction_width(
    st: Pass,
    op: OpcodeType,
    mode: AddressingMode,
    v: Operand,
    files: Seq<Seq<u8>>,
)
    requires
        wf(st),
        operand_fits(op, mode, v),
        step(st, Statement::Instruction(op, mode, v), files) is Ok,
    ensures
        ({
            let next = step(st, Statement::Instruction(op, mode, v), files)->Ok_0;
            &&& next.pointer == st.pointer + mode_width(mode)
            &&& next.image.len() == st.image.len()
            &&& forall|i: int|
                0 <= i < st.image.len() && !(st.pointer <= i < st.pointer + mode_width(mode))
                    ==> next.image[i] == st.image[i]
            &&& v is Label ==> {
                &&& next.pending.len() == st.pending.len() + 1
                &&& next.pending.last().1.location == st.pointer + 1
                &&& next.pending.last().1.location + patch_width(next.pending.last().1) == st.pointer
                    + mode_width(mode)
            }
        }),
{
}

/// Whether the patches for `u` and `w` touch different bytes.
pub open spec fn apart(u: LabelUse, w: LabelUse) -> bool {
    u.location + patch_width(u) <= w.location || w.location + patch_width(w) <= u.location
}

/// A patch stays in the image when no later patch touches its bytes.
pub proof fn lemma_patch_kept(
    image: Seq<u8>,
    labels: Seq<(Seq<char>, int)>,
    pending: Seq<(Seq<char>, LabelUse)>,
    k: int,
    i: int,
)
    requires
        0 <= k < pending.len(),
        resolve(labels, pending[k].0) is Some,
        forall|j: int| k < j < pending.len() ==> apart(#[trigger] pending[j].1, pending[k].1),
        pending[k].1.location <= i < pending[k].1.location + patch_width(pending[k].1),
        i < image.len(),
    ensures
        patch_all(image, labels, pending)[i] == patch_bytes(
            pending[k].1,
            resolve(labels, pending[k].0)->Some_0,
        )[i - pending[k].1.location],
    decreases pending.len(),
{
    let init = pending.drop_last();
    let before = patch_all(image, labels, init);
    lemma_patch_all_len(image, labels, init);
    if k == pending.len() - 1 {
    } else {
        assert forall|j: int| k < j < init.len() implies apart(#[trigger] init[j].1, init[k].1) by {
            assert(init[j] == pending[j]);
            assert(apart(pending[j].1, pending[k].1));
        }
        lemma_patch_kept(image, labels, init, k, i);
        assert(apart(pending[pending.len() - 1].1, pending[k].1));
    }
}

/// Patching keeps the length of the image.
pub proof fn lemma_patch_all_len(
    image: Seq<u8>,
    labels: Seq<(Seq<char>, int)>,
    pending: Seq<(Seq<char>, LabelUse)>,
)
    ensures
        patch_all(image, labels, pending).len() == image.len(),
    decreases pending.len(),
{
    if pending.len() > 0 {
        lemma_patch_all_len(image, labels, pending.drop_last());
    }
}

/// The use `k` of the first pass is patched last at its bytes.
pub open spec fn last_at(st: Pass, k: int) -> bool {
    &&& 0 <= k < st.pending.len()
    &&& forall|j: int| k < j < st.pending.len() ==> apart(#[trigger] st.pending[j].1, st.pending[k].1)
}

/// An absolute use of a label at offset `o`, in a run that succeeds, holds the
/// label's address `a` as a little-endian word: `image[o] + 256 * image[o + 1] == a`.
pub proof fn lemma_absolute_reference(stmts: Seq<Statement>, files: Seq<Seq<u8>>, k: int)
    requires
        assembled(stmts, files) is Ok,
        pass1(stmts, files) is Ok,
        ({
            let st = pass1(stmts, files)->Ok_0;
            &&& last_at(st, k)
            &&& !st.pending[k].1.is_relative
            &&& resolve(st.labels, st.pending[k].0) is Some
            &&& resolve(st.labels, st.pending[k].0)->Some_0 < IMAGE_SIZE
        }),
    ensures
        ({
            let st = pass1(stmts, files)->Ok_0;
            let o = st.pending[k].1.location as int;
            let image = assembled(stmts, files)->Ok_0;
            image[o] + 256 * image[o + 1] == resolve(st.labels, st.pending[k].0)->Some_0
        }),
{
    let st = pass1(stmts, files)->Ok_0;
    crate::assembler::model::lemma_pass1_wf(stmts, files);
    let u = st.pending[k].1;
    let o = u.location as int;
    let a = resolve(st.labels, st.pending[k].0)->Some_0;
    assert(o + 2 <= IMAGE_SIZE);
    lemma_patch_kept(st.image, st.labels, st.pending, k, o);
    lemma_patch_kept(st.image, st.labels, st.pending, k, o + 1);
    crate::assembler::model::lemma_resolve_bounded(st.labels, st.pending[k].0);
    vstd::arithmetic::div_mod::lemma_small_mod(a as nat, 0x10000);
    let w = (a % 0x10000) as u16;
    assert(w == a);
    vstd::arithmetic::div_mod::lemma_fundamental_div_mod(a, 256);
}

/// A branch whose displacement byte is at offset `o`, in a run that
/// succeeds, holds `(a - (o + 1)) mod 256` for the label's address `a`.
pub proof fn lemma_relative_displacement(stmts: Seq<Statement>, files: Seq<Seq<u8>>, k: int)
    requires
        assembled(stmts, files) is Ok,
        pass1(stmts, files) is Ok,
        last_at(pass1(stmts, files)->Ok_0, k),
        pass1(stmts, files)->Ok_0.pending[k].1.is_relative,
    ensures
        ({
            let st = pass1(stmts, files)->Ok_0;
            let o = st.pending[k].1.location as int;
            let a = resolve(st.labels, st.pending[k].0)->Some_0;
            let image = assembled(stmts, files)->Ok_0;
            image[o] as int == (a - (o + 1)) % 256
        }),
{
    let st = pass1(stmts, files)->Ok_0;
    crate::assembler::model::lemma_pass1_wf(stmts, files);
    crate::assembler::model::lemma_all_defined(st.pending, st.labels, k);
    let o = st.pending[k].1.location as int;
    assert(o + 1 <= IMAGE_SIZE);
    lemma_patch_kept(st.image, st.labels, st.pending, k, o);
}

/// A use whose label is not defined leaves its name among the missing ones.
pub proof fn lemma_undefined_contains(
    pending: Seq<(Seq<char>, LabelUse)>,
    labels: Seq<(Seq<char>, int)>,
    k: int,
)
    requires
        0 <= k < pending.len(),
        resolve(labels, pending[k].0) is None,
    ensures
        undefined(pending, labels).contains(pending[k].0),
    decreases pending.len(),
{
    let init = undefined(pending.drop_last(), labels);
    if k == pending.len() - 1 {
        if !init.contains(pending[k].0) {
            assert(undefined(pending, labels) == init.push(pending[k].0));
            assert(undefined(pending, labels)[init.len() as int] == pending[k].0);
        }
    } else {
        assert(pending.drop_last()[k] == pending[k]);
        lemma_undefined_contains(pending.drop_last(), labels, k);
        let j = choose|j: int| 0 <= j < init.len() && init[j] == pending[k].0;
        assert(undefined(pending, labels)[j] == pending[k].0);
    }
}

/// When `name` is the only label that is used and not defined, it is the only
/// one missing.
pub proof fn lemma_undefined_single(
    pending: Seq<(Seq<char>, LabelUse)>,
    labels: Seq<(Seq<char>, int)>,
    name: Seq<char>,
)
    requires
        resolve(labels, name) is None,
        forall|j: int|
            0 <= j < pending.len() && resolve(labels, #[trigger] pending[j].0) is None ==> pending[j].0
                == name,
    ensures
        undefined(pending, labels) == if exists|j: int| 0 <= j < pending.len() && #[trigger] pending[j].0 == name {
            seq![name]
        } else {
            seq![]
        },
    decreases pending.len(),
{
    if pending.len() > 0 {
        let init = pending.drop_last();
        assert forall|j: int|
            0 <= j < init.len() && resolve(labels, #[trigger] init[j].0) is None implies init[j].0
            == name by {
            assert(init[j] == pending[j]);
        }
        lemma_undefined_single(init, labels, name);
        let last = pending.len() - 1;
        if exists|j: int| 0 <= j < init.len() && #[trigger] init[j].0 == name {
            let j = choose|j: int| 0 <= j < init.len() && #[trigger] init[j].0 == name;
            assert(pending[j].0 == name);
            if pending[last].0 == name {
                assert(seq![name].contains(name)) by {
                    assert(seq![name][0] == name);
                }
            }
        } else {
            if pending[last].0 == name {
                assert(Seq::<Seq<char>>::empty().push(name) =~= seq![name]);
            } else {
                assert forall|j: int| 0 <= j < pending.len() implies #[trigger] pending[j].0 != name by {
                    if j < last {
                        assert(init[j] == pending[j]);
                    }
                }
            }
        }
    }
}

/// A run in which a label is used but never defined fails, yielding no image,
/// with an error that names that label; when it is the only such label, the
/// error names it alone.
pub proof fn lemma_undefined_label(stmts: Seq<Statement>, files: Seq<Seq<u8>>, k: int)
    requires
        pass1(stmts, files) is Ok,
        0 <= k < pass1(stmts, files)->Ok_0.pending.len(),
        resolve(pass1(stmts, files)->Ok_0.labels, pass1(stmts, files)->Ok_0.pending[k].0) is None,
    ensures
        ({
            let st = pass1(stmts, files)->Ok_0;
            let name = st.pending[k].0;
            let missing = undefined(st.pending, st.labels);
            &&& assembled(stmts, files) == Err::<Seq<u8>, Fault>(Fault::UndefLabel(missing))
            &&& missing.contains(name)
            &&& (forall|j: int|
                0 <= j < st.pending.len() && #[trigger] st.pending[j].0 != name ==> resolve(
                    st.labels,
                    st.pending[j].0,
                ) is Some) ==> missing == seq![name]
        }),
{
    let st = pass1(stmts, files)->Ok_0;
    let name = st.pending[k].0;
    lemma_undefined_contains(st.pending, st.labels, k);
    if forall|j: int|
        0 <= j < st.pending.len() && #[trigger] st.pending[j].0 != name ==> resolve(
            st.labels,
            st.pending[j].0,
        ) is Some {
        lemma_undefined_single(st.pending, st.labels, name);
    }
}

/// A label used before its definition resolves as one used after it: two
/// absolute uses of one label hold the same word, wherever each stands.
pub proof fn lemma_forward_reference(stmts: Seq<Statement>, files: Seq<Seq<u8>>, j: int, k: int)
    requires
        assembled(stmts, files) is Ok,
        pass1(stmts, files) is Ok,
        ({
            let st = pass1(stmts, files)->Ok_0;
            &&& last_at(st, j)
            &&& last_at(st, k)
            &&& !st.pending[j].1.is_relative
            &&& !st.pending[k].1.is_relative
            &&& st.pending[j].0 == st.pending[k].0
        }),
    ensures
        ({
            let st = pass1(stmts, files)->Ok_0;
            let image = assembled(stmts, files)->Ok_0;
            let oj = st.pending[j].1.location as int;
            let ok = st.pending[k].1.location as int;
            image[oj] == image[ok] && image[oj + 1] == image[ok + 1]
        }),
{
    let st = pass1(stmts, files)->Ok_0;
    crate::assembler::model::lemma_pass1_wf(stmts, files);
    crate::assembler::model::lemma_all_defined(st.pending, st.labels, k);
    let oj = st.pending[j].1.location as int;
    let ok = st.pending[k].1.location as int;
    assert(oj + 2 <= IMAGE_SIZE);
    assert(ok + 2 <= IMAGE_SIZE);
    lemma_patch_kept(st.image, st.labels, st.pending, j, oj);
    lemma_patch_kept(st.image, st.labels, st.pending, j, oj + 1);
    lemma_patch_kept(st.image, st.labels, st.pending, k, ok);
    lemma_patch_kept(st.image, st.labels, st.pending, k, ok + 1);
}

} // verus!
