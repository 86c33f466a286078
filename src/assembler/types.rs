//! The records that the assembler keeps.
use vstd::prelude::*;

verus! {

/// Where the assembler looks for the files that `.incbin` names.
pub struct Metadata {
    pub search_path: String,
}

impl Default for Metadata {
    fn default() -> (r: Metadata)
        ensures
            r.search_path@ == Seq::<char>::empty(),
    {
        Metadata { search_path: String::new() }
    }
}

/// A place where a label's address is to be written once it is known.
#[derive(Debug, Copy, Clone, PartialEq, Eq, Structural)]
pub struct LabelUse {
    /// Where the label was used: the offset of its first operand byte.
    pub location: usize,
    /// Whether it was used by a branch, as a relative displacement.
    pub is_relative: bool,
}

/// How many bytes the patch for `u` takes: one for a branch, two for an address.
pub open spec fn patch_width(u: LabelUse) -> int {
    if u.is_relative {
        1
    } else {
        2
    }
}

/// The state of the first pass.
pub struct Pass {
    /// The image so far.
    pub image: Seq<u8>,
    /// The write cursor.
    pub pointer: int,
    /// Each label definition met so far, with the address it was given.
    pub labels: Seq<(Seq<char>, int)>,
    /// Each use of a label met so far, in order.
    pub pending: Seq<(Seq<char>, LabelUse)>,
    /// How many included files have been written.
    pub included: nat,
}

} // verus!
