//! Parameter blocks: the fixed-layout data a kernel reads beside its buffers.

use vstd::prelude::*;

verus! {

/// A parameter block of one kernel family.
///
/// A block is a fixed list of 32-bit fields. The kernel reads them from a
/// uniform buffer in field order, so the order of `words` is the layout that
/// the kernel's source expects.
pub trait ParameterBlock {
    /// The fields of the block, in layout order.
    spec fn words(&self) -> Seq<u32>;

    /// Returns the fields of the block, in layout order.
    fn to_words(&self) -> (words: Vec<u32>)
        ensures
            words@ == self.words(),
    ;
}

} // verus!
