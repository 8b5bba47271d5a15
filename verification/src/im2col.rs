//! The parameter block of the column-unfolding kernel.

use crate::params::ParameterBlock;
use vstd::prelude::*;

verus! {

/// Geometry of a one-dimensional convolution that is unfolded into columns.
#[derive(Debug, Clone, Copy, PartialEq, Eq, Structural)]
pub struct Im2ColParams {
    pub batch_size: u32,
    pub input_length: u32,
    pub channels_in: u32,
    pub channels_out: u32,
    pub kernel_size: u32,
    pub groups: u32,
    pub padding: u32,
    pub stride: u32,
    pub dilation: u32,
}

impl ParameterBlock for Im2ColParams {
    open spec fn words(&self) -> Seq<u32> {
        seq![self.batch_size, self.input_length, self.channels_in, self.channels_out, self.kernel_size, self.groups, self.padding, self.stride, self.dilation]
    }

    fn to_words(&self) -> (words: Vec<u32>) {
        let mut words: Vec<u32> = Vec::new();
        words.push(self.batch_size);
        words.push(self.input_length);
        words.push(self.channels_in);
        words.push(self.channels_out);
        words.push(self.kernel_size);
        words.push(self.groups);
        words.push(self.padding);
        words.push(self.stride);
        words.push(self.dilation);
        assert(words@ =~= self.words());
        words
    }
}

} // verus!
