//! The nearest-neighbour upsampling kernel.

use crate::backend::{rejects, WgpuBackend};
use crate::buffer::BufferHandle;
use crate::error::WgpuBackendError;
use crate::kernel::Shader;
use crate::params::ParameterBlock;
use vstd::prelude::*;

verus! {

/// Batch and channel counts, and the extents of the input and the output.
#[derive(Debug, Clone, Copy, PartialEq, Eq, Structural)]
pub struct UpsampleNearestParams {
    pub no_batches: u32,
    pub no_channels: u32,
    pub input_w: u32,
    pub input_h: u32,
    pub output_w: u32,
    pub output_h: u32,
}

impl ParameterBlock for UpsampleNearestParams {
    open spec fn words(&self) -> Seq<u32> {
        seq![self.no_batches, self.no_channels, self.input_w, self.input_h, self.output_w, self.output_h]
    }

    fn to_words(&self) -> (words: Vec<u32>) {
        let mut words: Vec<u32> = Vec::new();
        words.push(self.no_batches);
        words.push(self.no_channels);
        words.push(self.input_w);
        words.push(self.input_h);
        words.push(self.output_w);
        words.push(self.output_h);
        assert(words@ =~= self.words());
        words
    }
}

impl WgpuBackend {
    /// Records the kernel that scales every `input_w` by `input_h` plane of
    /// `input` to `output_w` by `output_h` in `output`, each output element
    /// taking the nearest input element.
    pub fn upsample_nearest(
        &mut self,
        no_batches: u32,
        no_channels: u32,
        input_w: u32,
        input_h: u32,
        output_w: u32,
        output_h: u32,
        input: BufferHandle,
        output: BufferHandle,
    ) -> (r: Result<(), WgpuBackendError>)
        ensures
            rejects(r, old(self).first_unknown(seq![input].push(output))),
            old(self).dispatched(
                final(self),
                Shader::UpsampleNearest,
                "upsample_nearest"@,
                seq![input],
                output,
                seq![no_batches, no_channels, input_w, input_h, output_w, output_h],
            ),
    {
        let params = UpsampleNearestParams {
            no_batches,
            no_channels,
            input_w,
            input_h,
            output_w,
            output_h,
        };
        match self.run_shader_with_input(
            Shader::UpsampleNearest,
            "upsample_nearest",
            input,
            output,
            &params,
        ) {
            Ok(_) => Ok(()),
            Err(e) => Err(e),
        }
    }
}

} // verus!
