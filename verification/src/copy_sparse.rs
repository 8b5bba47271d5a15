//! The sparse copy kernel.

use crate::backend::{rejects, WgpuBackend};
use crate::buffer::BufferHandle;
use crate::error::WgpuBackendError;
use crate::kernel::Shader;
use crate::params::ParameterBlock;
use vstd::prelude::*;

verus! {

/// Length of one batch of the input and the distance between batches in the output.
struct CopySparseParams {
    batch_size: u32,
    out_stride: u32,
}

impl ParameterBlock for CopySparseParams {
    closed spec fn words(&self) -> Seq<u32> {
        seq![self.batch_size, self.out_stride]
    }

    fn to_words(&self) -> (words: Vec<u32>) {
        let mut words: Vec<u32> = Vec::new();
        words.push(self.batch_size);
        words.push(self.out_stride);
        assert(words@ =~= self.words());
        words
    }
}

impl WgpuBackend {
    /// Records the kernel that copies batches of `batch_size` elements to
    /// the output, one batch every `out_stride` elements.
    pub fn copy_sparse(
        &mut self,
        input_buffer: BufferHandle,
        output_buffer: BufferHandle,
        batch_size: u32,
        out_stride: u32,
    ) -> (r: Result<(), WgpuBackendError>)
        ensures
            rejects(r, old(self).first_unknown(seq![input_buffer].push(output_buffer))),
            old(self).dispatched(
                final(self),
                Shader::CopySparse,
                "copy_sparse"@,
                seq![input_buffer],
                output_buffer,
                seq![batch_size, out_stride],
            ),
    {
        let params = CopySparseParams { batch_size, out_stride };
        match self.run_shader_with_input(
            Shader::CopySparse,
            "copy_sparse",
            input_buffer,
            output_buffer,
            &params,
        ) {
            Ok(_) => Ok(()),
            Err(e) => Err(e),
        }
    }
}

} // verus!
