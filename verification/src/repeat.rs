//! The repeat kernel.

use crate::backend::{rejects, WgpuBackend};
use crate::buffer::BufferHandle;
use crate::error::WgpuBackendError;
use crate::kernel::Shader;
use crate::params::ParameterBlock;
use vstd::prelude::*;

verus! {

/// Length of one batch of the input and of one batch of the output.
struct RepeatParams {
    batch_size: u32,
    out_batch_size: u32,
}

impl ParameterBlock for RepeatParams {
    closed spec fn words(&self) -> Seq<u32> {
        seq![self.batch_size, self.out_batch_size]
    }

    fn to_words(&self) -> (words: Vec<u32>) {
        let mut words: Vec<u32> = Vec::new();
        words.push(self.batch_size);
        words.push(self.out_batch_size);
        assert(words@ =~= self.words());
        words
    }
}

impl WgpuBackend {
    /// Records the kernel that repeats each batch of `batch_size` elements
    /// until it fills `out_batch_size` elements of the output.
    pub fn repeat(
        &mut self,
        input_buffer: BufferHandle,
        output_buffer: BufferHandle,
        batch_size: u32,
        out_batch_size: u32,
    ) -> (r: Result<(), WgpuBackendError>)
        ensures
            rejects(r, old(self).first_unknown(seq![input_buffer].push(output_buffer))),
            old(self).dispatched(
                final(self),
                Shader::Repeat,
                "repeat"@,
                seq![input_buffer],
                output_buffer,
                seq![batch_size, out_batch_size],
            ),
    {
        let params = RepeatParams { batch_size, out_batch_size };
        match self.run_shader_with_input(
            Shader::Repeat,
            "repeat",
            input_buffer,
            output_buffer,
            &params,
        ) {
            Ok(_) => Ok(()),
            Err(e) => Err(e),
        }
    }
}

} // verus!
