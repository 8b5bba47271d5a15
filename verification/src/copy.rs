//! The strided copy kernel.

use crate::backend::{rejects, WgpuBackend};
use crate::buffer::BufferHandle;
use crate::error::WgpuBackendError;
use crate::kernel::Shader;
use crate::params::ParameterBlock;
use vstd::prelude::*;

verus! {

/// Extent of the input and the step between the elements that are copied.
struct CopyParams {
    input_w: u32,
    input_h: u32,
    stride_x: u32,
    stride_y: u32,
}

impl ParameterBlock for CopyParams {
    closed spec fn words(&self) -> Seq<u32> {
        seq![self.input_w, self.input_h, self.stride_x, self.stride_y]
    }

    fn to_words(&self) -> (words: Vec<u32>) {
        let mut words: Vec<u32> = Vec::new();
        words.push(self.input_w);
        words.push(self.input_h);
        words.push(self.stride_x);
        words.push(self.stride_y);
        assert(words@ =~= self.words());
        words
    }
}

impl WgpuBackend {
    /// Records the kernel that copies every `stride_x`-th element of every
    /// `stride_y`-th row of an `input_w` by `input_h` input to the output.
    pub fn copy(
        &mut self,
        input_buffer_id: BufferHandle,
        output_buffer_id: BufferHandle,
        input_w: u32,
        input_h: u32,
        stride_x: u32,
        stride_y: u32,
    ) -> (r: Result<(), WgpuBackendError>)
        ensures
            rejects(r, old(self).first_unknown(seq![input_buffer_id].push(output_buffer_id))),
            old(self).dispatched(
                final(self),
                Shader::Copy,
                "copy"@,
                seq![input_buffer_id],
                output_buffer_id,
                seq![input_w, input_h, stride_x, stride_y],
            ),
    {
        let params = CopyParams { input_w, input_h, stride_x, stride_y };
        match self.run_shader_with_input(
            Shader::Copy,
            "copy",
            input_buffer_id,
            output_buffer_id,
            &params,
        ) {
            Ok(_) => Ok(()),
            Err(e) => Err(e),
        }
    }
}

} // verus!
