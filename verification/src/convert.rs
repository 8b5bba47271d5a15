//! The kernels that widen integer elements to 32-bit floating point.

use crate::backend::{rejects, WgpuBackend};
use crate::buffer::BufferHandle;
use crate::error::WgpuBackendError;
use crate::kernel::Shader;
use crate::params::ParameterBlock;
use vstd::prelude::*;

verus! {

/// The conversion kernels read no parameter; the block holds one unused field.
struct ConvertParams {
    dummy: u32,
}

impl ParameterBlock for ConvertParams {
    closed spec fn words(&self) -> Seq<u32> {
        seq![self.dummy]
    }

    fn to_words(&self) -> (words: Vec<u32>) {
        let mut words: Vec<u32> = Vec::new();
        words.push(self.dummy);
        assert(words@ =~= self.words());
        words
    }
}

impl WgpuBackend {
    /// Records the kernel that converts the 8-bit unsigned elements of
    /// `input_buffer_id` to 32-bit floating point in `output_buffer`.
    pub fn convert_u8_to_f32(&mut self, input_buffer_id: BufferHandle, output_buffer: BufferHandle) -> (r:
        Result<(), WgpuBackendError>)
        ensures
            rejects(r, old(self).first_unknown(seq![input_buffer_id].push(output_buffer))),
            old(self).dispatched(
                final(self),
                Shader::ConvertU8ToF32,
                "convert"@,
                seq![input_buffer_id],
                output_buffer,
                seq![0u32],
            ),
    {
        let params = ConvertParams { dummy: 0 };
        match self.run_shader_with_input(
            Shader::ConvertU8ToF32,
            "convert",
            input_buffer_id,
            output_buffer,
            &params,
        ) {
            Ok(_) => Ok(()),
            Err(e) => Err(e),
        }
    }

    /// Records the kernel that converts the 32-bit unsigned elements of
    /// `input_buffer_id` to 32-bit floating point in `output_buffer`.
    pub fn convert_u32_to_f32(&mut self, input_buffer_id: BufferHandle, output_buffer: BufferHandle) -> (r:
        Result<(), WgpuBackendError>)
        ensures
            rejects(r, old(self).first_unknown(seq![input_buffer_id].push(output_buffer))),
            old(self).dispatched(
                final(self),
                Shader::ConvertU32ToF32,
                "convert"@,
                seq![input_buffer_id],
                output_buffer,
                seq![0u32],
            ),
    {
        let params = ConvertParams { dummy: 0 };
        match self.run_shader_with_input(
            Shader::ConvertU32ToF32,
            "convert",
            input_buffer_id,
            output_buffer,
            &params,
        ) {
            Ok(_) => Ok(()),
            Err(e) => Err(e),
        }
    }
}

} // verus!
