//! The affine kernel: `mul * x + add` on every element.

use crate::backend::{rejects, WgpuBackend};
use crate::buffer::BufferHandle;
use crate::error::WgpuBackendError;
use crate::kernel::Shader;
use crate::params::ParameterBlock;
use vstd::prelude::*;

verus! {

/// Scale and offset as the bit patterns of two 32-bit floating-point numbers.
struct AffineParams {
    mul: u32,
    add: u32,
}

impl ParameterBlock for AffineParams {
    closed spec fn words(&self) -> Seq<u32> {
        seq![self.mul, self.add]
    }

    fn to_words(&self) -> (words: Vec<u32>) {
        let mut words: Vec<u32> = Vec::new();
        words.push(self.mul);
        words.push(self.add);
        assert(words@ =~= self.words());
        words
    }
}

impl WgpuBackend {
    /// Records the affine kernel from `input_buffer_id` to
    /// `output_buffer_id`. `mul` and `add` are the bit patterns of the scale
    /// and the offset as 32-bit floating-point numbers.
    pub fn affine(
        &mut self,
        input_buffer_id: BufferHandle,
        output_buffer_id: BufferHandle,
        mul: u32,
        add: u32,
    ) -> (r: Result<(), WgpuBackendError>)
        ensures
            rejects(r, old(self).first_unknown(seq![input_buffer_id].push(output_buffer_id))),
            old(self).dispatched(
                final(self),
                Shader::Affine,
                "affine"@,
                seq![input_buffer_id],
                output_buffer_id,
                seq![mul, add],
            ),
    {
        let params = AffineParams { mul, add };
        match self.run_shader_with_input(
            Shader::Affine,
            "affine",
            input_buffer_id,
            output_buffer_id,
            &params,
        ) {
            Ok(_) => Ok(()),
            Err(e) => Err(e),
        }
    }
}

} // verus!
