//! The kernel that fills a buffer with uniformly distributed numbers.

use crate::backend::{rejects, WgpuBackend};
use crate::buffer::BufferHandle;
use crate::error::WgpuBackendError;
use crate::kernel::Shader;
use crate::params::ParameterBlock;
use vstd::prelude::*;

verus! {

/// Seed and range of a uniform fill. `min` and `max` are the bit patterns of
/// the 32-bit floating-point bounds.
#[derive(Debug, Clone, Copy, PartialEq, Eq, Structural)]
pub struct RandUniformParams {
    pub seed: u32,
    pub min: u32,
    pub max: u32,
}

impl ParameterBlock for RandUniformParams {
    open spec fn words(&self) -> Seq<u32> {
        seq![self.seed, self.min, self.max]
    }

    fn to_words(&self) -> (words: Vec<u32>) {
        let mut words: Vec<u32> = Vec::new();
        words.push(self.seed);
        words.push(self.min);
        words.push(self.max);
        assert(words@ =~= self.words());
        words
    }
}

impl WgpuBackend {
    /// Records the kernel that fills `output_buffer_id` with numbers drawn
    /// uniformly from the range of `params`.
    pub fn rand_uniform(&mut self, output_buffer_id: BufferHandle, params: &RandUniformParams) -> (r:
        Result<(), WgpuBackendError>)
        ensures
            rejects(r, old(self).first_unknown(Seq::<BufferHandle>::empty().push(output_buffer_id))),
            old(self).dispatched(
                final(self),
                Shader::Random,
                "rand_uniform"@,
                Seq::empty(),
                output_buffer_id,
                params.words(),
            ),
    {
        match self.run_shader(Shader::Random, "rand_uniform", output_buffer_id, params) {
            Ok(_) => Ok(()),
            Err(e) => Err(e),
        }
    }
}

} // verus!
