//! The elementwise kernels of one operand.

use crate::backend::{rejects, WgpuBackend};
use crate::buffer::BufferHandle;
use crate::error::WgpuBackendError;
use crate::kernel::Shader;
use crate::params::ParameterBlock;
use vstd::prelude::*;

verus! {

/// The unary kernels read no parameter; the block holds one unused field.
struct UnaryOpParams {
    dummy: u32,
}

impl ParameterBlock for UnaryOpParams {
    closed spec fn words(&self) -> Seq<u32> {
        seq![self.dummy]
    }

    fn to_words(&self) -> (words: Vec<u32>) {
        let mut words: Vec<u32> = Vec::new();
        words.push(self.dummy);
        assert(words@ =~= self.words());
        words
    }
}

impl WgpuBackend {
    /// Records the kernel that writes the square root of every element of
    /// `operand` to `output`.
    pub fn sqrt(&mut self, operand: BufferHandle, output: BufferHandle) -> (r: Result<
        (),
        WgpuBackendError,
    >)
        ensures
            rejects(r, old(self).first_unknown(seq![operand].push(output))),
            old(self).dispatched(
                final(self),
                Shader::UnaryOp,
                "sqrt"@,
                seq![operand],
                output,
                seq![0u32],
            ),
    {
        let params = UnaryOpParams { dummy: 0 };
        match self.run_shader_with_input(Shader::UnaryOp, "sqrt", operand, output, &params) {
            Ok(_) => Ok(()),
            Err(e) => Err(e),
        }
    }

    /// Records the kernel that writes the negation of every element of
    /// `operand` to `output`.
    pub fn neg(&mut self, operand: BufferHandle, output: BufferHandle) -> (r: Result<
        (),
        WgpuBackendError,
    >)
        ensures
            rejects(r, old(self).first_unknown(seq![operand].push(output))),
            old(self).dispatched(
                final(self),
                Shader::UnaryOp,
                "neg"@,
                seq![operand],
                output,
                seq![0u32],
            ),
    {
        let params = UnaryOpParams { dummy: 0 };
        match self.run_shader_with_input(Shader::UnaryOp, "neg", operand, output, &params) {
            Ok(_) => Ok(()),
            Err(e) => Err(e),
        }
    }

    /// Records the kernel that writes the exponential of every element of
    /// `operand` to `output`.
    pub fn exp(&mut self, operand: BufferHandle, output: BufferHandle) -> (r: Result<
        (),
        WgpuBackendError,
    >)
        ensures
            rejects(r, old(self).first_unknown(seq![operand].push(output))),
            old(self).dispatched(
                final(self),
                Shader::UnaryOp,
                "exp"@,
                seq![operand],
                output,
                seq![0u32],
            ),
    {
        let params = UnaryOpParams { dummy: 0 };
        match self.run_shader_with_input(Shader::UnaryOp, "exp", operand, output, &params) {
            Ok(_) => Ok(()),
            Err(e) => Err(e),
        }
    }

    /// Records the kernel that writes the reciprocal of every element of
    /// `operand` to `output`.
    pub fn recip(&mut self, operand: BufferHandle, output: BufferHandle) -> (r: Result<
        (),
        WgpuBackendError,
    >)
        ensures
            rejects(r, old(self).first_unknown(seq![operand].push(output))),
            old(self).dispatched(
                final(self),
                Shader::UnaryOp,
                "recip"@,
                seq![operand],
                output,
                seq![0u32],
            ),
    {
        let params = UnaryOpParams { dummy: 0 };
        match self.run_shader_with_input(Shader::UnaryOp, "recip", operand, output, &params) {
            Ok(_) => Ok(()),
            Err(e) => Err(e),
        }
    }
}

} // verus!
