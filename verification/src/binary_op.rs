//! The elementwise kernels of two operands.

use crate::backend::{rejects, WgpuBackend};
use crate::buffer::BufferHandle;
use crate::error::WgpuBackendError;
use crate::kernel::Shader;
use crate::params::ParameterBlock;
use vstd::prelude::*;

verus! {

/// The binary kernels read no parameter; the block holds one unused field.
struct BinaryOpParams {
    dummy: u32,
}

impl ParameterBlock for BinaryOpParams {
    closed spec fn words(&self) -> Seq<u32> {
        seq![self.dummy]
    }

    fn to_words(&self) -> (words: Vec<u32>) {
        let mut words: Vec<u32> = Vec::new();
        words.push(self.dummy);
        assert(words@ =~= self.words());
        words
    }
}

impl WgpuBackend {
    /// Records the kernel that writes the larger of the two operands, element by element, of
    /// `lhs_buffer` and `rhs_buffer` to `output_buffer`.
    pub fn binary_max(
        &mut self,
        lhs_buffer: BufferHandle,
        rhs_buffer: BufferHandle,
        output_buffer: BufferHandle,
    ) -> (r: Result<(), WgpuBackendError>)
        ensures
            rejects(r, old(self).first_unknown(seq![lhs_buffer, rhs_buffer].push(output_buffer))),
            old(self).dispatched(
                final(self),
                Shader::BinaryOp,
                "max"@,
                seq![lhs_buffer, rhs_buffer],
                output_buffer,
                seq![0u32],
            ),
    {
        let params = BinaryOpParams { dummy: 0 };
        match self.run_shader_with_input_2(
            Shader::BinaryOp,
            "max",
            lhs_buffer,
            rhs_buffer,
            output_buffer,
            &params,
        ) {
            Ok(_) => Ok(()),
            Err(e) => Err(e),
        }
    }

    /// Records the kernel that writes the sum, element by element, of
    /// `lhs_buffer` and `rhs_buffer` to `output_buffer`.
    pub fn binary_add(
        &mut self,
        lhs_buffer: BufferHandle,
        rhs_buffer: BufferHandle,
        output_buffer: BufferHandle,
    ) -> (r: Result<(), WgpuBackendError>)
        ensures
            rejects(r, old(self).first_unknown(seq![lhs_buffer, rhs_buffer].push(output_buffer))),
            old(self).dispatched(
                final(self),
                Shader::BinaryOp,
                "add"@,
                seq![lhs_buffer, rhs_buffer],
                output_buffer,
                seq![0u32],
            ),
    {
        let params = BinaryOpParams { dummy: 0 };
        match self.run_shader_with_input_2(
            Shader::BinaryOp,
            "add",
            lhs_buffer,
            rhs_buffer,
            output_buffer,
            &params,
        ) {
            Ok(_) => Ok(()),
            Err(e) => Err(e),
        }
    }

    /// Records the kernel that writes the difference, element by element, of
    /// `lhs_buffer` and `rhs_buffer` to `output_buffer`.
    pub fn binary_sub(
        &mut self,
        lhs_buffer: BufferHandle,
        rhs_buffer: BufferHandle,
        output_buffer: BufferHandle,
    ) -> (r: Result<(), WgpuBackendError>)
        ensures
            rejects(r, old(self).first_unknown(seq![lhs_buffer, rhs_buffer].push(output_buffer))),
            old(self).dispatched(
                final(self),
                Shader::BinaryOp,
                "sub"@,
                seq![lhs_buffer, rhs_buffer],
                output_buffer,
                seq![0u32],
            ),
    {
        let params = BinaryOpParams { dummy: 0 };
        match self.run_shader_with_input_2(
            Shader::BinaryOp,
            "sub",
            lhs_buffer,
            rhs_buffer,
            output_buffer,
            &params,
        ) {
            Ok(_) => Ok(()),
            Err(e) => Err(e),
        }
    }

    /// Records the kernel that writes the product, element by element, of
    /// `lhs_buffer` and `rhs_buffer` to `output_buffer`.
    pub fn binary_mul(
        &mut self,
        lhs_buffer: BufferHandle,
        rhs_buffer: BufferHandle,
        output_buffer: BufferHandle,
    ) -> (r: Result<(), WgpuBackendError>)
        ensures
            rejects(r, old(self).first_unknown(seq![lhs_buffer, rhs_buffer].push(output_buffer))),
            old(self).dispatched(
                final(self),
                Shader::BinaryOp,
                "mul"@,
                seq![lhs_buffer, rhs_buffer],
                output_buffer,
                seq![0u32],
            ),
    {
        let params = BinaryOpParams { dummy: 0 };
        match self.run_shader_with_input_2(
            Shader::BinaryOp,
            "mul",
            lhs_buffer,
            rhs_buffer,
            output_buffer,
            &params,
        ) {
            Ok(_) => Ok(()),
            Err(e) => Err(e),
        }
    }

    /// Records the kernel that writes the quotient, element by element, of
    /// `lhs_buffer` and `rhs_buffer` to `output_buffer`.
    pub fn binary_div(
        &mut self,
        lhs_buffer: BufferHandle,
        rhs_buffer: BufferHandle,
        output_buffer: BufferHandle,
    ) -> (r: Result<(), WgpuBackendError>)
        ensures
            rejects(r, old(self).first_unknown(seq![lhs_buffer, rhs_buffer].push(output_buffer))),
            old(self).dispatched(
                final(self),
                Shader::BinaryOp,
                "div"@,
                seq![lhs_buffer, rhs_buffer],
                output_buffer,
                seq![0u32],
            ),
    {
        let params = BinaryOpParams { dummy: 0 };
        match self.run_shader_with_input_2(
            Shader::BinaryOp,
            "div",
            lhs_buffer,
            rhs_buffer,
            output_buffer,
            &params,
        ) {
            Ok(_) => Ok(()),
            Err(e) => Err(e),
        }
    }
}

} // verus!
