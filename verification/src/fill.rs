//! The kernels that fill a buffer with ones or zeroes.

use crate::backend::{rejects, WgpuBackend};
use crate::buffer::BufferHandle;
use crate::error::WgpuBackendError;
use crate::kernel::Shader;
use crate::params::ParameterBlock;
use vstd::prelude::*;

verus! {

/// The fill kernels read no parameter; the block holds one unused field.
struct FillParams {
    dummy: u32,
}

impl ParameterBlock for FillParams {
    closed spec fn words(&self) -> Seq<u32> {
        seq![self.dummy]
    }

    fn to_words(&self) -> (words: Vec<u32>) {
        let mut words: Vec<u32> = Vec::new();
        words.push(self.dummy);
        assert(words@ =~= self.words());
        words
    }
}

impl WgpuBackend {
    /// Records the kernel that sets every element of `buffer` to
    /// the 32-bit floating-point one.
    pub fn fill_ones(&mut self, buffer: BufferHandle) -> (r: Result<(), WgpuBackendError>)
        ensures
            rejects(r, old(self).first_unknown(Seq::<BufferHandle>::empty().push(buffer))),
            old(self).dispatched(
                final(self),
                Shader::Fill,
                "ones"@,
                Seq::empty(),
                buffer,
                seq![0u32],
            ),
    {
        let params = FillParams { dummy: 0 };
        match self.run_shader(Shader::Fill, "ones", buffer, &params) {
            Ok(_) => Ok(()),
            Err(e) => Err(e),
        }
    }

    /// Records the kernel that sets every element of `buffer` to
    /// the 32-bit floating-point zero.
    pub fn fill_zeroes(&mut self, buffer: BufferHandle) -> (r: Result<(), WgpuBackendError>)
        ensures
            rejects(r, old(self).first_unknown(Seq::<BufferHandle>::empty().push(buffer))),
            old(self).dispatched(
                final(self),
                Shader::Fill,
                "zeroes"@,
                Seq::empty(),
                buffer,
                seq![0u32],
            ),
    {
        let params = FillParams { dummy: 0 };
        match self.run_shader(Shader::Fill, "zeroes", buffer, &params) {
            Ok(_) => Ok(()),
            Err(e) => Err(e),
        }
    }

    /// Records the kernel that sets every element of `buffer` to
    /// the 8-bit one.
    pub fn fill_ones_u8(&mut self, buffer: BufferHandle) -> (r: Result<(), WgpuBackendError>)
        ensures
            rejects(r, old(self).first_unknown(Seq::<BufferHandle>::empty().push(buffer))),
            old(self).dispatched(
                final(self),
                Shader::FillU8,
                "ones"@,
                Seq::empty(),
                buffer,
                seq![0u32],
            ),
    {
        let params = FillParams { dummy: 0 };
        match self.run_shader(Shader::FillU8, "ones", buffer, &params) {
            Ok(_) => Ok(()),
            Err(e) => Err(e),
        }
    }

    /// Records the kernel that sets every element of `buffer` to
    /// the 8-bit zero.
    pub fn fill_zeroes_u8(&mut self, buffer: BufferHandle) -> (r: Result<(), WgpuBackendError>)
        ensures
            rejects(r, old(self).first_unknown(Seq::<BufferHandle>::empty().push(buffer))),
            old(self).dispatched(
                final(self),
                Shader::FillU8,
                "zeroes"@,
                Seq::empty(),
                buffer,
                seq![0u32],
            ),
    {
        let params = FillParams { dummy: 0 };
        match self.run_shader(Shader::FillU8, "zeroes", buffer, &params) {
            Ok(_) => Ok(()),
            Err(e) => Err(e),
        }
    }

    /// Records the kernel that sets every element of `buffer` to
    /// the 32-bit unsigned one.
    pub fn fill_ones_u32(&mut self, buffer: BufferHandle) -> (r: Result<(), WgpuBackendError>)
        ensures
            rejects(r, old(self).first_unknown(Seq::<BufferHandle>::empty().push(buffer))),
            old(self).dispatched(
                final(self),
                Shader::FillU32,
                "ones"@,
                Seq::empty(),
                buffer,
                seq![0u32],
            ),
    {
        let params = FillParams { dummy: 0 };
        match self.run_shader(Shader::FillU32, "ones", buffer, &params) {
            Ok(_) => Ok(()),
            Err(e) => Err(e),
        }
    }

    /// Records the kernel that sets every element of `buffer` to
    /// the 32-bit unsigned zero.
    pub fn fill_zeroes_u32(&mut self, buffer: BufferHandle) -> (r: Result<(), WgpuBackendError>)
        ensures
            rejects(r, old(self).first_unknown(Seq::<BufferHandle>::empty().push(buffer))),
            old(self).dispatched(
                final(self),
                Shader::FillU32,
                "zeroes"@,
                Seq::empty(),
                buffer,
                seq![0u32],
            ),
    {
        let params = FillParams { dummy: 0 };
        match self.run_shader(Shader::FillU32, "zeroes", buffer, &params) {
            Ok(_) => Ok(()),
            Err(e) => Err(e),
        }
    }
}

} // verus!
