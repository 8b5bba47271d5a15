//! The convolution kernel.

use crate::backend::{
    allocation_ops, dispatch_ops, lemma_all_known, rejects, uniform_at, WgpuBackend,
};
use crate::buffer::{BufferHandle, BufferRecord};
use crate::bytes::is_native_image;
use crate::error::WgpuBackendError;
use crate::kernel::Shader;
use crate::params::ParameterBlock;
use vstd::prelude::*;

verus! {

/// Geometry of a two-dimensional convolution, in the field order the kernel
/// reads it.
#[derive(Debug, Clone, Copy, PartialEq, Eq, Structural)]
pub struct WgpuConvParams {
    pub batch_size: u32,
    pub channels_in: u32,
    pub input_w: u32,
    pub input_h: u32,
    pub channels_out: u32,
    pub kernel_w: u32,
    pub kernel_h: u32,
    pub padding_x: u32,
    pub padding_y: u32,
    pub stride: u32,
    pub dilation: u32,
}

impl ParameterBlock for WgpuConvParams {
    open spec fn words(&self) -> Seq<u32> {
        seq![
            self.batch_size,
            self.channels_in,
            self.input_w,
            self.input_h,
            self.channels_out,
            self.kernel_w,
            self.kernel_h,
            self.padding_x,
            self.padding_y,
            self.stride,
            self.dilation,
        ]
    }

    fn to_words(&self) -> (words: Vec<u32>) {
        let mut words: Vec<u32> = Vec::new();
        words.push(self.batch_size);
        words.push(self.channels_in);
        words.push(self.input_w);
        words.push(self.input_h);
        words.push(self.channels_out);
        words.push(self.kernel_w);
        words.push(self.kernel_h);
        words.push(self.padding_x);
        words.push(self.padding_y);
        words.push(self.stride);
        words.push(self.dilation);
        assert(words@ =~= self.words());
        words
    }
}

impl Default for WgpuConvParams {
    /// One batch of one channel of a single element, a one by one kernel, no
    /// padding, stride and dilation of one.
    fn default() -> (params: WgpuConvParams)
        ensures
            params == WgpuConvParams::identity(),
    {
        WgpuConvParams {
            batch_size: 1,
            input_w: 1,
            input_h: 1,
            channels_in: 1,
            channels_out: 1,
            kernel_w: 1,
            kernel_h: 1,
            padding_x: 0,
            padding_y: 0,
            stride: 1,
            dilation: 1,
        }
    }
}

/// Extent of the output along one axis: the padded input, less what the
/// dilated kernel covers beyond its first element. The stride does not enter:
/// the output buffer is sized for a stride of one, which is enough for any
/// stride of one or more.
pub open spec fn out_extent(input: u32, kernel: u32, padding: u32, dilation: u32) -> int {
    input + 2 * padding - (kernel - 1) * dilation
}

impl WgpuConvParams {
    /// The parameters that `default` returns.
    pub open spec fn identity() -> WgpuConvParams {
        WgpuConvParams {
            batch_size: 1,
            channels_in: 1,
            input_w: 1,
            input_h: 1,
            channels_out: 1,
            kernel_w: 1,
            kernel_h: 1,
            padding_x: 0,
            padding_y: 0,
            stride: 1,
            dilation: 1,
        }
    }

    /// Width of the output.
    pub open spec fn out_w(&self) -> int {
        out_extent(self.input_w, self.kernel_w, self.padding_x, self.dilation)
    }

    /// Height of the output.
    pub open spec fn out_h(&self) -> int {
        out_extent(self.input_h, self.kernel_h, self.padding_y, self.dilation)
    }

    /// Size of the output in bytes: four bytes for each element of each
    /// output channel of each batch.
    pub open spec fn output_bytes(&self) -> int {
        self.batch_size * self.channels_out * self.out_h() * self.out_w() * 4
    }

    /// The geometry describes an output buffer: the kernel has an extent, it
    /// fits in the padded input, and the output's size fits in 64 bits.
    pub open spec fn geometry_ok(&self) -> bool {
        &&& self.kernel_w >= 1
        &&& self.kernel_h >= 1
        &&& self.out_w() >= 0
        &&& self.out_h() >= 0
        &&& self.output_bytes() <= u64::MAX
    }

    /// Size of the output in bytes, if the geometry describes an output.
    pub fn output_size(&self) -> (r: Option<u64>)
        ensures
            r == if self.geometry_ok() {
                Some(self.output_bytes() as u64)
            } else {
                None
            },
    {
        let out_w: u64 = match axis_extent(
            self.input_w,
            self.kernel_w,
            self.padding_x,
            self.dilation,
        ) {
            Some(extent) => extent,
            None => {
                return None;
            },
        };
        let out_h: u64 = match axis_extent(
            self.input_h,
            self.kernel_h,
            self.padding_y,
            self.dilation,
        ) {
            Some(extent) => extent,
            None => {
                return None;
            },
        };
        let batch: u64 = self.batch_size as u64;
        let channels: u64 = self.channels_out as u64;
        assert(batch * channels <= 0xffff_ffff * 0xffff_ffff) by (nonlinear_arith)
            requires
                batch <= 0xffff_ffff,
                channels <= 0xffff_ffff,
        ;
        let planes: u64 = batch * channels;
        if planes == 0 || out_h == 0 || out_w == 0 {
            assert(self.output_bytes() == 0) by (nonlinear_arith)
                requires
                    planes == self.batch_size * self.channels_out,
                    planes == 0 || self.out_h() == 0 || self.out_w() == 0,
                    self.output_bytes() == self.batch_size * self.channels_out * self.out_h()
                        * self.out_w() * 4,
            ;
            return Some(0);
        }
        let rows: u64 = match planes.checked_mul(out_h) {
            Some(rows) => rows,
            None => {
                assert(self.output_bytes() > u64::MAX) by (nonlinear_arith)
                    requires
                        planes * out_h > u64::MAX,
                        out_w >= 1,
                        self.output_bytes() == planes * out_h * out_w * 4,
                ;
                return None;
            },
        };
        let elements: u64 = match rows.checked_mul(out_w) {
            Some(elements) => elements,
            None => {
                assert(self.output_bytes() > u64::MAX) by (nonlinear_arith)
                    requires
                        rows * out_w > u64::MAX,
                        self.output_bytes() == rows * out_w * 4,
                ;
                return None;
            },
        };
        elements.checked_mul(4)
    }
}

/// Extent of the output along one axis, if the kernel has an extent and fits
/// in the padded input.
fn axis_extent(input: u32, kernel: u32, padding: u32, dilation: u32) -> (r: Option<u64>)
    ensures
        r == if kernel >= 1 && out_extent(input, kernel, padding, dilation) >= 0 {
            Some(out_extent(input, kernel, padding, dilation) as u64)
        } else {
            None
        },
        r matches Some(extent) ==> extent <= 0x3_0000_0000,
{
    if kernel == 0 {
        return None;
    }
    let reach: u64 = (kernel - 1) as u64;
    let step: u64 = dilation as u64;
    assert(reach * step <= 0xffff_ffff * 0xffff_ffff) by (nonlinear_arith)
        requires
            reach <= 0xffff_ffff,
            step <= 0xffff_ffff,
    ;
    let span: u64 = reach * step;
    let padded: u64 = input as u64 + 2 * (padding as u64);
    if span > padded {
        None
    } else {
        Some(padded - span)
    }
}

impl WgpuBackend {
    /// What a convolution leaves behind, from `self` to `after`.
    ///
    /// With a geometry that describes no output, or an input or a kernel
    /// that this context did not issue, nothing changes. Otherwise a new
    /// output buffer of the geometry's size is registered, and the
    /// allocation and the kernel run are recorded.
    pub open spec fn convolved(
        &self,
        after: &WgpuBackend,
        input: BufferHandle,
        kernel: BufferHandle,
        params: WgpuConvParams,
    ) -> bool {
        if !params.geometry_ok() || self.first_unknown(seq![input, kernel]) is Some {
            *after == *self
        } else {
            let output = self.next_handle();
            let size = params.output_bytes() as u64;
            let uniform = uniform_at(after.recorded(), self.recorded().len() as int + 1);
            &&& is_native_image(uniform, params.words())
            &&& after.allocates_after(
                self,
                BufferRecord { size },
                allocation_ops(output, size) + dispatch_ops(
                    Shader::Conv,
                    "conv2d"@,
                    seq![input, kernel],
                    output,
                    uniform,
                ),
            )
        }
    }

    /// Records a two-dimensional convolution of `input` with `kernel` into a
    /// new output buffer, and returns the output's handle.
    ///
    /// A geometry that describes no output is an error; so is, after that, an
    /// input or a kernel that this context did not issue.
    pub fn conv2d(&mut self, input: BufferHandle, kernel: BufferHandle, params: &WgpuConvParams) -> (r:
        Result<BufferHandle, WgpuBackendError>)
        ensures
            old(self).convolved(final(self), input, kernel, *params),
            if !params.geometry_ok() {
                r matches Err(WgpuBackendError::InvalidGeometry)
            } else if old(self).first_unknown(seq![input, kernel]) is Some {
                rejects(r, old(self).first_unknown(seq![input, kernel]))
            } else {
                r matches Ok(handle) && handle == old(self).next_handle()
            },
    {
        reveal_with_fuel(WgpuBackend::first_unknown, 3);
        let ghost operands = seq![input, kernel];
        assert(operands.drop_first() =~= seq![kernel]);
        assert(operands.drop_first().drop_first() =~= Seq::<BufferHandle>::empty());
        let size: u64 = match params.output_size() {
            Some(size) => size,
            None => {
                return Err(WgpuBackendError::InvalidGeometry);
            },
        };
        if self.lookup(input).is_none() {
            return Err(WgpuBackendError::InvalidBuffer(input));
        }
        if self.lookup(kernel).is_none() {
            return Err(WgpuBackendError::InvalidBuffer(kernel));
        }
        let output = match self.create_buffer(size) {
            Ok(output) => output,
            Err(e) => {
                return Err(e);
            },
        };
        let ghost allocated = *self;
        proof {
            let handles = seq![input, kernel].push(output);
            assert forall|i: int| 0 <= i < handles.len() implies allocated.owns(
                #[trigger] handles[i],
            ) by {}
            lemma_all_known(&allocated, handles);
        }
        let r = self.run_shader_with_input_2(Shader::Conv, "conv2d", input, kernel, output, params);
        proof {
            let uniform = uniform_at(self.recorded(), allocated.recorded().len() as int);
            assert(self.recorded() =~= old(self).recorded() + (allocation_ops(output, size)
                + dispatch_ops(Shader::Conv, "conv2d"@, seq![input, kernel], output, uniform)));
        }
        r
    }
}

} // verus!
