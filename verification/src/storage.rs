//! The operation router: what the tensor layer calls.
//!
//! Each operation first checks that the element types are ones its kernel is
//! written for, then sizes and allocates the output, and then records the
//! kernel run. An operation that fails leaves the device as it was.

use crate::backend::{
    allocation_ops, dispatch_ops, lemma_all_known, lemma_first_unknown, lemma_first_unknown_at,
    read_ops, rejects, startup_ops, uniform_at, upload_ops, DeviceGrant, WgpuBackend,
};
use crate::buffer::{BufferHandle, BufferRecord};
use crate::bytes::is_native_image;
use crate::conv::WgpuConvParams;
use crate::dtype::DType;
use crate::error::WgpuBackendError;
use crate::kernel::Shader;
use crate::layout::{byte_size, product, Layout};
use vstd::prelude::*;
use vstd::std_specs::convert::FromSpecImpl;
use vstd::string::StringExecFns;

verus! {

/// Why an operation of the router failed.
#[derive(Debug, PartialEq, Eq)]
pub enum WgpuError {
    /// A failure described by its text alone.
    Message(String),
    /// The buffer store or the dispatch engine failed.
    WgpuBackendError(WgpuBackendError),
    /// The backend has no kernel for this operation on this element type.
    UnsupportedOperation { name: String, dtype: String },
}

impl From<String> for WgpuError {
    fn from(e: String) -> (error: WgpuError) {
        WgpuError::Message(e)
    }
}

impl FromSpecImpl<String> for WgpuError {
    open spec fn obeys_from_spec() -> bool {
        true
    }

    open spec fn from_spec(e: String) -> WgpuError {
        WgpuError::Message(e)
    }
}

impl From<WgpuBackendError> for WgpuError {
    fn from(e: WgpuBackendError) -> (error: WgpuError) {
        WgpuError::WgpuBackendError(e)
    }
}

impl FromSpecImpl<WgpuBackendError> for WgpuError {
    open spec fn obeys_from_spec() -> bool {
        true
    }

    open spec fn from_spec(e: WgpuBackendError) -> WgpuError {
        WgpuError::WgpuBackendError(e)
    }
}

/// `r` is the error that names operation `name` and element type `dtype`.
pub open spec fn is_unsupported<T>(r: Result<T, WgpuError>, name: Seq<char>, dtype: DType) -> bool {
    r matches Err(WgpuError::UnsupportedOperation { name: n, dtype: d }) && n@ == name && d@
        == dtype.name()
}

/// `r` is the error of a shape that describes no buffer.
pub open spec fn is_invalid_geometry<T>(r: Result<T, WgpuError>) -> bool {
    r matches Err(WgpuError::WgpuBackendError(WgpuBackendError::InvalidGeometry))
}

/// `r` fails with `unknown` as an invalid buffer if there is one, and
/// succeeds if there is none.
pub open spec fn rejects_buffer<T>(r: Result<T, WgpuError>, unknown: Option<BufferHandle>) -> bool {
    match unknown {
        Some(handle) => r matches Err(
            WgpuError::WgpuBackendError(WgpuBackendError::InvalidBuffer(h)),
        ) && h == handle,
        None => r is Ok,
    }
}

/// Where a device is.
#[derive(Debug, Clone, Copy, PartialEq, Eq, Structural)]
pub enum DeviceLocation {
    Wgpu { gpu_id: usize },
}

/// A tensor's data on the device: the buffer that holds it and the type of
/// its elements.
#[derive(Debug, Clone, Copy, PartialEq, Eq, Structural)]
pub struct WgpuStorage {
    pub id: BufferHandle,
    pub dtype: DType,
}

/// A device as the tensor layer sees it.
#[derive(Debug)]
pub struct WgpuDevice {
    pub backend: WgpuBackend,
}

/// One kernel run into a new output buffer, as an operation asks for it.
pub struct KernelCall {
    pub shader: Shader,
    pub entry_point: Seq<char>,
    /// The input buffers, in binding order.
    pub inputs: Seq<BufferHandle>,
    /// The parameter block.
    pub words: Seq<u32>,
    /// Size of the output in bytes.
    pub bytes: int,
    /// Element type of the output.
    pub dtype: DType,
}

/// The kernel that fills buffers of `dtype`, if there is one.
pub open spec fn fill_kernel(dtype: DType) -> Option<Shader> {
    match dtype {
        DType::F32 => Some(Shader::Fill),
        DType::U8 => Some(Shader::FillU8),
        DType::U32 => Some(Shader::FillU32),
        _ => None,
    }
}

fn unsupported(name: &str, dtype: DType) -> (e: WgpuError)
    ensures
        is_unsupported(Err::<(), WgpuError>(e), name@, dtype),
{
    WgpuError::UnsupportedOperation {
        name: String::from_str(name),
        dtype: String::from_str(dtype.as_str()),
    }
}

impl WgpuDevice {
    /// What an operation that runs `call` leaves behind, from `self` to
    /// `after`, and what it returns.
    ///
    /// An output too large to be sized is an error, and so is, after that,
    /// an input that the device did not issue; then nothing changes.
    /// Otherwise a new output buffer of `call.bytes` bytes is registered, the
    /// allocation and the kernel run are recorded, and the result is the
    /// output as storage of `call.dtype`.
    pub open spec fn routed(
        &self,
        after: &WgpuDevice,
        r: Result<WgpuStorage, WgpuError>,
        call: KernelCall,
    ) -> bool {
        if call.bytes > u64::MAX {
            is_invalid_geometry(r) && *after == *self
        } else if self.backend.first_unknown(call.inputs) is Some {
            rejects_buffer(r, self.backend.first_unknown(call.inputs)) && *after == *self
        } else {
            let output = self.backend.next_handle();
            let size = call.bytes as u64;
            let uniform = uniform_at(
                after.backend.recorded(),
                self.backend.recorded().len() as int + 1,
            );
            &&& r matches Ok(storage) && storage == (WgpuStorage { id: output, dtype: call.dtype })
            &&& is_native_image(uniform, call.words)
            &&& after.backend.allocates_after(
                &self.backend,
                BufferRecord { size },
                allocation_ops(output, size) + dispatch_ops(
                    call.shader,
                    call.entry_point,
                    call.inputs,
                    output,
                    uniform,
                ),
            )
        }
    }

    /// Builds the device from the platform's answer.
    pub fn new(grant: DeviceGrant) -> (r: Result<WgpuDevice, WgpuError>)
        ensures
            match grant {
                DeviceGrant::NoAdapter => r matches Err(
                    WgpuError::WgpuBackendError(WgpuBackendError::InitializationError),
                ),
                DeviceGrant::Rejected(detail) => r matches Err(
                    WgpuError::WgpuBackendError(WgpuBackendError::RequestDeviceError(text)),
                ) && text@ == detail@,
                DeviceGrant::Granted { gpu_id } => r matches Ok(device) && device.backend.gpu()
                    == gpu_id && device.backend.registry() == Seq::<BufferRecord>::empty()
                    && device.backend.recorded() == startup_ops(),
            },
    {
        match WgpuBackend::new(grant) {
            Ok(backend) => Ok(WgpuDevice { backend }),
            Err(e) => Err(WgpuError::WgpuBackendError(e)),
        }
    }

    /// Where the device is.
    pub fn location(&self) -> (location: DeviceLocation)
        ensures
            location == (DeviceLocation::Wgpu { gpu_id: self.backend.gpu() }),
    {
        DeviceLocation::Wgpu { gpu_id: self.backend.get_gpu_id() }
    }

    /// Whether `self` and `rhs` wrap the same device.
    pub fn same_device(&self, rhs: &WgpuDevice) -> (same: bool)
        ensures
            same == (self.backend.gpu() == rhs.backend.gpu()),
    {
        self.backend.get_gpu_id() == rhs.backend.get_gpu_id()
    }

    fn allocate_output(&mut self, inputs: &Vec<BufferHandle>, bytes: Option<u64>) -> (r: Result<
        BufferHandle,
        WgpuError,
    >)
        ensures
            match r {
                Ok(output) => {
                    &&& bytes is Some
                    &&& old(self).backend.first_unknown(inputs@) is None
                    &&& output == old(self).backend.next_handle()
                    &&& final(self).backend.allocates_after(
                        &old(self).backend,
                        BufferRecord { size: bytes->0 },
                        allocation_ops(output, bytes->0),
                    )
                },
                Err(_) => {
                    &&& *final(self) == *old(self)
                    &&& if bytes is None {
                        is_invalid_geometry(r)
                    } else {
                        &&& old(self).backend.first_unknown(inputs@) is Some
                        &&& rejects_buffer(r, old(self).backend.first_unknown(inputs@))
                    }
                },
            },
    {
        let size: u64 = match bytes {
            Some(size) => size,
            None => {
                return Err(WgpuError::WgpuBackendError(WgpuBackendError::InvalidGeometry));
            },
        };
        let ghost before = *self;
        let mut i: usize = 0;
        while i < inputs.len()
            invariant
                *self == before,
                before == *old(self),
                bytes is Some,
                i <= inputs@.len(),
                forall|k: int| 0 <= k < i ==> before.backend.owns(#[trigger] inputs@[k]),
            decreases inputs@.len() - i,
        {
            if self.backend.lookup(inputs[i]).is_none() {
                proof {
                    lemma_first_unknown_at(&before.backend, inputs@, i as int);
                }
                return Err(
                    WgpuError::WgpuBackendError(WgpuBackendError::InvalidBuffer(inputs[i])),
                );
            }
            i = i + 1;
        }
        proof {
            lemma_all_known(&before.backend, inputs@);
        }
        match self.backend.create_buffer(size) {
            Ok(output) => Ok(output),
            Err(e) => Err(WgpuError::WgpuBackendError(e)),
        }
    }
}

/// An operation that sized and allocated its output and then ran its kernel
/// on known inputs has done what `routed` asks.
proof fn lemma_routed(
    before: &WgpuDevice,
    allocated: &WgpuDevice,
    after: &WgpuDevice,
    r0: Result<(), WgpuBackendError>,
    call: KernelCall,
)
    requires
        0 <= call.bytes <= u64::MAX,
        before.backend.first_unknown(call.inputs) is None,
        allocated.backend.allocates_after(
            &before.backend,
            BufferRecord { size: call.bytes as u64 },
            allocation_ops(before.backend.next_handle(), call.bytes as u64),
        ),
        rejects(
            r0,
            allocated.backend.first_unknown(call.inputs.push(before.backend.next_handle())),
        ),
        allocated.backend.dispatched(
            &after.backend,
            call.shader,
            call.entry_point,
            call.inputs,
            before.backend.next_handle(),
            call.words,
        ),
    ensures
        r0 is Ok,
        before.routed(
            after,
            Ok(WgpuStorage { id: before.backend.next_handle(), dtype: call.dtype }),
            call,
        ),
{
    let output = before.backend.next_handle();
    let handles = call.inputs.push(output);
    lemma_first_unknown(&before.backend, call.inputs);
    assert forall|i: int| 0 <= i < handles.len() implies allocated.backend.owns(
        #[trigger] handles[i],
    ) by {
        if i < call.inputs.len() {
            assert(before.backend.owns(call.inputs[i]));
        }
    }
    lemma_all_known(&allocated.backend, handles);
    let size = call.bytes as u64;
    let uniform = uniform_at(after.backend.recorded(), allocated.backend.recorded().len() as int);
    assert(after.backend.recorded() =~= before.backend.recorded() + (allocation_ops(output, size)
        + dispatch_ops(call.shader, call.entry_point, call.inputs, output, uniform)));
}

impl WgpuDevice {
    /// Allocates storage of `shape` elements of `dtype` and records the
    /// kernel that sets every element to zero. There is such a kernel for
    /// 32-bit floating point and for 8-bit and 32-bit unsigned integers.
    pub fn zeros_impl(&mut self, shape: &Vec<usize>, dtype: DType) -> (r: Result<
        WgpuStorage,
        WgpuError,
    >)
        ensures
            match fill_kernel(dtype) {
                None => is_unsupported(r, "zeroes"@, dtype) && *final(self) == *old(self),
                Some(shader) => old(self).routed(
                    final(self),
                    r,
                    KernelCall {
                        shader,
                        entry_point: "zeroes"@,
                        inputs: Seq::empty(),
                        words: seq![0u32],
                        bytes: product(shape@) * dtype.width(),
                        dtype,
                    },
                ),
            },
    {
        match dtype {
            DType::F32 | DType::U8 | DType::U32 => {},
            _ => {
                return Err(unsupported("zeroes", dtype));
            },
        }
        let ghost before = *self;
        let ghost call = KernelCall {
            shader: fill_kernel(dtype)->0,
            entry_point: "zeroes"@,
            inputs: Seq::empty(),
            words: seq![0u32],
            bytes: product(shape@) * dtype.width(),
            dtype,
        };
        let inputs: Vec<BufferHandle> = Vec::new();
        assert(inputs@ =~= call.inputs);
        let output = match self.allocate_output(&inputs, byte_size(shape, dtype.size_in_bytes())) {
            Ok(output) => output,
            Err(e) => {
                return Err(e);
            },
        };
        let ghost allocated = *self;
        let r0 = match dtype {
            DType::F32 => self.backend.fill_zeroes(output),
            DType::U8 => self.backend.fill_zeroes_u8(output),
            _ => self.backend.fill_zeroes_u32(output),
        };
        proof {
            lemma_routed(&before, &allocated, &*self, r0, call);
        }
        match r0 {
            Ok(()) => Ok(WgpuStorage { id: output, dtype }),
            Err(e) => Err(WgpuError::WgpuBackendError(e)),
        }
    }

    /// Allocates storage of `shape` elements of `dtype` and records the
    /// kernel that sets every element to one. There is such a kernel for
    /// 32-bit floating point and for 8-bit and 32-bit unsigned integers.
    pub fn ones_impl(&mut self, shape: &Vec<usize>, dtype: DType) -> (r: Result<
        WgpuStorage,
        WgpuError,
    >)
        ensures
            match fill_kernel(dtype) {
                None => is_unsupported(r, "ones"@, dtype) && *final(self) == *old(self),
                Some(shader) => old(self).routed(
                    final(self),
                    r,
                    KernelCall {
                        shader,
                        entry_point: "ones"@,
                        inputs: Seq::empty(),
                        words: seq![0u32],
                        bytes: product(shape@) * dtype.width(),
                        dtype,
                    },
                ),
            },
    {
        match dtype {
            DType::F32 | DType::U8 | DType::U32 => {},
            _ => {
                return Err(unsupported("ones", dtype));
            },
        }
        let ghost before = *self;
        let ghost call = KernelCall {
            shader: fill_kernel(dtype)->0,
            entry_point: "ones"@,
            inputs: Seq::empty(),
            words: seq![0u32],
            bytes: product(shape@) * dtype.width(),
            dtype,
        };
        let inputs: Vec<BufferHandle> = Vec::new();
        assert(inputs@ =~= call.inputs);
        let output = match self.allocate_output(&inputs, byte_size(shape, dtype.size_in_bytes())) {
            Ok(output) => output,
            Err(e) => {
                return Err(e);
            },
        };
        let ghost allocated = *self;
        let r0 = match dtype {
            DType::F32 => self.backend.fill_ones(output),
            DType::U8 => self.backend.fill_ones_u8(output),
            _ => self.backend.fill_ones_u32(output),
        };
        proof {
            lemma_routed(&before, &allocated, &*self, r0, call);
        }
        match r0 {
            Ok(()) => Ok(WgpuStorage { id: output, dtype }),
            Err(e) => Err(WgpuError::WgpuBackendError(e)),
        }
    }

    /// Records the upload of host data: `bytes` are the elements of type
    /// `dtype` as they lie in host memory. Bytes that are not a whole number
    /// of elements are refused.
    pub fn storage_from_cpu_storage(&mut self, bytes: &[u8], dtype: DType) -> (r: Result<
        WgpuStorage,
        WgpuError,
    >)
        ensures
            if bytes@.len() % dtype.width() != 0 {
                is_invalid_geometry(r) && *final(self) == *old(self)
            } else {
                &&& r matches Ok(storage) && storage == (WgpuStorage {
                    id: old(self).backend.next_handle(),
                    dtype,
                })
                &&& final(self).backend.allocates_after(
                    &old(self).backend,
                    BufferRecord { size: bytes@.len() as u64 },
                    upload_ops(old(self).backend.next_handle(), bytes@),
                )
            },
    {
        if bytes.len() % dtype.size_in_bytes() != 0 {
            return Err(WgpuError::WgpuBackendError(WgpuBackendError::InvalidGeometry));
        }
        match self.backend.create_buffer_with_data(bytes) {
            Ok(id) => Ok(WgpuStorage { id, dtype }),
            Err(e) => Err(WgpuError::WgpuBackendError(e)),
        }
    }
}

impl WgpuStorage {
    /// Storage of `dtype` elements in buffer `id`.
    pub fn new(id: BufferHandle, dtype: DType) -> (storage: WgpuStorage)
        ensures
            storage == (WgpuStorage { id, dtype }),
    {
        WgpuStorage { id, dtype }
    }

    /// The type of the elements.
    pub fn dtype(&self) -> (dtype: DType)
        ensures
            dtype == self.dtype,
    {
        self.dtype
    }

    /// Where the device that holds the data is.
    pub fn device(&self) -> (location: DeviceLocation)
        ensures
            location == (DeviceLocation::Wgpu { gpu_id: self.id.gpu_id }),
    {
        DeviceLocation::Wgpu { gpu_id: self.id.gpu_id }
    }

    /// Records the read-back of the storage's buffer and returns its size in
    /// bytes. Storage that `device` did not issue is an error, and then
    /// nothing is recorded.
    pub fn to_cpu_storage(&self, device: &mut WgpuDevice) -> (r: Result<u64, WgpuError>)
        ensures
            match r {
                Ok(size) => {
                    &&& old(device).backend.owns(self.id)
                    &&& size == old(device).backend.registry()[self.id.index as int].size
                    &&& final(device).backend.records_after(
                        &old(device).backend,
                        read_ops(self.id, size),
                    )
                },
                Err(_) => {
                    &&& !old(device).backend.owns(self.id)
                    &&& rejects_buffer(r, Some(self.id))
                    &&& *final(device) == *old(device)
                },
            },
    {
        match device.backend.read_buf(self.id) {
            Ok(size) => Ok(size),
            Err(e) => Err(WgpuError::WgpuBackendError(e)),
        }
    }

    /// Records `mul * x + add` on every element into new storage. `mul` and
    /// `add` are the bit patterns of the scale and the offset as 32-bit
    /// floating-point numbers. The kernel is written for 32-bit floating
    /// point only.
    pub fn affine(&self, device: &mut WgpuDevice, layout: &Layout, mul: u32, add: u32) -> (r:
        Result<WgpuStorage, WgpuError>)
        ensures
            if self.dtype != DType::F32 {
                is_unsupported(r, "affine"@, self.dtype) && *final(device) == *old(device)
            } else {
                old(device).routed(
                    final(device),
                    r,
                    KernelCall {
                        shader: Shader::Affine,
                        entry_point: "affine"@,
                        inputs: seq![self.id],
                        words: seq![mul, add],
                        bytes: layout.elem_count() * 4,
                        dtype: DType::F32,
                    },
                )
            },
    {
        match self.dtype {
            DType::F32 => {},
            _ => {
                return Err(unsupported("affine", self.dtype));
            },
        }
        let ghost before = *device;
        let ghost call = KernelCall {
            shader: Shader::Affine,
            entry_point: "affine"@,
            inputs: seq![self.id],
            words: seq![mul, add],
            bytes: layout.elem_count() * 4,
            dtype: DType::F32,
        };
        let mut inputs: Vec<BufferHandle> = Vec::new();
        inputs.push(self.id);
        assert(inputs@ =~= call.inputs);
        let output = match device.allocate_output(&inputs, byte_size(layout.dims(), 4)) {
            Ok(output) => output,
            Err(e) => {
                return Err(e);
            },
        };
        let ghost allocated = *device;
        let r0 = device.backend.affine(self.id, output, mul, add);
        proof {
            lemma_routed(&before, &allocated, &*device, r0, call);
        }
        match r0 {
            Ok(()) => Ok(WgpuStorage { id: output, dtype: DType::F32 }),
            Err(e) => Err(WgpuError::WgpuBackendError(e)),
        }
    }
}

/// Trusted: `==` of `str`, which holds exactly when the two texts hold the
/// same characters.
#[verifier::external_body]
fn same_text(a: &str, b: &str) -> (same: bool)
    ensures
        same == (a@ == b@),
{
    a == b
}

/// The kernel that converts elements of `from` to elements of `to`, if there
/// is one. Only widenings of unsigned integers to 32-bit floating point have
/// one.
pub open spec fn conversion_kernel(from: DType, to: DType) -> Option<Shader> {
    match (from, to) {
        (DType::U8, DType::F32) => Some(Shader::ConvertU8ToF32),
        (DType::U32, DType::F32) => Some(Shader::ConvertU32ToF32),
        _ => None,
    }
}

/// The strided copy kernel moves 32-bit elements without looking at them:
/// it serves source and destination of one 32-bit element type.
pub open spec fn copyable(source: DType, destination: DType) -> bool {
    source == destination && (source == DType::F32 || source == DType::U32)
}

/// `v` can be a field of a parameter block.
pub open spec fn fits_u32(v: usize) -> bool {
    v <= u32::MAX
}

fn to_u32(v: usize) -> (r: Option<u32>)
    ensures
        r == if fits_u32(v) {
            Some(v as u32)
        } else {
            None
        },
{
    if v > 0xffff_ffff {
        None
    } else {
        Some(v as u32)
    }
}

/// The geometry of a one-dimensional convolution as the kernel reads it: a
/// two-dimensional convolution of height one. The input is batch, channels,
/// length; the kernel is output channels, input channels, length. Padding in
/// the unused direction is zero and dilation is one.
pub open spec fn conv1d_params(
    shape: Seq<usize>,
    kernel_shape: Seq<usize>,
    stride: usize,
    padding: usize,
) -> Option<WgpuConvParams> {
    if shape.len() >= 3 && kernel_shape.len() >= 3 && fits_u32(shape[0]) && fits_u32(shape[1])
        && fits_u32(shape[2]) && fits_u32(kernel_shape[0]) && fits_u32(kernel_shape[2])
        && fits_u32(stride) && fits_u32(padding) {
        Some(
            WgpuConvParams {
                batch_size: shape[0] as u32,
                channels_in: shape[1] as u32,
                input_w: shape[2] as u32,
                input_h: 1,
                channels_out: kernel_shape[0] as u32,
                kernel_w: kernel_shape[2] as u32,
                kernel_h: 1,
                padding_x: padding as u32,
                padding_y: 0,
                stride: stride as u32,
                dilation: 1,
            },
        )
    } else {
        None
    }
}

/// The geometry of a two-dimensional convolution as the kernel reads it. The
/// third axis of input and kernel is taken as the width and the fourth as the
/// height; the padding is applied along the width only, and dilation is one.
pub open spec fn conv2d_params(
    shape: Seq<usize>,
    kernel_shape: Seq<usize>,
    stride: usize,
    padding: usize,
) -> Option<WgpuConvParams> {
    if shape.len() >= 4 && kernel_shape.len() >= 4 && fits_u32(shape[0]) && fits_u32(shape[1])
        && fits_u32(shape[2]) && fits_u32(shape[3]) && fits_u32(kernel_shape[0]) && fits_u32(
        kernel_shape[2],
    ) && fits_u32(kernel_shape[3]) && fits_u32(stride) && fits_u32(padding) {
        Some(
            WgpuConvParams {
                batch_size: shape[0] as u32,
                channels_in: shape[1] as u32,
                input_w: shape[2] as u32,
                input_h: shape[3] as u32,
                channels_out: kernel_shape[0] as u32,
                kernel_w: kernel_shape[2] as u32,
                kernel_h: kernel_shape[3] as u32,
                padding_x: padding as u32,
                padding_y: 0,
                stride: stride as u32,
                dilation: 1,
            },
        )
    } else {
        None
    }
}

/// The parameter block of an upsampling of a batch, channels, width, height
/// input to `out_w` by `out_h`.
pub open spec fn upsample_words(shape: Seq<usize>, out_w: usize, out_h: usize) -> Option<Seq<u32>> {
    if shape.len() >= 4 && fits_u32(shape[0]) && fits_u32(shape[1]) && fits_u32(shape[2])
        && fits_u32(shape[3]) && fits_u32(out_w) && fits_u32(out_h) {
        Some(
            seq![
                shape[0] as u32,
                shape[1] as u32,
                shape[2] as u32,
                shape[3] as u32,
                out_w as u32,
                out_h as u32,
            ],
        )
    } else {
        None
    }
}

/// The parameter block of a strided copy: the extent of the first axis as
/// the width, the same extent as the height if there is a second axis and
/// zero if not, the stride of the first axis, and the stride of the second
/// axis or zero.
pub open spec fn copy_words(shape: Seq<usize>, stride: Seq<usize>) -> Option<Seq<u32>> {
    if shape.len() >= 1 && stride.len() >= 1 && fits_u32(shape[0]) && fits_u32(stride[0]) && (
    stride.len() > 1 ==> fits_u32(stride[1])) {
        Some(
            seq![
                shape[0] as u32,
                if shape.len() > 1 {
                    shape[0] as u32
                } else {
                    0
                },
                stride[0] as u32,
                if stride.len() > 1 {
                    stride[1] as u32
                } else {
                    0
                },
            ],
        )
    } else {
        None
    }
}

fn make_conv1d_params(
    shape: &Vec<usize>,
    kernel_shape: &Vec<usize>,
    stride: usize,
    padding: usize,
) -> (r: Option<WgpuConvParams>)
    ensures
        r == conv1d_params(shape@, kernel_shape@, stride, padding),
{
    if shape.len() < 3 || kernel_shape.len() < 3 {
        return None;
    }
    let batch_size = to_u32(shape[0])?;
    let channels_in = to_u32(shape[1])?;
    let input_w = to_u32(shape[2])?;
    let channels_out = to_u32(kernel_shape[0])?;
    let kernel_w = to_u32(kernel_shape[2])?;
    let stride = to_u32(stride)?;
    let padding_x = to_u32(padding)?;
    Some(
        WgpuConvParams {
            batch_size,
            channels_in,
            input_w,
            input_h: 1,
            channels_out,
            kernel_w,
            kernel_h: 1,
            padding_x,
            padding_y: 0,
            stride,
            dilation: 1,
        },
    )
}

fn make_conv2d_params(
    shape: &Vec<usize>,
    kernel_shape: &Vec<usize>,
    stride: usize,
    padding: usize,
) -> (r: Option<WgpuConvParams>)
    ensures
        r == conv2d_params(shape@, kernel_shape@, stride, padding),
{
    if shape.len() < 4 || kernel_shape.len() < 4 {
        return None;
    }
    let batch_size = to_u32(shape[0])?;
    let channels_in = to_u32(shape[1])?;
    let input_w = to_u32(shape[2])?;
    let input_h = to_u32(shape[3])?;
    let channels_out = to_u32(kernel_shape[0])?;
    let kernel_w = to_u32(kernel_shape[2])?;
    let kernel_h = to_u32(kernel_shape[3])?;
    let stride = to_u32(stride)?;
    let padding_x = to_u32(padding)?;
    Some(
        WgpuConvParams {
            batch_size,
            channels_in,
            input_w,
            input_h,
            channels_out,
            kernel_w,
            kernel_h,
            padding_x,
            padding_y: 0,
            stride,
            dilation: 1,
        },
    )
}

/// Four axes hold the product of their extents.
proof fn lemma_product_of_four(a: usize, b: usize, c: usize, d: usize)
    ensures
        product(seq![a, b, c, d]) == a * b * c * d,
{
    let s4 = seq![a, b, c, d];
    let s3 = seq![a, b, c];
    let s2 = seq![a, b];
    let s1 = seq![a];
    assert(s4.drop_last() =~= s3);
    assert(s3.drop_last() =~= s2);
    assert(s2.drop_last() =~= s1);
    assert(s1.drop_last() =~= Seq::<usize>::empty());
    assert(product(Seq::<usize>::empty()) == 1);
    assert(product(s1) == 1 * a);
    assert(product(s2) == product(s1) * b);
    assert(product(s3) == product(s2) * c);
    assert(product(s4) == product(s3) * d);
}

impl WgpuDevice {
    /// What a convolution leaves behind, from `self` to `after`, and what it
    /// returns. Shapes that give no geometry are an error; with a geometry
    /// the convolution does what the dispatch engine's `convolved` says, and
    /// the result is the new output as storage of `dtype`.
    pub open spec fn conv_routed(
        &self,
        after: &WgpuDevice,
        r: Result<WgpuStorage, WgpuError>,
        input: BufferHandle,
        kernel: BufferHandle,
        params: Option<WgpuConvParams>,
        dtype: DType,
    ) -> bool {
        match params {
            None => is_invalid_geometry(r) && *after == *self,
            Some(p) => {
                &&& self.backend.convolved(&after.backend, input, kernel, p)
                &&& if !p.geometry_ok() {
                    is_invalid_geometry(r)
                } else if self.backend.first_unknown(seq![input, kernel]) is Some {
                    rejects_buffer(r, self.backend.first_unknown(seq![input, kernel]))
                } else {
                    r matches Ok(storage) && storage == (WgpuStorage {
                        id: self.backend.next_handle(),
                        dtype,
                    })
                }
            },
        }
    }
}

impl WgpuStorage {
    /// What an elementwise operation of one operand leaves behind and
    /// returns. The kernels are written for 32-bit floating point only.
    pub open spec fn unary_routed(
        &self,
        before: &WgpuDevice,
        after: &WgpuDevice,
        r: Result<WgpuStorage, WgpuError>,
        entry_point: Seq<char>,
        layout: &Layout,
    ) -> bool {
        if self.dtype != DType::F32 {
            is_unsupported(r, entry_point, self.dtype) && *after == *before
        } else {
            before.routed(
                after,
                r,
                KernelCall {
                    shader: Shader::UnaryOp,
                    entry_point,
                    inputs: seq![self.id],
                    words: seq![0u32],
                    bytes: layout.elem_count() * 4,
                    dtype: DType::F32,
                },
            )
        }
    }

    /// What an elementwise operation of two operands leaves behind and
    /// returns. The kernels are written for 32-bit floating point only; the
    /// error names the left operand's type if that is another, else the
    /// right operand's. The output has as many elements as the left operand.
    pub open spec fn binary_routed(
        &self,
        rhs: &WgpuStorage,
        before: &WgpuDevice,
        after: &WgpuDevice,
        r: Result<WgpuStorage, WgpuError>,
        name: Seq<char>,
        entry_point: Seq<char>,
        lhs_l: &Layout,
    ) -> bool {
        if self.dtype != DType::F32 {
            is_unsupported(r, name, self.dtype) && *after == *before
        } else if rhs.dtype != DType::F32 {
            is_unsupported(r, name, rhs.dtype) && *after == *before
        } else {
            before.routed(
                after,
                r,
                KernelCall {
                    shader: Shader::BinaryOp,
                    entry_point,
                    inputs: seq![self.id, rhs.id],
                    words: seq![0u32],
                    bytes: lhs_l.elem_count() * 4,
                    dtype: DType::F32,
                },
            )
        }
    }

    /// Records the square root of every element into new storage.
    pub fn unary_sqrt(&self, device: &mut WgpuDevice, layout: &Layout) -> (r: Result<
        WgpuStorage,
        WgpuError,
    >)
        ensures
            self.unary_routed(old(device), final(device), r, "sqrt"@, layout),
    {
        match self.dtype {
            DType::F32 => {},
            _ => {
                return Err(unsupported("sqrt", self.dtype));
            },
        }
        let ghost before = *device;
        let ghost call = KernelCall {
            shader: Shader::UnaryOp,
            entry_point: "sqrt"@,
            inputs: seq![self.id],
            words: seq![0u32],
            bytes: layout.elem_count() * 4,
            dtype: DType::F32,
        };
        let mut inputs: Vec<BufferHandle> = Vec::new();
        inputs.push(self.id);
        assert(inputs@ =~= call.inputs);
        let output = match device.allocate_output(&inputs, byte_size(layout.dims(), 4)) {
            Ok(output) => output,
            Err(e) => {
                return Err(e);
            },
        };
        let ghost allocated = *device;
        let r0 = device.backend.sqrt(self.id, output);
        proof {
            lemma_routed(&before, &allocated, &*device, r0, call);
        }
        match r0 {
            Ok(()) => Ok(WgpuStorage { id: output, dtype: DType::F32 }),
            Err(e) => Err(WgpuError::WgpuBackendError(e)),
        }
    }

    /// Records the negation of every element into new storage.
    pub fn unary_neg(&self, device: &mut WgpuDevice, layout: &Layout) -> (r: Result<
        WgpuStorage,
        WgpuError,
    >)
        ensures
            self.unary_routed(old(device), final(device), r, "neg"@, layout),
    {
        match self.dtype {
            DType::F32 => {},
            _ => {
                return Err(unsupported("neg", self.dtype));
            },
        }
        let ghost before = *device;
        let ghost call = KernelCall {
            shader: Shader::UnaryOp,
            entry_point: "neg"@,
            inputs: seq![self.id],
            words: seq![0u32],
            bytes: layout.elem_count() * 4,
            dtype: DType::F32,
        };
        let mut inputs: Vec<BufferHandle> = Vec::new();
        inputs.push(self.id);
        assert(inputs@ =~= call.inputs);
        let output = match device.allocate_output(&inputs, byte_size(layout.dims(), 4)) {
            Ok(output) => output,
            Err(e) => {
                return Err(e);
            },
        };
        let ghost allocated = *device;
        let r0 = device.backend.neg(self.id, output);
        proof {
            lemma_routed(&before, &allocated, &*device, r0, call);
        }
        match r0 {
            Ok(()) => Ok(WgpuStorage { id: output, dtype: DType::F32 }),
            Err(e) => Err(WgpuError::WgpuBackendError(e)),
        }
    }

    /// Records the exponential of every element into new storage.
    pub fn unary_exp(&self, device: &mut WgpuDevice, layout: &Layout) -> (r: Result<
        WgpuStorage,
        WgpuError,
    >)
        ensures
            self.unary_routed(old(device), final(device), r, "exp"@, layout),
    {
        match self.dtype {
            DType::F32 => {},
            _ => {
                return Err(unsupported("exp", self.dtype));
            },
        }
        let ghost before = *device;
        let ghost call = KernelCall {
            shader: Shader::UnaryOp,
            entry_point: "exp"@,
            inputs: seq![self.id],
            words: seq![0u32],
            bytes: layout.elem_count() * 4,
            dtype: DType::F32,
        };
        let mut inputs: Vec<BufferHandle> = Vec::new();
        inputs.push(self.id);
        assert(inputs@ =~= call.inputs);
        let output = match device.allocate_output(&inputs, byte_size(layout.dims(), 4)) {
            Ok(output) => output,
            Err(e) => {
                return Err(e);
            },
        };
        let ghost allocated = *device;
        let r0 = device.backend.exp(self.id, output);
        proof {
            lemma_routed(&before, &allocated, &*device, r0, call);
        }
        match r0 {
            Ok(()) => Ok(WgpuStorage { id: output, dtype: DType::F32 }),
            Err(e) => Err(WgpuError::WgpuBackendError(e)),
        }
    }

    /// Records the reciprocal of every element into new storage.
    pub fn unary_recip(&self, device: &mut WgpuDevice, layout: &Layout) -> (r: Result<
        WgpuStorage,
        WgpuError,
    >)
        ensures
            self.unary_routed(old(device), final(device), r, "recip"@, layout),
    {
        match self.dtype {
            DType::F32 => {},
            _ => {
                return Err(unsupported("recip", self.dtype));
            },
        }
        let ghost before = *device;
        let ghost call = KernelCall {
            shader: Shader::UnaryOp,
            entry_point: "recip"@,
            inputs: seq![self.id],
            words: seq![0u32],
            bytes: layout.elem_count() * 4,
            dtype: DType::F32,
        };
        let mut inputs: Vec<BufferHandle> = Vec::new();
        inputs.push(self.id);
        assert(inputs@ =~= call.inputs);
        let output = match device.allocate_output(&inputs, byte_size(layout.dims(), 4)) {
            Ok(output) => output,
            Err(e) => {
                return Err(e);
            },
        };
        let ghost allocated = *device;
        let r0 = device.backend.recip(self.id, output);
        proof {
            lemma_routed(&before, &allocated, &*device, r0, call);
        }
        match r0 {
            Ok(()) => Ok(WgpuStorage { id: output, dtype: DType::F32 }),
            Err(e) => Err(WgpuError::WgpuBackendError(e)),
        }
    }

    /// Records the sum of `self` and `rhs`, element by element, into new
    /// storage.
    pub fn binary_add(
        &self,
        device: &mut WgpuDevice,
        rhs: &WgpuStorage,
        lhs_l: &Layout,
        _rhs_l: &Layout,
    ) -> (r: Result<WgpuStorage, WgpuError>)
        ensures
            self.binary_routed(rhs, old(device), final(device), r, "add"@, "add"@, lhs_l),
    {
        match self.dtype {
            DType::F32 => {},
            _ => {
                return Err(unsupported("add", self.dtype));
            },
        }
        match rhs.dtype {
            DType::F32 => {},
            _ => {
                return Err(unsupported("add", rhs.dtype));
            },
        }
        let ghost before = *device;
        let ghost call = KernelCall {
            shader: Shader::BinaryOp,
            entry_point: "add"@,
            inputs: seq![self.id, rhs.id],
            words: seq![0u32],
            bytes: lhs_l.elem_count() * 4,
            dtype: DType::F32,
        };
        let mut inputs: Vec<BufferHandle> = Vec::new();
        inputs.push(self.id);
        inputs.push(rhs.id);
        assert(inputs@ =~= call.inputs);
        let output = match device.allocate_output(&inputs, byte_size(lhs_l.dims(), 4)) {
            Ok(output) => output,
            Err(e) => {
                return Err(e);
            },
        };
        let ghost allocated = *device;
        let r0 = device.backend.binary_add(self.id, rhs.id, output);
        proof {
            lemma_routed(&before, &allocated, &*device, r0, call);
        }
        match r0 {
            Ok(()) => Ok(WgpuStorage { id: output, dtype: DType::F32 }),
            Err(e) => Err(WgpuError::WgpuBackendError(e)),
        }
    }

    /// Records the difference of `self` and `rhs`, element by element, into new
    /// storage.
    pub fn binary_sub(
        &self,
        device: &mut WgpuDevice,
        rhs: &WgpuStorage,
        lhs_l: &Layout,
        _rhs_l: &Layout,
    ) -> (r: Result<WgpuStorage, WgpuError>)
        ensures
            self.binary_routed(rhs, old(device), final(device), r, "sub"@, "sub"@, lhs_l),
    {
        match self.dtype {
            DType::F32 => {},
            _ => {
                return Err(unsupported("sub", self.dtype));
            },
        }
        match rhs.dtype {
            DType::F32 => {},
            _ => {
                return Err(unsupported("sub", rhs.dtype));
            },
        }
        let ghost before = *device;
        let ghost call = KernelCall {
            shader: Shader::BinaryOp,
            entry_point: "sub"@,
            inputs: seq![self.id, rhs.id],
            words: seq![0u32],
            bytes: lhs_l.elem_count() * 4,
            dtype: DType::F32,
        };
        let mut inputs: Vec<BufferHandle> = Vec::new();
        inputs.push(self.id);
        inputs.push(rhs.id);
        assert(inputs@ =~= call.inputs);
        let output = match device.allocate_output(&inputs, byte_size(lhs_l.dims(), 4)) {
            Ok(output) => output,
            Err(e) => {
                return Err(e);
            },
        };
        let ghost allocated = *device;
        let r0 = device.backend.binary_sub(self.id, rhs.id, output);
        proof {
            lemma_routed(&before, &allocated, &*device, r0, call);
        }
        match r0 {
            Ok(()) => Ok(WgpuStorage { id: output, dtype: DType::F32 }),
            Err(e) => Err(WgpuError::WgpuBackendError(e)),
        }
    }

    /// Records the product of `self` and `rhs`, element by element, into new
    /// storage.
    pub fn binary_mul(
        &self,
        device: &mut WgpuDevice,
        rhs: &WgpuStorage,
        lhs_l: &Layout,
        _rhs_l: &Layout,
    ) -> (r: Result<WgpuStorage, WgpuError>)
        ensures
            self.binary_routed(rhs, old(device), final(device), r, "mul"@, "mul"@, lhs_l),
    {
        match self.dtype {
            DType::F32 => {},
            _ => {
                return Err(unsupported("mul", self.dtype));
            },
        }
        match rhs.dtype {
            DType::F32 => {},
            _ => {
                return Err(unsupported("mul", rhs.dtype));
            },
        }
        let ghost before = *device;
        let ghost call = KernelCall {
            shader: Shader::BinaryOp,
            entry_point: "mul"@,
            inputs: seq![self.id, rhs.id],
            words: seq![0u32],
            bytes: lhs_l.elem_count() * 4,
            dtype: DType::F32,
        };
        let mut inputs: Vec<BufferHandle> = Vec::new();
        inputs.push(self.id);
        inputs.push(rhs.id);
        assert(inputs@ =~= call.inputs);
        let output = match device.allocate_output(&inputs, byte_size(lhs_l.dims(), 4)) {
            Ok(output) => output,
            Err(e) => {
                return Err(e);
            },
        };
        let ghost allocated = *device;
        let r0 = device.backend.binary_mul(self.id, rhs.id, output);
        proof {
            lemma_routed(&before, &allocated, &*device, r0, call);
        }
        match r0 {
            Ok(()) => Ok(WgpuStorage { id: output, dtype: DType::F32 }),
            Err(e) => Err(WgpuError::WgpuBackendError(e)),
        }
    }

    /// Records the quotient of `self` and `rhs`, element by element, into new
    /// storage.
    pub fn binary_div(
        &self,
        device: &mut WgpuDevice,
        rhs: &WgpuStorage,
        lhs_l: &Layout,
        _rhs_l: &Layout,
    ) -> (r: Result<WgpuStorage, WgpuError>)
        ensures
            self.binary_routed(rhs, old(device), final(device), r, "div"@, "div"@, lhs_l),
    {
        match self.dtype {
            DType::F32 => {},
            _ => {
                return Err(unsupported("div", self.dtype));
            },
        }
        match rhs.dtype {
            DType::F32 => {},
            _ => {
                return Err(unsupported("div", rhs.dtype));
            },
        }
        let ghost before = *device;
        let ghost call = KernelCall {
            shader: Shader::BinaryOp,
            entry_point: "div"@,
            inputs: seq![self.id, rhs.id],
            words: seq![0u32],
            bytes: lhs_l.elem_count() * 4,
            dtype: DType::F32,
        };
        let mut inputs: Vec<BufferHandle> = Vec::new();
        inputs.push(self.id);
        inputs.push(rhs.id);
        assert(inputs@ =~= call.inputs);
        let output = match device.allocate_output(&inputs, byte_size(lhs_l.dims(), 4)) {
            Ok(output) => output,
            Err(e) => {
                return Err(e);
            },
        };
        let ghost allocated = *device;
        let r0 = device.backend.binary_div(self.id, rhs.id, output);
        proof {
            lemma_routed(&before, &allocated, &*device, r0, call);
        }
        match r0 {
            Ok(()) => Ok(WgpuStorage { id: output, dtype: DType::F32 }),
            Err(e) => Err(WgpuError::WgpuBackendError(e)),
        }
    }

    /// Records the larger of `self` and `rhs`, element by element, into new
    /// storage.
    pub fn binary_max(
        &self,
        device: &mut WgpuDevice,
        rhs: &WgpuStorage,
        lhs_l: &Layout,
        _rhs_l: &Layout,
    ) -> (r: Result<WgpuStorage, WgpuError>)
        ensures
            self.binary_routed(rhs, old(device), final(device), r, "maximum"@, "max"@, lhs_l),
    {
        match self.dtype {
            DType::F32 => {},
            _ => {
                return Err(unsupported("maximum", self.dtype));
            },
        }
        match rhs.dtype {
            DType::F32 => {},
            _ => {
                return Err(unsupported("maximum", rhs.dtype));
            },
        }
        let ghost before = *device;
        let ghost call = KernelCall {
            shader: Shader::BinaryOp,
            entry_point: "max"@,
            inputs: seq![self.id, rhs.id],
            words: seq![0u32],
            bytes: lhs_l.elem_count() * 4,
            dtype: DType::F32,
        };
        let mut inputs: Vec<BufferHandle> = Vec::new();
        inputs.push(self.id);
        inputs.push(rhs.id);
        assert(inputs@ =~= call.inputs);
        let output = match device.allocate_output(&inputs, byte_size(lhs_l.dims(), 4)) {
            Ok(output) => output,
            Err(e) => {
                return Err(e);
            },
        };
        let ghost allocated = *device;
        let r0 = device.backend.binary_max(self.id, rhs.id, output);
        proof {
            lemma_routed(&before, &allocated, &*device, r0, call);
        }
        match r0 {
            Ok(()) => Ok(WgpuStorage { id: output, dtype: DType::F32 }),
            Err(e) => Err(WgpuError::WgpuBackendError(e)),
        }
    }

    /// Routes an elementwise operation of one operand by its name. The
    /// backend has kernels for `sqrt`, `neg`, `exp` and `recip`; any other
    /// name is an unsupported operation.
    pub fn unary_impl(&self, device: &mut WgpuDevice, op: &str, layout: &Layout) -> (r: Result<
        WgpuStorage,
        WgpuError,
    >)
        ensures
            if op@ == "sqrt"@ || op@ == "neg"@ || op@ == "exp"@ || op@ == "recip"@ {
                self.unary_routed(old(device), final(device), r, op@, layout)
            } else {
                is_unsupported(r, op@, self.dtype) && *final(device) == *old(device)
            },
    {
        if same_text(op, "sqrt") {
            self.unary_sqrt(device, layout)
        } else if same_text(op, "neg") {
            self.unary_neg(device, layout)
        } else if same_text(op, "exp") {
            self.unary_exp(device, layout)
        } else if same_text(op, "recip") {
            self.unary_recip(device, layout)
        } else {
            Err(unsupported(op, self.dtype))
        }
    }

    /// Routes an elementwise operation of two operands by its name. The
    /// backend has kernels for `add`, `sub`, `mul`, `div` and `maximum`; any
    /// other name is an unsupported operation.
    pub fn binary_impl(
        &self,
        device: &mut WgpuDevice,
        op: &str,
        rhs: &WgpuStorage,
        lhs_l: &Layout,
        rhs_l: &Layout,
    ) -> (r: Result<WgpuStorage, WgpuError>)
        ensures
            if op@ == "add"@ || op@ == "sub"@ || op@ == "mul"@ || op@ == "div"@ {
                self.binary_routed(rhs, old(device), final(device), r, op@, op@, lhs_l)
            } else if op@ == "maximum"@ {
                self.binary_routed(rhs, old(device), final(device), r, op@, "max"@, lhs_l)
            } else {
                is_unsupported(r, op@, self.dtype) && *final(device) == *old(device)
            },
    {
        if same_text(op, "add") {
            self.binary_add(device, rhs, lhs_l, rhs_l)
        } else if same_text(op, "sub") {
            self.binary_sub(device, rhs, lhs_l, rhs_l)
        } else if same_text(op, "mul") {
            self.binary_mul(device, rhs, lhs_l, rhs_l)
        } else if same_text(op, "div") {
            self.binary_div(device, rhs, lhs_l, rhs_l)
        } else if same_text(op, "maximum") {
            self.binary_max(device, rhs, lhs_l, rhs_l)
        } else {
            Err(unsupported(op, self.dtype))
        }
    }

    /// Records the conversion of every element to `dtype` into new storage.
    /// Only 8-bit and 32-bit unsigned integers convert, and only to 32-bit
    /// floating point.
    pub fn to_dtype(&self, device: &mut WgpuDevice, layout: &Layout, dtype: DType) -> (r: Result<
        WgpuStorage,
        WgpuError,
    >)
        ensures
            match conversion_kernel(self.dtype, dtype) {
                None => is_unsupported(r, "to_dtype"@, self.dtype) && *final(device) == *old(
                    device,
                ),
                Some(shader) => old(device).routed(
                    final(device),
                    r,
                    KernelCall {
                        shader,
                        entry_point: "convert"@,
                        inputs: seq![self.id],
                        words: seq![0u32],
                        bytes: layout.elem_count() * 4,
                        dtype: DType::F32,
                    },
                ),
            },
    {
        let from_u8 = match (self.dtype, dtype) {
            (DType::U8, DType::F32) => true,
            (DType::U32, DType::F32) => false,
            _ => {
                return Err(unsupported("to_dtype", self.dtype));
            },
        };
        let ghost before = *device;
        let ghost call = KernelCall {
            shader: conversion_kernel(self.dtype, dtype)->0,
            entry_point: "convert"@,
            inputs: seq![self.id],
            words: seq![0u32],
            bytes: layout.elem_count() * 4,
            dtype: DType::F32,
        };
        let mut inputs: Vec<BufferHandle> = Vec::new();
        inputs.push(self.id);
        assert(inputs@ =~= call.inputs);
        let output = match device.allocate_output(&inputs, byte_size(layout.dims(), 4)) {
            Ok(output) => output,
            Err(e) => {
                return Err(e);
            },
        };
        let ghost allocated = *device;
        let r0 = if from_u8 {
            device.backend.convert_u8_to_f32(self.id, output)
        } else {
            device.backend.convert_u32_to_f32(self.id, output)
        };
        proof {
            lemma_routed(&before, &allocated, &*device, r0, call);
        }
        match r0 {
            Ok(()) => Ok(WgpuStorage { id: output, dtype: DType::F32 }),
            Err(e) => Err(WgpuError::WgpuBackendError(e)),
        }
    }

    /// Records the one-dimensional convolution of `self` with `kernel` into new
    /// storage. The kernel is written for 32-bit floating point only; the
    /// error names the input's type if that is another, else the kernel's.
    pub fn conv1d(
        &self,
        device: &mut WgpuDevice,
        layout: &Layout,
        kernel: &WgpuStorage,
        kernel_l: &Layout,
        stride: usize,
        padding: usize,
    ) -> (r: Result<WgpuStorage, WgpuError>)
        ensures
            if self.dtype != DType::F32 {
                is_unsupported(r, "conv1d"@, self.dtype) && *final(device) == *old(device)
            } else if kernel.dtype != DType::F32 {
                is_unsupported(r, "conv1d"@, kernel.dtype) && *final(device) == *old(device)
            } else {
                old(device).conv_routed(
                    final(device),
                    r,
                    self.id,
                    kernel.id,
                    conv1d_params(layout.shape@, kernel_l.shape@, stride, padding),
                    DType::F32,
                )
            },
    {
        match self.dtype {
            DType::F32 => {},
            _ => {
                return Err(unsupported("conv1d", self.dtype));
            },
        }
        match kernel.dtype {
            DType::F32 => {},
            _ => {
                return Err(unsupported("conv1d", kernel.dtype));
            },
        }
        let params = match make_conv1d_params(layout.dims(), kernel_l.dims(), stride, padding) {
            Some(params) => params,
            None => {
                return Err(WgpuError::WgpuBackendError(WgpuBackendError::InvalidGeometry));
            },
        };
        match device.backend.conv2d(self.id, kernel.id, &params) {
            Ok(id) => Ok(WgpuStorage { id, dtype: DType::F32 }),
            Err(e) => Err(WgpuError::WgpuBackendError(e)),
        }
    }

    /// Records the two-dimensional convolution of `self` with `kernel` into new
    /// storage. The kernel is written for 32-bit floating point only; the
    /// error names the input's type if that is another, else the kernel's.
    pub fn conv2d(
        &self,
        device: &mut WgpuDevice,
        layout: &Layout,
        kernel: &WgpuStorage,
        kernel_l: &Layout,
        stride: usize,
        padding: usize,
    ) -> (r: Result<WgpuStorage, WgpuError>)
        ensures
            if self.dtype != DType::F32 {
                is_unsupported(r, "conv2d"@, self.dtype) && *final(device) == *old(device)
            } else if kernel.dtype != DType::F32 {
                is_unsupported(r, "conv2d"@, kernel.dtype) && *final(device) == *old(device)
            } else {
                old(device).conv_routed(
                    final(device),
                    r,
                    self.id,
                    kernel.id,
                    conv2d_params(layout.shape@, kernel_l.shape@, stride, padding),
                    DType::F32,
                )
            },
    {
        match self.dtype {
            DType::F32 => {},
            _ => {
                return Err(unsupported("conv2d", self.dtype));
            },
        }
        match kernel.dtype {
            DType::F32 => {},
            _ => {
                return Err(unsupported("conv2d", kernel.dtype));
            },
        }
        let params = match make_conv2d_params(layout.dims(), kernel_l.dims(), stride, padding) {
            Some(params) => params,
            None => {
                return Err(WgpuError::WgpuBackendError(WgpuBackendError::InvalidGeometry));
            },
        };
        match device.backend.conv2d(self.id, kernel.id, &params) {
            Ok(id) => Ok(WgpuStorage { id, dtype: DType::F32 }),
            Err(e) => Err(WgpuError::WgpuBackendError(e)),
        }
    }

    /// Records the nearest-neighbour upsampling of every plane to `out_w` by
    /// `out_h` into new storage. The kernel is written for 32-bit floating
    /// point only.
    pub fn upsample_nearest2d(
        &self,
        device: &mut WgpuDevice,
        layout: &Layout,
        out_w: usize,
        out_h: usize,
    ) -> (r: Result<WgpuStorage, WgpuError>)
        ensures
            if self.dtype != DType::F32 {
                is_unsupported(r, "upsample_nearest2d"@, self.dtype) && *final(device) == *old(
                    device,
                )
            } else {
                match upsample_words(layout.shape@, out_w, out_h) {
                    None => is_invalid_geometry(r) && *final(device) == *old(device),
                    Some(words) => old(device).routed(
                        final(device),
                        r,
                        KernelCall {
                            shader: Shader::UpsampleNearest,
                            entry_point: "upsample_nearest"@,
                            inputs: seq![self.id],
                            words,
                            bytes: layout.shape@[0] * layout.shape@[1] * out_w * out_h * 4,
                            dtype: DType::F32,
                        },
                    ),
                }
            },
    {
        match self.dtype {
            DType::F32 => {},
            _ => {
                return Err(unsupported("upsample_nearest2d", self.dtype));
            },
        }
        let dims = layout.dims();
        if dims.len() < 4 {
            return Err(WgpuError::WgpuBackendError(WgpuBackendError::InvalidGeometry));
        }
        let fields = (
            to_u32(dims[0]),
            to_u32(dims[1]),
            to_u32(dims[2]),
            to_u32(dims[3]),
            to_u32(out_w),
            to_u32(out_h),
        );
        let (no_batches, no_channels, input_w, input_h, output_w, output_h) = match fields {
            (Some(b), Some(c), Some(w), Some(h), Some(ow), Some(oh)) => (b, c, w, h, ow, oh),
            _ => {
                return Err(WgpuError::WgpuBackendError(WgpuBackendError::InvalidGeometry));
            },
        };
        let ghost before = *device;
        let ghost call = KernelCall {
            shader: Shader::UpsampleNearest,
            entry_point: "upsample_nearest"@,
            inputs: seq![self.id],
            words: upsample_words(layout.shape@, out_w, out_h)->0,
            bytes: layout.shape@[0] * layout.shape@[1] * out_w * out_h * 4,
            dtype: DType::F32,
        };
        let mut extents: Vec<usize> = Vec::new();
        extents.push(dims[0]);
        extents.push(dims[1]);
        extents.push(out_w);
        extents.push(out_h);
        proof {
            assert(extents@ =~= seq![dims@[0], dims@[1], out_w, out_h]);
            lemma_product_of_four(dims@[0], dims@[1], out_w, out_h);
        }
        let mut inputs: Vec<BufferHandle> = Vec::new();
        inputs.push(self.id);
        assert(inputs@ =~= call.inputs);
        let output = match device.allocate_output(&inputs, byte_size(&extents, 4)) {
            Ok(output) => output,
            Err(e) => {
                return Err(e);
            },
        };
        let ghost allocated = *device;
        let r0 = device.backend.upsample_nearest(
            no_batches,
            no_channels,
            input_w,
            input_h,
            output_w,
            output_h,
            self.id,
            output,
        );
        proof {
            lemma_routed(&before, &allocated, &*device, r0, call);
        }
        match r0 {
            Ok(()) => Ok(WgpuStorage { id: output, dtype: DType::F32 }),
            Err(e) => Err(WgpuError::WgpuBackendError(e)),
        }
    }

    /// Records the strided copy of `self` into `dst`, which must exist
    /// already. Source and destination hold the same 32-bit element type.
    /// Nothing is allocated.
    pub fn copy_strided_src(
        &self,
        device: &mut WgpuDevice,
        dst: &WgpuStorage,
        _dst_offset: usize,
        layout: &Layout,
    ) -> (r: Result<(), WgpuError>)
        ensures
            if !copyable(self.dtype, dst.dtype) {
                is_unsupported(r, "copy_strided_src"@, self.dtype) && *final(device) == *old(
                    device,
                )
            } else {
                match copy_words(layout.shape@, layout.stride@) {
                    None => is_invalid_geometry(r) && *final(device) == *old(device),
                    Some(words) => {
                        &&& rejects_buffer(
                            r,
                            old(device).backend.first_unknown(seq![self.id].push(dst.id)),
                        )
                        &&& old(device).backend.dispatched(
                            &final(device).backend,
                            Shader::Copy,
                            "copy"@,
                            seq![self.id],
                            dst.id,
                            words,
                        )
                    },
                }
            },
    {
        match (self.dtype, dst.dtype) {
            (DType::F32, DType::F32) | (DType::U32, DType::U32) => {},
            _ => {
                return Err(unsupported("copy_strided_src", self.dtype));
            },
        }
        let dims = layout.dims();
        let stride = layout.stride();
        if dims.len() < 1 || stride.len() < 1 {
            return Err(WgpuError::WgpuBackendError(WgpuBackendError::InvalidGeometry));
        }
        let second: Option<u32> = if stride.len() > 1 {
            to_u32(stride[1])
        } else {
            Some(0)
        };
        let (input_w, stride_x, stride_y) = match (to_u32(dims[0]), to_u32(stride[0]), second) {
            (Some(w), Some(x), Some(y)) => (w, x, y),
            _ => {
                return Err(WgpuError::WgpuBackendError(WgpuBackendError::InvalidGeometry));
            },
        };
        let input_h: u32 = if dims.len() > 1 {
            input_w
        } else {
            0
        };
        assert(copy_words(layout.shape@, layout.stride@)->0 =~= seq![
            input_w,
            input_h,
            stride_x,
            stride_y,
        ]);
        match device.backend.copy(self.id, dst.id, input_w, input_h, stride_x, stride_y) {
            Ok(()) => Ok(()),
            Err(e) => Err(WgpuError::WgpuBackendError(e)),
        }
    }

    /// The router runs no kernel for an independent copy of the storage: the
    /// operation is unsupported on every element type, and nothing is recorded.
    pub fn try_clone(&self, _layout: &Layout) -> (r: Result<WgpuStorage, WgpuError>)
        ensures
            is_unsupported(r, "try_clone"@, self.dtype),
    {
        Err(unsupported("try_clone", self.dtype))
    }

    /// The router runs no kernel for raising every element to a power: the
    /// operation is unsupported on every element type, and nothing is recorded.
    pub fn powf(&self, _layout: &Layout) -> (r: Result<WgpuStorage, WgpuError>)
        ensures
            is_unsupported(r, "powf"@, self.dtype),
    {
        Err(unsupported("powf", self.dtype))
    }

    /// The router runs no kernel for the exponential linear unit: the operation
    /// is unsupported on every element type, and nothing is recorded.
    pub fn elu(&self, _layout: &Layout) -> (r: Result<WgpuStorage, WgpuError>)
        ensures
            is_unsupported(r, "elu"@, self.dtype),
    {
        Err(unsupported("elu", self.dtype))
    }

    /// The router runs no kernel for reductions along axes: the operation is
    /// unsupported on every element type, and nothing is recorded.
    pub fn reduce_op(
        &self,
        _layout: &Layout,
        _dims: &Vec<usize>,
    ) -> (r: Result<WgpuStorage, WgpuError>)
        ensures
            is_unsupported(r, "reduce_op"@, self.dtype),
    {
        Err(unsupported("reduce_op", self.dtype))
    }

    /// The router runs no kernel for elementwise comparisons: the operation is
    /// unsupported on every element type, and nothing is recorded.
    pub fn cmp(
        &self,
        _rhs: &WgpuStorage,
        _lhs_l: &Layout,
        _rhs_l: &Layout,
    ) -> (r: Result<WgpuStorage, WgpuError>)
        ensures
            is_unsupported(r, "cmp"@, self.dtype),
    {
        Err(unsupported("cmp", self.dtype))
    }

    /// The router runs no kernel for selection by a condition: the operation is
    /// unsupported on every element type, and nothing is recorded.
    pub fn where_cond(
        &self,
        _layout: &Layout,
        _t: &WgpuStorage,
        _t_l: &Layout,
        _f: &WgpuStorage,
        _f_l: &Layout,
    ) -> (r: Result<WgpuStorage, WgpuError>)
        ensures
            is_unsupported(r, "where_cond"@, self.dtype),
    {
        Err(unsupported("where_cond", self.dtype))
    }

    /// The router runs no kernel for the transposed one-dimensional convolution:
    /// the operation is unsupported on every element type, and nothing is
    /// recorded.
    pub fn conv_transpose1d(
        &self,
        _layout: &Layout,
        _kernel: &WgpuStorage,
        _kernel_l: &Layout,
    ) -> (r: Result<WgpuStorage, WgpuError>)
        ensures
            is_unsupported(r, "conv_transpose1d"@, self.dtype),
    {
        Err(unsupported("conv_transpose1d", self.dtype))
    }

    /// The router runs no kernel for the transposed two-dimensional convolution:
    /// the operation is unsupported on every element type, and nothing is
    /// recorded.
    pub fn conv_transpose2d(
        &self,
        _layout: &Layout,
        _kernel: &WgpuStorage,
        _kernel_l: &Layout,
    ) -> (r: Result<WgpuStorage, WgpuError>)
        ensures
            is_unsupported(r, "conv_transpose2d"@, self.dtype),
    {
        Err(unsupported("conv_transpose2d", self.dtype))
    }

    /// The router runs no kernel for average pooling: the operation is
    /// unsupported on every element type, and nothing is recorded.
    pub fn avg_pool2d(
        &self,
        _layout: &Layout,
        _kernel: (usize,
        usize),
        _stride: (usize,
        usize),
    ) -> (r: Result<WgpuStorage, WgpuError>)
        ensures
            is_unsupported(r, "avg_pool2d"@, self.dtype),
    {
        Err(unsupported("avg_pool2d", self.dtype))
    }

    /// The router runs no kernel for maximum pooling: the operation is
    /// unsupported on every element type, and nothing is recorded.
    pub fn max_pool2d(
        &self,
        _layout: &Layout,
        _kernel: (usize,
        usize),
        _stride: (usize,
        usize),
    ) -> (r: Result<WgpuStorage, WgpuError>)
        ensures
            is_unsupported(r, "max_pool2d"@, self.dtype),
    {
        Err(unsupported("max_pool2d", self.dtype))
    }

    /// The router runs no kernel for one-dimensional upsampling: the operation is
    /// unsupported on every element type, and nothing is recorded.
    pub fn upsample_nearest1d(
        &self,
        _layout: &Layout,
        _size: usize,
    ) -> (r: Result<WgpuStorage, WgpuError>)
        ensures
            is_unsupported(r, "upsample_nearest1d"@, self.dtype),
    {
        Err(unsupported("upsample_nearest1d", self.dtype))
    }

    /// The router runs no kernel for gathering along an axis: the operation is
    /// unsupported on every element type, and nothing is recorded.
    pub fn gather(
        &self,
        _layout: &Layout,
        _ids: &WgpuStorage,
        _ids_l: &Layout,
        _dim: usize,
    ) -> (r: Result<WgpuStorage, WgpuError>)
        ensures
            is_unsupported(r, "gather"@, self.dtype),
    {
        Err(unsupported("gather", self.dtype))
    }

    /// The router runs no kernel for scattered addition: the operation is
    /// unsupported on every element type, and nothing is recorded.
    pub fn scatter_add(
        &self,
        _layout: &Layout,
        _ids: &WgpuStorage,
        _ids_l: &Layout,
        _src: &WgpuStorage,
        _src_l: &Layout,
        _dim: usize,
    ) -> (r: Result<WgpuStorage, WgpuError>)
        ensures
            is_unsupported(r, "scatter_add"@, self.dtype),
    {
        Err(unsupported("scatter_add", self.dtype))
    }

    /// The router runs no kernel for selection by index: the operation is
    /// unsupported on every element type, and nothing is recorded.
    pub fn index_select(
        &self,
        _ids: &WgpuStorage,
        _layout: &Layout,
        _ids_l: &Layout,
        _dim: usize,
    ) -> (r: Result<WgpuStorage, WgpuError>)
        ensures
            is_unsupported(r, "index_select"@, self.dtype),
    {
        Err(unsupported("index_select", self.dtype))
    }

    /// The router runs no kernel for addition by index: the operation is
    /// unsupported on every element type, and nothing is recorded.
    pub fn index_add(
        &self,
        _layout: &Layout,
        _ids: &WgpuStorage,
        _ids_l: &Layout,
        _src: &WgpuStorage,
        _src_l: &Layout,
        _dim: usize,
    ) -> (r: Result<WgpuStorage, WgpuError>)
        ensures
            is_unsupported(r, "index_add"@, self.dtype),
    {
        Err(unsupported("index_add", self.dtype))
    }

    /// The router runs no kernel for matrix multiplication: the operation is
    /// unsupported on every element type, and nothing is recorded.
    pub fn matmul(
        &self,
        _rhs: &WgpuStorage,
        _bmnk: (usize,
        usize,
        usize,
        usize),
        _lhs_l: &Layout,
        _rhs_l: &Layout,
    ) -> (r: Result<WgpuStorage, WgpuError>)
        ensures
            is_unsupported(r, "matmul"@, self.dtype),
    {
        Err(unsupported("matmul", self.dtype))
    }

    /// The router runs no kernel for repetition along axes: the operation is
    /// unsupported on every element type, and nothing is recorded.
    pub fn repeat(
        &self,
        _layout: &Layout,
        _shape: &Vec<usize>,
        _new_shape: &Vec<usize>,
    ) -> (r: Result<WgpuStorage, WgpuError>)
        ensures
            is_unsupported(r, "repeat"@, self.dtype),
    {
        Err(unsupported("repeat", self.dtype))
    }
}

impl WgpuDevice {
    /// The backend does not fill storage with uniformly distributed numbers
    /// for the tensor layer: the operation is unsupported on every element
    /// type. `_lo` and `_up` are the bit patterns of the bounds.
    pub fn rand_uniform(&self, _shape: &Vec<usize>, dtype: DType, _lo: u64, _up: u64) -> (r: Result<
        WgpuStorage,
        WgpuError,
    >)
        ensures
            is_unsupported(r, "rand_uniform"@, dtype),
    {
        Err(unsupported("rand_uniform", dtype))
    }

    /// The backend does not fill storage with normally distributed numbers:
    /// the operation is unsupported on every element type. `_mean` and `_std`
    /// are the bit patterns of the distribution's parameters.
    pub fn rand_normal(&self, _shape: &Vec<usize>, dtype: DType, _mean: u64, _std: u64) -> (r:
        Result<WgpuStorage, WgpuError>)
        ensures
            is_unsupported(r, "rand_normal"@, dtype),
    {
        Err(unsupported("rand_normal", dtype))
    }

    /// The backend keeps no seed: setting one is unsupported. The error names
    /// no element type.
    pub fn set_seed(&self, _seed: u64) -> (r: Result<(), WgpuError>)
        ensures
            r matches Err(WgpuError::UnsupportedOperation { name, dtype }) && name@ == "set_seed"@
                && dtype@ == Seq::<char>::empty(),
    {
        Err(
            WgpuError::UnsupportedOperation {
                name: String::from_str("set_seed"),
                dtype: String::new(),
            },
        )
    }
}

} // verus!
