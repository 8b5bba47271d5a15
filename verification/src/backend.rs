//! The compute context: buffer store and dispatch engine.

use crate::buffer::{BufferHandle, BufferRecord, BufferRef, BufferUsages};
use crate::bytes::{copy_mapped, is_native_image, is_word_image, raw_bytes, read_word};
use crate::command::{ops_of, Binding, BindingKind, Command, Op, Workgroups};
use crate::error::WgpuBackendError;
use crate::kernel::{catalog, Kernels, Shader};
use crate::params::ParameterBlock;
use vstd::prelude::*;
use vstd::slice::{slice_subrange, slice_to_vec};
use vstd::string::StringExecFns;

verus! {

/// Which accelerator is preferred where there are several.
#[derive(Debug, Clone, Copy, PartialEq, Eq, Structural)]
pub enum PowerPreference {
    NoPreference,
    LowPower,
    HighPerformance,
}

/// The limits that a device must support.
#[derive(Debug, Clone, Copy, PartialEq, Eq, Structural)]
pub enum DeviceLimits {
    /// The limits that every device of the current generation supports.
    Defaults,
    /// The reduced limits that older devices support too.
    DownlevelDefaults,
}

/// What the platform is asked when an accelerator is selected.
#[derive(Debug, Clone, Copy, PartialEq, Eq, Structural)]
pub struct AdapterRequest {
    /// Accelerators of every graphics interface of the platform qualify.
    pub all_backends: bool,
    pub power_preference: PowerPreference,
    /// Only a software accelerator qualifies.
    pub force_fallback_adapter: bool,
}

/// What the selected accelerator is asked when a device is requested.
#[derive(Debug, Clone, Copy, PartialEq, Eq, Structural)]
pub struct DeviceRequest {
    pub required_limits: DeviceLimits,
}

/// What the platform answered when it was asked for an accelerator and a
/// logical device.
#[derive(Debug)]
pub enum DeviceGrant {
    /// No compatible accelerator was found.
    NoAdapter,
    /// The accelerator refused the device; the text is the platform's detail.
    Rejected(String),
    /// A device and its queue were handed out; `gpu_id` is the device's
    /// identity.
    Granted { gpu_id: usize },
}

/// What a blocking wait on the device reported.
#[derive(Debug, Clone, Copy, PartialEq, Eq, Structural)]
pub enum PollStatus {
    /// The device retired the submitted work.
    Completed,
    /// No submission was in flight.
    SubmissionQueueEmpty,
    /// The device did not answer within the time it was given.
    TimedOut,
}

/// The workgroup grid of every dispatch.
///
/// The grid does not grow with the number of elements. This is the count the
/// kernels were written against; whether it covers every problem size is an
/// open question of the design, and the library does not guess another.
pub open spec fn dispatch_grid() -> Workgroups {
    Workgroups { x: 64, y: 1, z: 1 }
}

/// The commands of context construction: one compilation per catalogued tag,
/// in slot order.
pub open spec fn startup_ops() -> Seq<Op> {
    Seq::new(catalog().len(), |i: int| Op::CompileShader { shader: catalog()[i] })
}

/// The commands of an allocation of `size` bytes under `handle`.
pub open spec fn allocation_ops(handle: BufferHandle, size: u64) -> Seq<Op> {
    seq![
        Op::CreateBuffer {
            target: BufferRef::Registered(handle),
            size,
            usage: BufferUsages::device_local(),
        },
    ]
}

/// The commands of an upload of `data` into a new buffer `handle`: stage the
/// bytes, allocate device memory of equal size, copy all of it, submit, wait
/// for the copy, and release the staging buffer.
pub open spec fn upload_ops(handle: BufferHandle, data: Seq<u8>) -> Seq<Op> {
    seq![
        Op::CreateBufferInit {
            target: BufferRef::Scratch,
            contents: data,
            usage: BufferUsages::upload_staging(),
        },
        Op::CreateBuffer {
            target: BufferRef::Registered(handle),
            size: data.len() as u64,
            usage: BufferUsages::device_local(),
        },
        Op::CopyBufferToBuffer {
            source: BufferRef::Scratch,
            source_offset: 0,
            destination: BufferRef::Registered(handle),
            destination_offset: 0,
            size: data.len() as u64,
        },
        Op::Submit,
        Op::Wait,
        Op::Release { buffer: BufferRef::Scratch },
    ]
}

/// The commands of a read-back of buffer `handle` of `size` bytes: allocate a
/// mappable staging buffer of that size, copy all of the buffer into it,
/// submit, ask for the mapping, wait, copy the mapped bytes out, unmap and
/// release.
pub open spec fn read_ops(handle: BufferHandle, size: u64) -> Seq<Op> {
    seq![
        Op::CreateBuffer {
            target: BufferRef::Scratch,
            size,
            usage: BufferUsages::read_staging(),
        },
        Op::CopyBufferToBuffer {
            source: BufferRef::Registered(handle),
            source_offset: 0,
            destination: BufferRef::Scratch,
            destination_offset: 0,
            size,
        },
        Op::Submit,
        Op::MapRead { buffer: BufferRef::Scratch },
        Op::Wait,
        Op::ReadMapped { buffer: BufferRef::Scratch },
        Op::Unmap { buffer: BufferRef::Scratch },
        Op::Release { buffer: BufferRef::Scratch },
    ]
}

/// The bind group of a dispatch: slot 0 is the parameter block, the next
/// slots are the inputs as read-only storage, in order, and the last slot is
/// the output as read-write storage.
pub open spec fn dispatch_bindings(inputs: Seq<BufferHandle>, output: BufferHandle) -> Seq<
    Binding,
> {
    Seq::new(
        inputs.len() + 2,
        |i: int|
            if i == 0 {
                Binding { binding: 0, kind: BindingKind::Uniform, buffer: BufferRef::Scratch }
            } else if i <= inputs.len() {
                Binding {
                    binding: i as u32,
                    kind: BindingKind::Storage { read_only: true },
                    buffer: BufferRef::Registered(inputs[i - 1]),
                }
            } else {
                Binding {
                    binding: i as u32,
                    kind: BindingKind::Storage { read_only: false },
                    buffer: BufferRef::Registered(output),
                }
            },
    )
}

/// The commands of one kernel run: create the parameter block from
/// `uniform`, encode one compute pass, submit it, and release the parameter
/// block. Nothing waits for the pass to finish.
pub open spec fn dispatch_ops(
    shader: Shader,
    entry_point: Seq<char>,
    inputs: Seq<BufferHandle>,
    output: BufferHandle,
    uniform: Seq<u8>,
) -> Seq<Op> {
    seq![
        Op::CreateBufferInit {
            target: BufferRef::Scratch,
            contents: uniform,
            usage: BufferUsages::parameters(),
        },
        Op::Dispatch {
            shader,
            entry_point,
            bindings: dispatch_bindings(inputs, output),
            workgroups: dispatch_grid(),
        },
        Op::Submit,
        Op::Release { buffer: BufferRef::Scratch },
    ]
}

/// The parameter bytes of the kernel run whose commands start at position
/// `at` of `recorded`.
pub open spec fn uniform_at(recorded: Seq<Op>, at: int) -> Seq<u8> {
    recorded[at]->CreateBufferInit_contents
}

/// `r` fails with `unknown` as an invalid buffer if there is one, and
/// succeeds if there is none.
pub open spec fn rejects<T>(r: Result<T, WgpuBackendError>, unknown: Option<BufferHandle>) -> bool {
    match unknown {
        Some(handle) => r matches Err(WgpuBackendError::InvalidBuffer(h)) && h == handle,
        None => r is Ok,
    }
}

/// The compute context.
///
/// It owns the registry of buffers and the commands that have been recorded
/// and not yet taken by the driver. The registry only grows: a buffer, once
/// registered, keeps its handle, size and usage.
#[derive(Debug)]
pub struct WgpuBackend {
    gpu_id: usize,
    buffers: Vec<BufferRecord>,
    pending: Vec<Command>,
}

impl WgpuBackend {
    /// The identity of the device this context drives.
    pub closed spec fn gpu(&self) -> usize {
        self.gpu_id
    }

    /// The registry: one record per allocation, in the order of allocation.
    pub closed spec fn registry(&self) -> Seq<BufferRecord> {
        self.buffers@
    }

    /// The commands recorded and not yet taken, oldest first.
    pub closed spec fn recorded(&self) -> Seq<Op> {
        ops_of(self.pending@)
    }

    /// `handle` was issued by this context.
    pub open spec fn owns(&self, handle: BufferHandle) -> bool {
        handle.gpu_id == self.gpu() && handle.index < self.registry().len()
    }

    /// The handle that the next allocation gets.
    pub open spec fn next_handle(&self) -> BufferHandle {
        BufferHandle { gpu_id: self.gpu(), index: self.registry().len() as usize }
    }

    /// `self` follows `before` by commands only: same device, same registry,
    /// and `ops` appended to what was recorded.
    pub open spec fn records_after(&self, before: &WgpuBackend, ops: Seq<Op>) -> bool {
        &&& self.gpu() == before.gpu()
        &&& self.registry() == before.registry()
        &&& self.recorded() == before.recorded() + ops
    }

    /// `self` follows `before` by one allocation: same device, `record`
    /// appended to the registry, and `ops` appended to what was recorded.
    pub open spec fn allocates_after(
        &self,
        before: &WgpuBackend,
        record: BufferRecord,
        ops: Seq<Op>,
    ) -> bool {
        &&& self.gpu() == before.gpu()
        &&& self.registry() == before.registry().push(record)
        &&& self.recorded() == before.recorded() + ops
    }

    /// How the accelerator of a context is selected: among the accelerators
    /// of all graphics interfaces, with no preference for low power or high
    /// performance, and not restricted to a software accelerator.
    pub fn adapter_request() -> (request: AdapterRequest)
        ensures
            request == (AdapterRequest {
                all_backends: true,
                power_preference: PowerPreference::NoPreference,
                force_fallback_adapter: false,
            }),
    {
        AdapterRequest {
            all_backends: true,
            power_preference: PowerPreference::NoPreference,
            force_fallback_adapter: false,
        }
    }

    /// What the device of a context must support: the reduced limits that
    /// older devices support too.
    pub fn device_request() -> (request: DeviceRequest)
        ensures
            request == (DeviceRequest { required_limits: DeviceLimits::DownlevelDefaults }),
    {
        DeviceRequest { required_limits: DeviceLimits::DownlevelDefaults }
    }

    /// Builds the context from the platform's answer to the two requests.
    ///
    /// Without an accelerator, or with the device refused, there is no
    /// context. With a device, the context starts with an empty registry and
    /// has recorded the compilation of every catalogued kernel.
    pub fn new(grant: DeviceGrant) -> (r: Result<WgpuBackend, WgpuBackendError>)
        ensures
            match grant {
                DeviceGrant::NoAdapter => r matches Err(WgpuBackendError::InitializationError),
                DeviceGrant::Rejected(detail) => r matches Err(
                    WgpuBackendError::RequestDeviceError(text),
                ) && text@ == detail@,
                DeviceGrant::Granted { gpu_id } => r matches Ok(backend) && backend.gpu() == gpu_id
                    && backend.registry() == Seq::<BufferRecord>::empty() && backend.recorded()
                    == startup_ops(),
            },
    {
        match grant {
            DeviceGrant::NoAdapter => Err(WgpuBackendError::InitializationError),
            DeviceGrant::Rejected(detail) => Err(WgpuBackendError::RequestDeviceError(detail)),
            DeviceGrant::Granted { gpu_id } => {
                let kernels = Kernels::new();
                let mut pending: Vec<Command> = Vec::new();
                let mut slot: usize = 0;
                while slot < kernels.len()
                    invariant
                        kernels@ == catalog(),
                        slot <= kernels@.len(),
                        pending@.len() == slot,
                        forall|i: int|
                            0 <= i < slot ==> (#[trigger] pending@[i])@ == (Op::CompileShader {
                                shader: catalog()[i],
                            }),
                    decreases kernels@.len() - slot,
                {
                    let shader = kernels.get(slot).unwrap();
                    pending.push(Command::CompileShader { shader });
                    slot = slot + 1;
                }
                assert(ops_of(pending@) =~= startup_ops());
                Ok(WgpuBackend { gpu_id, buffers: Vec::new(), pending })
            },
        }
    }

    /// The identity of the device this context drives.
    pub fn get_gpu_id(&self) -> (id: usize)
        ensures
            id == self.gpu(),
    {
        self.gpu_id
    }

    /// Number of buffers in the registry.
    pub fn buffer_count(&self) -> (count: usize)
        ensures
            count == self.registry().len(),
    {
        self.buffers.len()
    }

    /// The registry's record of `handle`, if this context issued it.
    pub fn lookup(&self, handle: BufferHandle) -> (r: Option<BufferRecord>)
        ensures
            r == if self.owns(handle) {
                Some(self.registry()[handle.index as int])
            } else {
                None
            },
    {
        if handle.gpu_id == self.gpu_id && handle.index < self.buffers.len() {
            Some(self.buffers[handle.index])
        } else {
            None
        }
    }

    /// The catalog slot of the module that `shader` names. Every tag has one.
    pub fn get_shader(&self, shader: Shader) -> (slot: usize)
        ensures
            slot == shader.slot_of(),
            slot < catalog().len(),
            catalog()[slot as int] == shader,
    {
        shader.slot()
    }

    /// Hands the recorded commands to the caller, oldest first, and leaves
    /// none recorded. The registry is unchanged.
    pub fn take_commands(&mut self) -> (commands: Vec<Command>)
        ensures
            ops_of(commands@) == old(self).recorded(),
            final(self).gpu() == old(self).gpu(),
            final(self).registry() == old(self).registry(),
            final(self).recorded() == Seq::<Op>::empty(),
    {
        let mut commands: Vec<Command> = Vec::new();
        std::mem::swap(&mut commands, &mut self.pending);
        assert(ops_of(self.pending@) =~= Seq::<Op>::empty());
        commands
    }

    fn record(&mut self, command: Command)
        ensures
            final(self).records_after(old(self), seq![command@]),
    {
        self.pending.push(command);
        assert(ops_of(self.pending@) =~= ops_of(old(self).pending@) + seq![command@]);
    }

    /// Reserves `size` bytes of device memory, usable as storage and as
    /// either end of a copy. It always succeeds and returns the new handle.
    pub fn create_buffer(&mut self, size: u64) -> (r: Result<BufferHandle, WgpuBackendError>)
        ensures
            r matches Ok(handle) && handle == old(self).next_handle(),
            final(self).allocates_after(
                old(self),
                BufferRecord { size },
                allocation_ops(old(self).next_handle(), size),
            ),
    {
        let handle = BufferHandle { gpu_id: self.gpu_id, index: self.buffers.len() };
        let usage = BufferUsages::for_storage();
        self.buffers.push(BufferRecord { size });
        self.record(Command::CreateBuffer { target: BufferRef::Registered(handle), size, usage });
        assert(self.recorded() =~= old(self).recorded() + allocation_ops(handle, size));
        Ok(handle)
    }
}

impl WgpuBackend {
    /// The first of `handles` that this context did not issue, if there is
    /// one.
    pub open spec fn first_unknown(&self, handles: Seq<BufferHandle>) -> Option<BufferHandle>
        decreases handles.len(),
    {
        if handles.len() == 0 {
            None
        } else if !self.owns(handles.first()) {
            Some(handles.first())
        } else {
            self.first_unknown(handles.drop_first())
        }
    }

    /// What a kernel run leaves behind, from `self` to `after`.
    ///
    /// The handles are looked up in order, inputs first and the output last.
    /// If this context did not issue one of them, nothing changes. With all
    /// handles known the run's commands are recorded, the parameter block
    /// being `words` as they lie in memory.
    pub open spec fn dispatched(
        &self,
        after: &WgpuBackend,
        shader: Shader,
        entry_point: Seq<char>,
        inputs: Seq<BufferHandle>,
        output: BufferHandle,
        words: Seq<u32>,
    ) -> bool {
        match self.first_unknown(inputs.push(output)) {
            Some(_) => *after == *self,
            None => {
                let uniform = uniform_at(after.recorded(), self.recorded().len() as int);
                &&& is_native_image(uniform, words)
                &&& after.records_after(
                    self,
                    dispatch_ops(shader, entry_point, inputs, output, uniform),
                )
            },
        }
    }

    /// Uploads `data`: records the commands that put the bytes into a new
    /// buffer of the same size, and registers that buffer. It always
    /// succeeds and returns the new handle.
    pub fn create_buffer_with_data(&mut self, data: &[u8]) -> (r: Result<
        BufferHandle,
        WgpuBackendError,
    >)
        ensures
            r matches Ok(handle) && handle == old(self).next_handle(),
            final(self).allocates_after(
                old(self),
                BufferRecord { size: data@.len() as u64 },
                upload_ops(old(self).next_handle(), data@),
            ),
    {
        let handle = BufferHandle { gpu_id: self.gpu_id, index: self.buffers.len() };
        let size: u64 = data.len() as u64;
        let usage = BufferUsages::for_storage();
        self.record(
            Command::CreateBufferInit {
                target: BufferRef::Scratch,
                contents: slice_to_vec(data),
                usage: BufferUsages::for_upload(),
            },
        );
        self.record(Command::CreateBuffer { target: BufferRef::Registered(handle), size, usage });
        self.record(
            Command::CopyBufferToBuffer {
                source: BufferRef::Scratch,
                source_offset: 0,
                destination: BufferRef::Registered(handle),
                destination_offset: 0,
                size,
            },
        );
        self.record(Command::Submit);
        self.buffers.push(BufferRecord { size });
        self.record(Command::Wait);
        self.record(Command::Release { buffer: BufferRef::Scratch });
        assert(self.recorded() =~= old(self).recorded() + upload_ops(handle, data@));
        Ok(handle)
    }

    /// Decides how an upload ended from what the wait reported: the handle
    /// when the device retired the copy, an error that names the operation
    /// when nothing was in flight or the device did not answer in time.
    pub fn complete_upload(handle: BufferHandle, status: PollStatus) -> (r: Result<
        BufferHandle,
        WgpuBackendError,
    >)
        ensures
            match status {
                PollStatus::Completed => r matches Ok(h) && h == handle,
                PollStatus::SubmissionQueueEmpty => r matches Err(
                    WgpuBackendError::SubmissionQueueEmpty(text),
                ) && text@ == "create_buffer_with_data"@,
                PollStatus::TimedOut => r matches Err(WgpuBackendError::Timeout(text)) && text@
                    == "create_buffer_with_data"@,
            },
    {
        match status {
            PollStatus::Completed => Ok(handle),
            PollStatus::SubmissionQueueEmpty => Err(
                WgpuBackendError::SubmissionQueueEmpty(String::from_str("create_buffer_with_data")),
            ),
            PollStatus::TimedOut => Err(
                WgpuBackendError::Timeout(String::from_str("create_buffer_with_data")),
            ),
        }
    }

    /// Records the read-back of a buffer and returns its size in bytes. A
    /// handle that this context did not issue is an error, and then nothing
    /// is recorded.
    pub fn read_buf(&mut self, buf_id: BufferHandle) -> (r: Result<u64, WgpuBackendError>)
        ensures
            match r {
                Ok(size) => {
                    &&& old(self).owns(buf_id)
                    &&& size == old(self).registry()[buf_id.index as int].size
                    &&& final(self).records_after(old(self), read_ops(buf_id, size))
                },
                Err(e) => {
                    &&& !old(self).owns(buf_id)
                    &&& e matches WgpuBackendError::InvalidBuffer(handle) && handle == buf_id
                    &&& *final(self) == *old(self)
                },
            },
    {
        let size: u64 = match self.lookup(buf_id) {
            Some(record) => record.size,
            None => {
                return Err(WgpuBackendError::InvalidBuffer(buf_id));
            },
        };
        self.record(
            Command::CreateBuffer {
                target: BufferRef::Scratch,
                size,
                usage: BufferUsages::for_read_back(),
            },
        );
        self.record(
            Command::CopyBufferToBuffer {
                source: BufferRef::Registered(buf_id),
                source_offset: 0,
                destination: BufferRef::Scratch,
                destination_offset: 0,
                size,
            },
        );
        self.record(Command::Submit);
        self.record(Command::MapRead { buffer: BufferRef::Scratch });
        self.record(Command::Wait);
        self.record(Command::ReadMapped { buffer: BufferRef::Scratch });
        self.record(Command::Unmap { buffer: BufferRef::Scratch });
        self.record(Command::Release { buffer: BufferRef::Scratch });
        assert(self.recorded() =~= old(self).recorded() + read_ops(buf_id, size));
        Ok(size)
    }

    /// Copies the bytes of a mapped range into a vector of the host's own.
    pub fn read_mapped(mapped: &[u8]) -> (bytes: Vec<u8>)
        ensures
            bytes@ == mapped@,
    {
        copy_mapped(mapped)
    }

    /// Reads `bytes` as 32-bit elements: as many as fit, in order. Bytes after
    /// the last whole element are left out. Each element is read in the byte
    /// order of the machine.
    pub fn read_buf_as(bytes: &[u8]) -> (words: Vec<u32>)
        ensures
            words@.len() == bytes@.len() / 4,
            forall|i: int|
                0 <= i < words@.len() ==> is_word_image(
                    #[trigger] bytes@.subrange(4 * i, 4 * i + 4),
                    words@[i],
                ),
    {
        let count: usize = bytes.len() / 4;
        let mut words: Vec<u32> = Vec::new();
        let mut done: usize = 0;
        while done < count
            invariant
                count == bytes@.len() / 4,
                4 * count <= bytes@.len() <= usize::MAX,
                done <= count,
                words@.len() == done,
                forall|i: int|
                    0 <= i < done ==> is_word_image(
                        #[trigger] bytes@.subrange(4 * i, 4 * i + 4),
                        words@[i],
                    ),
            decreases count - done,
        {
            let chunk = slice_subrange(bytes, 4 * done, 4 * done + 4);
            let word = read_word(chunk);
            words.push(word);
            done = done + 1;
        }
        words
    }

    /// Decides how a read-back ended. `status` is what the wait reported and
    /// `mapped` the bytes copied out of the mapping, or `None` when the
    /// device failed to map the staging buffer. The wait is judged first.
    pub fn complete_read(status: PollStatus, mapped: Option<Vec<u8>>) -> (r: Result<
        Vec<u8>,
        WgpuBackendError,
    >)
        ensures
            match status {
                PollStatus::SubmissionQueueEmpty => r matches Err(
                    WgpuBackendError::SubmissionQueueEmpty(text),
                ) && text@ == "read_buf"@,
                PollStatus::TimedOut => r matches Err(WgpuBackendError::Timeout(text)) && text@
                    == "read_buf"@,
                PollStatus::Completed => match mapped {
                    None => r matches Err(WgpuBackendError::BufferError),
                    Some(bytes) => r matches Ok(read) && read@ == bytes@,
                },
            },
    {
        match status {
            PollStatus::SubmissionQueueEmpty => Err(
                WgpuBackendError::SubmissionQueueEmpty(String::from_str("read_buf")),
            ),
            PollStatus::TimedOut => Err(WgpuBackendError::Timeout(String::from_str("read_buf"))),
            PollStatus::Completed => match mapped {
                None => Err(WgpuBackendError::BufferError),
                Some(bytes) => Ok(bytes),
            },
        }
    }

    fn encode_dispatch(
        &mut self,
        shader: Shader,
        entry_point: &str,
        inputs: &Vec<BufferHandle>,
        output: BufferHandle,
        words: &Vec<u32>,
    )
        requires
            inputs@.len() <= 2,
        ensures
            is_native_image(
                uniform_at(final(self).recorded(), old(self).recorded().len() as int),
                words@,
            ),
            final(self).records_after(
                old(self),
                dispatch_ops(
                    shader,
                    entry_point@,
                    inputs@,
                    output,
                    uniform_at(final(self).recorded(), old(self).recorded().len() as int),
                ),
            ),
    {
        let uniform = raw_bytes(words);
        let ghost image = uniform@;
        let mut bindings: Vec<Binding> = Vec::new();
        bindings.push(
            Binding { binding: 0, kind: BindingKind::Uniform, buffer: BufferRef::Scratch },
        );
        let mut i: usize = 0;
        while i < inputs.len()
            invariant
                inputs@.len() <= 2,
                i <= inputs@.len(),
                bindings@.len() == i + 1,
                forall|k: int|
                    0 <= k <= i ==> #[trigger] bindings@[k] == dispatch_bindings(inputs@, output)[k],
            decreases inputs@.len() - i,
        {
            bindings.push(
                Binding {
                    binding: (i + 1) as u32,
                    kind: BindingKind::Storage { read_only: true },
                    buffer: BufferRef::Registered(inputs[i]),
                },
            );
            i = i + 1;
        }
        bindings.push(
            Binding {
                binding: (inputs.len() + 1) as u32,
                kind: BindingKind::Storage { read_only: false },
                buffer: BufferRef::Registered(output),
            },
        );
        assert(bindings@ =~= dispatch_bindings(inputs@, output));
        self.record(
            Command::CreateBufferInit {
                target: BufferRef::Scratch,
                contents: uniform,
                usage: BufferUsages::for_parameters(),
            },
        );
        self.record(
            Command::Dispatch {
                shader,
                entry_point: String::from_str(entry_point),
                bindings,
                workgroups: Workgroups { x: 64, y: 1, z: 1 },
            },
        );
        self.record(Command::Submit);
        self.record(Command::Release { buffer: BufferRef::Scratch });
        assert(self.recorded() =~= old(self).recorded() + dispatch_ops(
            shader,
            entry_point@,
            inputs@,
            output,
            image,
        ));
        assert(uniform_at(self.recorded(), old(self).recorded().len() as int) == image);
    }

    /// Runs an entry point of a kernel on an output buffer alone, and returns
    /// the output handle without waiting for the run to finish.
    pub fn run_shader<P: ParameterBlock>(
        &mut self,
        shader: Shader,
        entry_point: &str,
        output_buffer_id: BufferHandle,
        params: &P,
    ) -> (r: Result<BufferHandle, WgpuBackendError>)
        ensures
            rejects(r, old(self).first_unknown(Seq::<BufferHandle>::empty().push(output_buffer_id))),
            old(self).dispatched(
                final(self),
                shader,
                entry_point@,
                Seq::empty(),
                output_buffer_id,
                params.words(),
            ),
            r matches Ok(handle) ==> handle == output_buffer_id,
    {
        reveal_with_fuel(WgpuBackend::first_unknown, 4);
        let ghost handles = Seq::<BufferHandle>::empty().push(output_buffer_id);
        assert(handles.drop_first() =~= Seq::<BufferHandle>::empty());
        if self.lookup(output_buffer_id).is_none() {
            return Err(WgpuBackendError::InvalidBuffer(output_buffer_id));
        }
        let inputs: Vec<BufferHandle> = Vec::new();
        let words = params.to_words();
        self.encode_dispatch(shader, entry_point, &inputs, output_buffer_id, &words);
        assert(inputs@ =~= Seq::<BufferHandle>::empty());
        Ok(output_buffer_id)
    }

    /// Runs an entry point of a kernel from one input buffer to an output
    /// buffer, and returns the output handle without waiting for the run to
    /// finish.
    pub fn run_shader_with_input<P: ParameterBlock>(
        &mut self,
        shader: Shader,
        entry_point: &str,
        input_buffer_id: BufferHandle,
        output_buffer_id: BufferHandle,
        params: &P,
    ) -> (r: Result<BufferHandle, WgpuBackendError>)
        ensures
            rejects(r, old(self).first_unknown(seq![input_buffer_id].push(output_buffer_id))),
            old(self).dispatched(
                final(self),
                shader,
                entry_point@,
                seq![input_buffer_id],
                output_buffer_id,
                params.words(),
            ),
            r matches Ok(handle) ==> handle == output_buffer_id,
    {
        reveal_with_fuel(WgpuBackend::first_unknown, 4);
        let ghost handles = seq![input_buffer_id].push(output_buffer_id);
        assert(handles.drop_first() =~= seq![output_buffer_id]);
        assert(handles.drop_first().drop_first() =~= Seq::<BufferHandle>::empty());
        if self.lookup(input_buffer_id).is_none() {
            return Err(WgpuBackendError::InvalidBuffer(input_buffer_id));
        }
        if self.lookup(output_buffer_id).is_none() {
            return Err(WgpuBackendError::InvalidBuffer(output_buffer_id));
        }
        let mut inputs: Vec<BufferHandle> = Vec::new();
        inputs.push(input_buffer_id);
        let words = params.to_words();
        self.encode_dispatch(shader, entry_point, &inputs, output_buffer_id, &words);
        assert(inputs@ =~= seq![input_buffer_id]);
        Ok(output_buffer_id)
    }

    /// Runs an entry point of a kernel from two input buffers to an output
    /// buffer, and returns the output handle without waiting for the run to
    /// finish.
    pub fn run_shader_with_input_2<P: ParameterBlock>(
        &mut self,
        shader: Shader,
        entry_point: &str,
        input_buffer_id: BufferHandle,
        input_buffer_id_2: BufferHandle,
        output_buffer_id: BufferHandle,
        params: &P,
    ) -> (r: Result<BufferHandle, WgpuBackendError>)
        ensures
            rejects(r, old(self).first_unknown(seq![input_buffer_id, input_buffer_id_2].push(output_buffer_id))),
            old(self).dispatched(
                final(self),
                shader,
                entry_point@,
                seq![input_buffer_id, input_buffer_id_2],
                output_buffer_id,
                params.words(),
            ),
            r matches Ok(handle) ==> handle == output_buffer_id,
    {
        reveal_with_fuel(WgpuBackend::first_unknown, 4);
        let ghost handles = seq![input_buffer_id, input_buffer_id_2].push(output_buffer_id);
        assert(handles.drop_first() =~= seq![input_buffer_id_2, output_buffer_id]);
        assert(handles.drop_first().drop_first() =~= seq![output_buffer_id]);
        assert(handles.drop_first().drop_first().drop_first() =~= Seq::<BufferHandle>::empty());
        if self.lookup(input_buffer_id).is_none() {
            return Err(WgpuBackendError::InvalidBuffer(input_buffer_id));
        }
        if self.lookup(input_buffer_id_2).is_none() {
            return Err(WgpuBackendError::InvalidBuffer(input_buffer_id_2));
        }
        if self.lookup(output_buffer_id).is_none() {
            return Err(WgpuBackendError::InvalidBuffer(output_buffer_id));
        }
        let mut inputs: Vec<BufferHandle> = Vec::new();
        inputs.push(input_buffer_id);
        inputs.push(input_buffer_id_2);
        let words = params.to_words();
        self.encode_dispatch(shader, entry_point, &inputs, output_buffer_id, &words);
        assert(inputs@ =~= seq![input_buffer_id, input_buffer_id_2]);
        Ok(output_buffer_id)
    }
}

/// `first_unknown` finds nothing exactly when the context issued every
/// handle; what it finds is a handle of the list that the context did not
/// issue, with only issued handles before it.
pub proof fn lemma_first_unknown(backend: &WgpuBackend, handles: Seq<BufferHandle>)
    ensures
        match backend.first_unknown(handles) {
            None => forall|i: int| 0 <= i < handles.len() ==> backend.owns(#[trigger] handles[i]),
            Some(unknown) => exists|k: int|
                {
                    &&& 0 <= k < handles.len()
                    &&& #[trigger] handles[k] == unknown
                    &&& !backend.owns(unknown)
                    &&& forall|j: int| 0 <= j < k ==> backend.owns(#[trigger] handles[j])
                },
        },
    decreases handles.len(),
{
    if handles.len() == 0 {
    } else if !backend.owns(handles.first()) {
        assert(handles[0] == handles.first());
    } else {
        let rest = handles.drop_first();
        lemma_first_unknown(backend, rest);
        match backend.first_unknown(rest) {
            None => {
                assert forall|i: int| 0 <= i < handles.len() implies backend.owns(
                    #[trigger] handles[i],
                ) by {
                    if i > 0 {
                        assert(handles[i] == rest[i - 1]);
                    }
                }
            },
            Some(unknown) => {
                let k = choose|k: int|
                    {
                        &&& 0 <= k < rest.len()
                        &&& #[trigger] rest[k] == unknown
                        &&& !backend.owns(unknown)
                        &&& forall|j: int| 0 <= j < k ==> backend.owns(#[trigger] rest[j])
                    };
                assert(handles[k + 1] == rest[k]);
                assert forall|j: int| 0 <= j < k + 1 implies backend.owns(
                    #[trigger] handles[j],
                ) by {
                    if j > 0 {
                        assert(handles[j] == rest[j - 1]);
                    }
                }
            },
        }
    }
}

/// A list of handles that the context issued holds no unknown handle.
pub proof fn lemma_all_known(backend: &WgpuBackend, handles: Seq<BufferHandle>)
    requires
        forall|i: int| 0 <= i < handles.len() ==> backend.owns(#[trigger] handles[i]),
    ensures
        backend.first_unknown(handles) is None,
{
    lemma_first_unknown(backend, handles);
    if let Some(unknown) = backend.first_unknown(handles) {
        let k = choose|k: int|
            {
                &&& 0 <= k < handles.len()
                &&& #[trigger] handles[k] == unknown
                &&& !backend.owns(unknown)
                &&& forall|j: int| 0 <= j < k ==> backend.owns(#[trigger] handles[j])
            };
        assert(backend.owns(handles[k]));
    }
}

/// A handle that the context did not issue, with only issued handles before
/// it, is the one that `first_unknown` finds.
pub proof fn lemma_first_unknown_at(backend: &WgpuBackend, handles: Seq<BufferHandle>, k: int)
    requires
        0 <= k < handles.len(),
        !backend.owns(handles[k]),
        forall|j: int| 0 <= j < k ==> backend.owns(#[trigger] handles[j]),
    ensures
        backend.first_unknown(handles) == Some(handles[k]),
    decreases handles.len(),
{
    if k > 0 {
        let rest = handles.drop_first();
        assert(backend.owns(handles[0]));
        assert forall|j: int| 0 <= j < k - 1 implies backend.owns(#[trigger] rest[j]) by {
            assert(rest[j] == handles[j + 1]);
        }
        assert(rest[k - 1] == handles[k]);
        lemma_first_unknown_at(backend, rest, k - 1);
    }
}

/// The registry only grows: after an allocation every handle that the
/// context had issued is still its own and names the same record, and the
/// new handle is one that it had not issued before.
pub proof fn lemma_handles_stay_valid(
    before: &WgpuBackend,
    after: &WgpuBackend,
    record: BufferRecord,
    ops: Seq<Op>,
    handle: BufferHandle,
)
    requires
        after.allocates_after(before, record, ops),
        before.registry().len() < usize::MAX,
        before.owns(handle),
    ensures
        after.owns(handle),
        after.registry()[handle.index as int] == before.registry()[handle.index as int],
        handle != before.next_handle(),
        !before.owns(before.next_handle()),
        after.owns(before.next_handle()),
        after.registry()[before.next_handle().index as int] == record,
{
}

/// Recording commands leaves the registry alone: every handle that the
/// context had issued is still its own and names the same record, and no
/// other handle has become its own.
pub proof fn lemma_recording_keeps_handles(
    before: &WgpuBackend,
    after: &WgpuBackend,
    ops: Seq<Op>,
    handle: BufferHandle,
)
    requires
        after.records_after(before, ops),
    ensures
        after.owns(handle) == before.owns(handle),
        before.owns(handle) ==> after.registry()[handle.index as int] == before.registry()[
            handle.index as int
        ],
{
}

} // verus!
