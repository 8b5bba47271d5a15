//! A model of the device, and what the recorded commands do to it.
//!
//! The model knows what the commands of this library rely on: which buffers
//! exist, how large they are and what they may be used for, which bytes they
//! hold, what has been encoded, what has been submitted and not yet retired,
//! and which buffers are mapped. A command that the device would refuse has
//! no next state. Of the kernels the model knows the fills, which write one
//! constant element over and over. The arithmetic of every other kernel is
//! not modelled: a buffer that such a kernel has written keeps its size and
//! holds unknown bytes. A buffer created from bytes holds exactly those
//! bytes, though a platform may pad it. Alignment rules and the limits of a
//! particular device are not modelled either.

use crate::buffer::{BufferHandle, BufferRecord, BufferRef, BufferUsages};
use crate::bytes::word_le;
use crate::command::{Binding, BindingKind, Op};
use crate::kernel::Shader;
use vstd::prelude::*;

verus! {

/// Whether the host can see a buffer's bytes.
pub enum MapState {
    Unmapped,
    /// A mapping was asked for; it completes when the device is waited on.
    Pending,
    Mapped,
}

/// One buffer of the device.
pub struct BufferModel {
    pub usage: BufferUsages,
    /// The bytes of the buffer, each of them `None` once a kernel may have
    /// written it.
    pub contents: Seq<Option<u8>>,
    pub map: MapState,
}

/// What a kernel leaves in a buffer that it may write.
pub enum Effect {
    /// The element `pattern`, over and over.
    Fill { pattern: Seq<u8> },
    /// Bytes of which the model knows nothing.
    Unknown,
}

/// Work that the device does when it gets to it.
pub enum Work {
    Copy {
        source: BufferRef,
        source_offset: nat,
        destination: BufferRef,
        destination_offset: nat,
        size: nat,
    },
    /// A compute pass that may write the buffers of `writes`.
    Kernel { writes: Set<BufferRef>, effect: Effect },
}

/// The device.
pub struct DeviceModel {
    /// The kernel modules that have been compiled.
    pub modules: Set<Shader>,
    pub buffers: Map<BufferRef, BufferModel>,
    /// Work encoded and not yet submitted.
    pub encoded: Seq<Work>,
    /// Work submitted and not yet retired.
    pub in_flight: Seq<Work>,
    /// The bytes that the last read of a mapping handed to the host.
    pub host: Seq<Option<u8>>,
}

/// A device on which nothing has happened yet.
pub open spec fn blank_device() -> DeviceModel {
    DeviceModel {
        modules: Set::empty(),
        buffers: Map::empty(),
        encoded: Seq::empty(),
        in_flight: Seq::empty(),
        host: Seq::empty(),
    }
}

/// `size` zero bytes: what a new buffer holds.
pub open spec fn zeroes(size: nat) -> Seq<Option<u8>> {
    Seq::new(size, |i: int| Some(0u8))
}

/// `size` bytes of which nothing is known.
pub open spec fn unknown(size: nat) -> Seq<Option<u8>> {
    Seq::new(size, |i: int| None)
}

/// Bytes that are all known.
pub open spec fn exactly(bytes: Seq<u8>) -> Seq<Option<u8>> {
    Seq::new(bytes.len(), |i: int| Some(bytes[i]))
}

/// The element `pattern` over and over, as often as it fits in `size` bytes;
/// of bytes beyond the last whole element nothing is known.
pub open spec fn filled(size: nat, pattern: Seq<u8>) -> Seq<Option<u8>> {
    Seq::new(
        size,
        |i: int|
            if pattern.len() > 0 && i < (size / pattern.len()) * pattern.len() {
                Some(pattern[i % (pattern.len() as int)])
            } else {
                None
            },
    )
}

/// The encoding of one as a 32-bit floating-point number.
pub open spec fn one_f32() -> u32 {
    0x3f80_0000
}

/// What the model knows of the entry points of the kernel modules: the fill
/// modules write the element type's one or zero, least significant byte
/// first.
pub open spec fn kernel_effect(shader: Shader, entry_point: Seq<char>) -> Effect {
    if entry_point == "ones"@ {
        match shader {
            Shader::Fill => Effect::Fill { pattern: word_le(one_f32()) },
            Shader::FillU8 => Effect::Fill { pattern: seq![1u8] },
            Shader::FillU32 => Effect::Fill { pattern: word_le(1) },
            _ => Effect::Unknown,
        }
    } else if entry_point == "zeroes"@ {
        match shader {
            Shader::Fill => Effect::Fill { pattern: word_le(0) },
            Shader::FillU8 => Effect::Fill { pattern: seq![0u8] },
            Shader::FillU32 => Effect::Fill { pattern: word_le(0) },
            _ => Effect::Unknown,
        }
    } else {
        Effect::Unknown
    }
}

/// What a buffer that held `before` holds after a kernel of `effect` has
/// written it.
pub open spec fn overwritten(before: Seq<Option<u8>>, effect: Effect) -> Seq<Option<u8>> {
    match effect {
        Effect::Fill { pattern } => filled(before.len(), pattern),
        Effect::Unknown => unknown(before.len()),
    }
}

/// A mappable buffer may be the destination of a copy and nothing else.
pub open spec fn usage_ok(usage: BufferUsages) -> bool {
    usage.map_read ==> !usage.copy_src && !usage.uniform && !usage.storage
}

/// `target` with `part` written over it from `offset` on.
pub open spec fn splice(target: Seq<Option<u8>>, offset: nat, part: Seq<Option<u8>>) -> Seq<
    Option<u8>,
> {
    Seq::new(
        target.len(),
        |i: int|
            if offset <= i < offset + part.len() {
                part[i - offset]
            } else {
                target[i]
            },
    )
}

/// What a copy leaves in its destination.
pub open spec fn copied(
    source: BufferModel,
    source_offset: nat,
    destination: BufferModel,
    destination_offset: nat,
    size: nat,
) -> Seq<Option<u8>> {
    splice(
        destination.contents,
        destination_offset,
        source.contents.subrange(source_offset as int, (source_offset + size) as int),
    )
}

/// The buffers after the device has done `work`.
pub open spec fn execute(buffers: Map<BufferRef, BufferModel>, work: Work) -> Map<
    BufferRef,
    BufferModel,
> {
    match work {
        Work::Copy { source, source_offset, destination, destination_offset, size } => {
            if buffers.contains_key(source) && buffers.contains_key(destination) {
                buffers.insert(
                    destination,
                    BufferModel {
                        contents: copied(
                            buffers[source],
                            source_offset,
                            buffers[destination],
                            destination_offset,
                            size,
                        ),
                        ..buffers[destination]
                    },
                )
            } else {
                buffers
            }
        },
        Work::Kernel { writes, effect } => Map::new(
            |r: BufferRef| buffers.contains_key(r),
            |r: BufferRef|
                if writes.contains(r) {
                    BufferModel { contents: overwritten(buffers[r].contents, effect), ..buffers[r] }
                } else {
                    buffers[r]
                },
        ),
    }
}

/// The buffers after the device has done all of `work`, in order.
pub open spec fn execute_all(buffers: Map<BufferRef, BufferModel>, work: Seq<Work>) -> Map<
    BufferRef,
    BufferModel,
>
    decreases work.len(),
{
    if work.len() == 0 {
        buffers
    } else {
        execute(execute_all(buffers, work.drop_last()), work.last())
    }
}

/// The buffers with every pending mapping completed.
pub open spec fn mapped(buffers: Map<BufferRef, BufferModel>) -> Map<BufferRef, BufferModel> {
    Map::new(
        |r: BufferRef| buffers.contains_key(r),
        |r: BufferRef|
            if buffers[r].map is Pending {
                BufferModel { map: MapState::Mapped, ..buffers[r] }
            } else {
                buffers[r]
            },
    )
}

/// `work` touches `buffer`: it is an end of a copy.
pub open spec fn copies(work: Work, buffer: BufferRef) -> bool {
    work matches Work::Copy { source, destination, .. } && (source == buffer || destination
        == buffer)
}

/// Some kernel of `work` may write `buffer`.
pub open spec fn written(work: Seq<Work>, buffer: BufferRef) -> bool {
    exists|i: int|
        0 <= i < work.len() && (#[trigger] work[i] matches Work::Kernel { writes, .. }
            && writes.contains(buffer))
}

/// The buffers that a bind group lets a kernel write.
pub open spec fn writable(bindings: Seq<Binding>) -> Set<BufferRef> {
    Set::new(
        |r: BufferRef|
            exists|i: int|
                0 <= i < bindings.len() && (#[trigger] bindings[i]).buffer == r && bindings[i].kind
                    == (BindingKind::Storage { read_only: false }),
    )
}

impl DeviceModel {
    /// The device accepts the bind group: the slots are numbered in order,
    /// every buffer exists, is not mapped and may be used as it is bound,
    /// and a buffer that the kernel may write is bound once only.
    pub open spec fn binds(self, bindings: Seq<Binding>) -> bool {
        &&& forall|i: int|
            0 <= i < bindings.len() ==> {
                let b = #[trigger] bindings[i];
                &&& b.binding == i
                &&& self.buffers.contains_key(b.buffer)
                &&& self.buffers[b.buffer].map is Unmapped
                &&& match b.kind {
                    BindingKind::Uniform => self.buffers[b.buffer].usage.uniform,
                    BindingKind::Storage { .. } => self.buffers[b.buffer].usage.storage,
                }
            }
        &&& forall|i: int, j: int|
            0 <= i < bindings.len() && 0 <= j < bindings.len() && i != j && (
            #[trigger] bindings[i]).kind == (BindingKind::Storage { read_only: false })
                ==> bindings[i].buffer != (#[trigger] bindings[j]).buffer
    }

    /// The device after `op`, or `None` if the device refuses `op`.
    pub open spec fn step(self, op: Op) -> Option<DeviceModel> {
        match op {
            Op::CompileShader { shader } => Some(
                DeviceModel { modules: self.modules.insert(shader), ..self },
            ),
            Op::CreateBuffer { target, size, usage } => {
                if !self.buffers.contains_key(target) && usage_ok(usage) {
                    Some(
                        DeviceModel {
                            buffers: self.buffers.insert(
                                target,
                                BufferModel {
                                    usage,
                                    contents: zeroes(size as nat),
                                    map: MapState::Unmapped,
                                },
                            ),
                            ..self
                        },
                    )
                } else {
                    None
                }
            },
            Op::CreateBufferInit { target, contents, usage } => {
                if !self.buffers.contains_key(target) && usage_ok(usage) {
                    Some(
                        DeviceModel {
                            buffers: self.buffers.insert(
                                target,
                                BufferModel {
                                    usage,
                                    contents: exactly(contents),
                                    map: MapState::Unmapped,
                                },
                            ),
                            ..self
                        },
                    )
                } else {
                    None
                }
            },
            Op::CopyBufferToBuffer {
                source,
                source_offset,
                destination,
                destination_offset,
                size,
            } => {
                if {
                    &&& self.buffers.contains_key(source)
                    &&& self.buffers.contains_key(destination)
                    &&& source != destination
                    &&& self.buffers[source].usage.copy_src
                    &&& self.buffers[destination].usage.copy_dst
                    &&& self.buffers[source].map is Unmapped
                    &&& self.buffers[destination].map is Unmapped
                    &&& source_offset + size <= self.buffers[source].contents.len()
                    &&& destination_offset + size <= self.buffers[destination].contents.len()
                } {
                    Some(
                        DeviceModel {
                            encoded: self.encoded.push(
                                Work::Copy {
                                    source,
                                    source_offset: source_offset as nat,
                                    destination,
                                    destination_offset: destination_offset as nat,
                                    size: size as nat,
                                },
                            ),
                            ..self
                        },
                    )
                } else {
                    None
                }
            },
            Op::Dispatch { shader, entry_point, bindings, workgroups } => {
                if self.modules.contains(shader) && self.binds(bindings) {
                    Some(
                        DeviceModel {
                            encoded: self.encoded.push(
                                Work::Kernel {
                                    writes: writable(bindings),
                                    effect: kernel_effect(shader, entry_point),
                                },
                            ),
                            ..self
                        },
                    )
                } else {
                    None
                }
            },
            Op::Submit => Some(
                DeviceModel {
                    encoded: Seq::empty(),
                    in_flight: self.in_flight + self.encoded,
                    ..self
                },
            ),
            Op::MapRead { buffer } => {
                if self.buffers.contains_key(buffer) && self.buffers[buffer].usage.map_read
                    && self.buffers[buffer].map is Unmapped {
                    Some(
                        DeviceModel {
                            buffers: self.buffers.insert(
                                buffer,
                                BufferModel { map: MapState::Pending, ..self.buffers[buffer] },
                            ),
                            ..self
                        },
                    )
                } else {
                    None
                }
            },
            Op::Wait => Some(
                DeviceModel {
                    buffers: mapped(execute_all(self.buffers, self.in_flight)),
                    in_flight: Seq::empty(),
                    ..self
                },
            ),
            Op::ReadMapped { buffer } => {
                if self.buffers.contains_key(buffer) && self.buffers[buffer].map is Mapped {
                    Some(DeviceModel { host: self.buffers[buffer].contents, ..self })
                } else {
                    None
                }
            },
            Op::Unmap { buffer } => {
                if self.buffers.contains_key(buffer) && self.buffers[buffer].map is Mapped {
                    Some(
                        DeviceModel {
                            buffers: self.buffers.insert(
                                buffer,
                                BufferModel { map: MapState::Unmapped, ..self.buffers[buffer] },
                            ),
                            ..self
                        },
                    )
                } else {
                    None
                }
            },
            Op::Release { buffer } => {
                if {
                    &&& self.buffers.contains_key(buffer)
                    &&& buffer is Scratch
                    &&& self.buffers[buffer].map is Unmapped
                    &&& forall|i: int|
                        0 <= i < self.encoded.len() ==> !copies(#[trigger] self.encoded[i], buffer)
                    &&& forall|i: int|
                        0 <= i < self.in_flight.len() ==> !copies(
                            #[trigger] self.in_flight[i],
                            buffer,
                        )
                } {
                    Some(DeviceModel { buffers: self.buffers.remove(buffer), ..self })
                } else {
                    None
                }
            },
        }
    }

    /// The device after the first `n` of `ops`, or `None` if the device
    /// refuses one of them.
    pub open spec fn run_prefix(self, ops: Seq<Op>, n: nat) -> Option<DeviceModel>
        decreases n,
    {
        if n == 0 {
            Some(self)
        } else {
            match self.run_prefix(ops, (n - 1) as nat) {
                None => None,
                Some(device) => device.step(ops[n - 1]),
            }
        }
    }

    /// The device after `ops`, or `None` if the device refuses one of them.
    pub open spec fn run(self, ops: Seq<Op>) -> Option<DeviceModel> {
        self.run_prefix(ops, ops.len())
    }

    /// What `buffer` holds once the device has retired the submitted work.
    pub open spec fn settled(self, buffer: BufferRef) -> Seq<Option<u8>> {
        execute_all(self.buffers, self.in_flight)[buffer].contents
    }

    /// The device is in step with a context of device identity `gpu` and
    /// registry `registry`, between two operations.
    ///
    /// Every kernel is compiled. The buffers of the device are exactly the
    /// buffers of the registry, each with its recorded size and the usage of
    /// a registered buffer, and none of them mapped. Nothing is encoded, and
    /// what is in flight is kernels that write buffers of the registry.
    pub open spec fn serves(self, gpu: usize, registry: Seq<BufferRecord>) -> bool {
        &&& forall|shader: Shader| self.modules.contains(shader)
        &&& self.encoded.len() == 0
        &&& forall|r: BufferRef|
            self.buffers.contains_key(r) <==> (r matches BufferRef::Registered(h) && h.gpu_id
                == gpu && h.index < registry.len())
        &&& forall|h: BufferHandle|
            h.gpu_id == gpu && h.index < registry.len() ==> {
                let b = #[trigger] self.buffers[BufferRef::Registered(h)];
                &&& b.contents.len() == registry[h.index as int].size
                &&& b.usage == BufferUsages::device_local()
                &&& b.map is Unmapped
            }
        &&& forall|i: int|
            0 <= i < self.in_flight.len() ==> (#[trigger] self.in_flight[i] matches Work::Kernel {
                writes,
                ..
            } && writes.subset_of(self.buffers.dom()))
    }
}

/// Running two lists of commands one after the other is running them as one
/// list.
pub proof fn lemma_run_append(device: DeviceModel, first: Seq<Op>, second: Seq<Op>)
    ensures
        device.run(first + second) == match device.run(first) {
            None => None,
            Some(between) => between.run(second),
        },
{
    lemma_run_prefix_append(device, first, second, second.len());
    assert((first + second).len() == first.len() + second.len());
}

proof fn lemma_run_prefix_append(device: DeviceModel, first: Seq<Op>, second: Seq<Op>, n: nat)
    requires
        n <= second.len(),
    ensures
        device.run_prefix(first + second, first.len() + n) == match device.run(first) {
            None => None,
            Some(between) => between.run_prefix(second, n),
        },
    decreases n,
{
    if n == 0 {
        lemma_run_prefix_same(device, first, first + second, first.len());
    } else {
        lemma_run_prefix_append(device, first, second, (n - 1) as nat);
        assert((first + second)[first.len() + n - 1] == second[n - 1]);
    }
}

/// Only the commands that are run matter.
proof fn lemma_run_prefix_same(device: DeviceModel, a: Seq<Op>, b: Seq<Op>, n: nat)
    requires
        n <= a.len(),
        n <= b.len(),
        forall|i: int| 0 <= i < n ==> a[i] == b[i],
    ensures
        device.run_prefix(a, n) == device.run_prefix(b, n),
    decreases n,
{
    if n > 0 {
        lemma_run_prefix_same(device, a, b, (n - 1) as nat);
    }
}

} // verus!
