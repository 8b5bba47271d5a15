//! What the commands of each operation do to the device.
//!
//! Every law takes a device that is in step with a context, runs the
//! commands that an operation records, and states that the device accepts
//! all of them, that it is in step with the context afterwards, and what its
//! buffers hold.

use crate::backend::{
    allocation_ops, dispatch_bindings, dispatch_ops, lemma_all_known, lemma_first_unknown,
    read_ops, startup_ops, uniform_at, upload_ops, WgpuBackend,
};
use crate::buffer::{BufferHandle, BufferRecord, BufferRef, BufferUsages};
use crate::bytes::word_le;
use crate::command::{BindingKind, Op};
use crate::conv::WgpuConvParams;
use crate::device::{
    blank_device, copies, exactly, execute_all, filled, kernel_effect, lemma_run_append,
    one_f32, writable, written, zeroes, BufferModel, DeviceModel, Work,
};
use crate::dtype::DType;
use crate::kernel::{catalog, lemma_catalog_holds_every_tag, Shader};
use crate::layout::{lemma_product_nonnegative, product};
use crate::storage::{fill_kernel, KernelCall, WgpuDevice, WgpuError, WgpuStorage};
use vstd::prelude::*;

verus! {

/// The handle of the next allocation of a context of device identity `gpu`
/// and registry `registry`.
pub open spec fn next_of(gpu: usize, registry: Seq<BufferRecord>) -> BufferHandle {
    BufferHandle { gpu_id: gpu, index: registry.len() as usize }
}

/// `handle` names a buffer of the registry of the context of device identity
/// `gpu`.
pub open spec fn issued(gpu: usize, registry: Seq<BufferRecord>, handle: BufferHandle) -> bool {
    handle.gpu_id == gpu && handle.index < registry.len()
}

/// Retiring kernels keeps every buffer with its size, usage and mapping, and
/// keeps the bytes of the buffers that none of the kernels may write.
proof fn lemma_retire_kernels(buffers: Map<BufferRef, BufferModel>, work: Seq<Work>)
    requires
        forall|i: int| 0 <= i < work.len() ==> #[trigger] work[i] is Kernel,
    ensures
        forall|r: BufferRef|
            #[trigger] execute_all(buffers, work).contains_key(r) <==> buffers.contains_key(r),
        forall|r: BufferRef|
            buffers.contains_key(r) ==> {
                let after = #[trigger] execute_all(buffers, work)[r];
                &&& after.usage == buffers[r].usage
                &&& after.map == buffers[r].map
                &&& after.contents.len() == buffers[r].contents.len()
                &&& !written(work, r) ==> after == buffers[r]
            },
    decreases work.len(),
{
    if work.len() > 0 {
        let earlier = work.drop_last();
        lemma_retire_kernels(buffers, earlier);
        let before = execute_all(buffers, earlier);
        let after = execute_all(buffers, work);
        assert(work[work.len() - 1] is Kernel);
        assert forall|r: BufferRef| buffers.contains_key(r) && !written(work, r) implies after[r]
            == buffers[r] by {
            assert(before.contains_key(r));
            if work.last()->writes.contains(r) {
                assert(work[work.len() - 1] matches Work::Kernel { writes, .. } && writes.contains(
                    r,
                ));
            }
            if written(earlier, r) {
                let i = choose|i: int|
                    0 <= i < earlier.len() && (#[trigger] earlier[i] matches Work::Kernel {
                        writes,
                        ..
                    } && writes.contains(r));
                assert(work[i] == earlier[i]);
            }
        }
        assert forall|r: BufferRef| buffers.contains_key(r) implies {
            let now = #[trigger] execute_all(buffers, work)[r];
            &&& now.usage == buffers[r].usage
            &&& now.map == buffers[r].map
            &&& now.contents.len() == buffers[r].contents.len()
            &&& !written(work, r) ==> now == buffers[r]
        } by {
            assert(before.contains_key(r));
        }
    }
}

/// What retiring kernels leaves in a buffer depends on that buffer alone.
proof fn lemma_retire_local(
    one: Map<BufferRef, BufferModel>,
    other: Map<BufferRef, BufferModel>,
    work: Seq<Work>,
    r: BufferRef,
)
    requires
        forall|i: int| 0 <= i < work.len() ==> #[trigger] work[i] is Kernel,
        one.contains_key(r),
        other.contains_key(r),
        one[r] == other[r],
    ensures
        execute_all(one, work)[r] == execute_all(other, work)[r],
    decreases work.len(),
{
    if work.len() > 0 {
        let earlier = work.drop_last();
        lemma_retire_local(one, other, earlier, r);
        lemma_retire_kernels(one, earlier);
        lemma_retire_kernels(other, earlier);
        assert(work[work.len() - 1] is Kernel);
        assert(execute_all(one, earlier).contains_key(r));
        assert(execute_all(other, earlier).contains_key(r));
    }
}

/// A kernel that is in flight writes only buffers that the device has.
proof fn lemma_in_flight_writes_existing(
    device: DeviceModel,
    gpu: usize,
    registry: Seq<BufferRecord>,
    r: BufferRef,
)
    requires
        device.serves(gpu, registry),
        !device.buffers.contains_key(r),
    ensures
        !written(device.in_flight, r),
{
    if written(device.in_flight, r) {
        let i = choose|i: int|
            0 <= i < device.in_flight.len() && (
            #[trigger] device.in_flight[i] matches Work::Kernel { writes, .. } && writes.contains(
                r,
            ));
        assert(device.in_flight[i]->writes.subset_of(device.buffers.dom()));
    }
}

/// Context construction: a device on which nothing has happened accepts the
/// compilation of the catalog, and is then in step with a context that has no
/// buffer yet.
pub proof fn lemma_startup_serves(gpu: usize)
    ensures
        blank_device().run(startup_ops()) matches Some(device) && device.serves(
            gpu,
            Seq::<BufferRecord>::empty(),
        ),
{
    lemma_startup_prefix(startup_ops().len());
    let device = blank_device().run(startup_ops())->0;
    assert forall|shader: Shader| device.modules.contains(shader) by {
        lemma_catalog_holds_every_tag(shader);
        assert(catalog()[shader.slot_of() as int] == shader);
    }
}

proof fn lemma_startup_prefix(n: nat)
    requires
        n <= startup_ops().len(),
    ensures
        blank_device().run_prefix(startup_ops(), n) matches Some(device) && {
            &&& device.buffers == Map::<BufferRef, BufferModel>::empty()
            &&& device.encoded == Seq::<Work>::empty()
            &&& device.in_flight == Seq::<Work>::empty()
            &&& forall|i: int| 0 <= i < n ==> device.modules.contains(#[trigger] catalog()[i])
        },
    decreases n,
{
    if n > 0 {
        lemma_startup_prefix((n - 1) as nat);
    }
}

/// Allocation: the device accepts the commands of an allocation, is in step
/// with the grown registry afterwards and holds zeroes in the new buffer.
/// No other buffer changes, and nothing new is in flight.
pub proof fn lemma_allocation_serves(
    device: DeviceModel,
    gpu: usize,
    registry: Seq<BufferRecord>,
    size: u64,
)
    requires
        device.serves(gpu, registry),
        registry.len() < usize::MAX,
    ensures
        device.run(allocation_ops(next_of(gpu, registry), size)) matches Some(after) && {
            &&& after.serves(gpu, registry.push(BufferRecord { size }))
            &&& after.buffers[BufferRef::Registered(next_of(gpu, registry))].contents == zeroes(
                size as nat,
            )
            &&& after.in_flight == device.in_flight
            &&& forall|h: BufferHandle|
                issued(gpu, registry, h) ==> #[trigger] after.buffers[BufferRef::Registered(h)]
                    == device.buffers[BufferRef::Registered(h)]
        },
{
    let handle = next_of(gpu, registry);
    let ops = allocation_ops(handle, size);
    reveal_with_fuel(DeviceModel::run_prefix, 2);
    assert(!device.buffers.contains_key(BufferRef::Registered(handle)));
    let after = device.run(ops)->0;
    let grown = registry.push(BufferRecord { size });
    assert forall|h: BufferHandle| h.gpu_id == gpu && h.index < grown.len() implies {
        let b = #[trigger] after.buffers[BufferRef::Registered(h)];
        &&& b.contents.len() == grown[h.index as int].size
        &&& b.usage == BufferUsages::device_local()
        &&& b.map is Unmapped
    } by {
        if h.index < registry.len() {
            assert(device.buffers[BufferRef::Registered(h)] == after.buffers[BufferRef::Registered(
                h,
            )]);
        } else {
            assert(h == handle);
        }
    }
    assert forall|i: int| 0 <= i < after.in_flight.len() implies (
    #[trigger] after.in_flight[i] matches Work::Kernel { writes, .. } && writes.subset_of(
        after.buffers.dom(),
    )) by {
        assert(device.in_flight[i] is Kernel);
    }
}

/// Upload: the device accepts the commands of an upload, is in step with the
/// grown registry afterwards and holds exactly the uploaded bytes in the new
/// buffer. The upload has waited: nothing is in flight any more, and every
/// other buffer holds what it holds once the work submitted before has
/// retired.
pub proof fn lemma_upload_serves(
    device: DeviceModel,
    gpu: usize,
    registry: Seq<BufferRecord>,
    data: Seq<u8>,
)
    requires
        device.serves(gpu, registry),
        registry.len() < usize::MAX,
        data.len() <= u64::MAX,
    ensures
        device.run(upload_ops(next_of(gpu, registry), data)) matches Some(after) && {
            &&& after.serves(gpu, registry.push(BufferRecord { size: data.len() as u64 }))
            &&& after.buffers[BufferRef::Registered(next_of(gpu, registry))].contents == exactly(
                data,
            )
            &&& after.in_flight.len() == 0
            &&& forall|h: BufferHandle|
                issued(gpu, registry, h) ==> (#[trigger] after.buffers[BufferRef::Registered(
                    h,
                )]).contents == device.settled(BufferRef::Registered(h))
        },
{
    let handle = next_of(gpu, registry);
    let target = BufferRef::Registered(handle);
    let scratch = BufferRef::Scratch;
    let ops = upload_ops(handle, data);
    let size = data.len() as u64;
    reveal_with_fuel(DeviceModel::run_prefix, 7);
    assert(!device.buffers.contains_key(scratch));
    assert(!device.buffers.contains_key(target));
    let s1 = device.step(ops[0])->0;
    let s2 = s1.step(ops[1])->0;
    let s3 = s2.step(ops[2])->0;
    let s4 = s3.step(ops[3])->0;
    let copy = Work::Copy {
        source: scratch,
        source_offset: 0,
        destination: target,
        destination_offset: 0,
        size: size as nat,
    };
    assert(s3.encoded =~= seq![copy]);
    assert(s4.in_flight =~= device.in_flight.push(copy));
    assert(s4.in_flight.drop_last() =~= device.in_flight);
    lemma_retire_kernels(s2.buffers, device.in_flight);
    lemma_retire_kernels(device.buffers, device.in_flight);
    lemma_in_flight_writes_existing(device, gpu, registry, scratch);
    lemma_in_flight_writes_existing(device, gpu, registry, target);
    let retired = execute_all(s2.buffers, device.in_flight);
    assert(retired[scratch] == s2.buffers[scratch]);
    assert(retired[target] == s2.buffers[target]);
    let s5 = s4.step(ops[4])->0;
    assert(s5.buffers[target].contents =~= exactly(data));
    let s6 = s5.step(ops[5])->0;
    assert(device.run(ops) == Some(s6));
    let grown = registry.push(BufferRecord { size });
    assert forall|h: BufferHandle| h.gpu_id == gpu && h.index < grown.len() implies {
        let b = #[trigger] s6.buffers[BufferRef::Registered(h)];
        &&& b.contents.len() == grown[h.index as int].size
        &&& b.usage == BufferUsages::device_local()
        &&& b.map is Unmapped
    } by {
        if h.index < registry.len() {
            let r = BufferRef::Registered(h);
            assert(device.buffers.contains_key(r));
            assert(s2.buffers[r] == device.buffers[r]);
        } else {
            assert(h == handle);
        }
    }
    assert forall|h: BufferHandle| issued(gpu, registry, h) implies (
    #[trigger] s6.buffers[BufferRef::Registered(h)]).contents == device.settled(
        BufferRef::Registered(h),
    ) by {
        let r = BufferRef::Registered(h);
        assert(device.buffers.contains_key(r));
        assert(s2.buffers[r] == device.buffers[r]);
        lemma_retire_local(s2.buffers, device.buffers, device.in_flight, r);
    }
}

/// Read-back: the device accepts the commands of a read-back of a buffer of
/// the registry and is in step with the same registry afterwards. The host
/// gets as many bytes as the registry records for the buffer: what the
/// buffer holds once the work submitted before has retired. The read-back
/// has waited: nothing is in flight any more.
pub proof fn lemma_read_serves(
    device: DeviceModel,
    gpu: usize,
    registry: Seq<BufferRecord>,
    handle: BufferHandle,
)
    requires
        device.serves(gpu, registry),
        issued(gpu, registry, handle),
    ensures
        device.run(read_ops(handle, registry[handle.index as int].size)) matches Some(after) && {
            &&& after.serves(gpu, registry)
            &&& after.host == device.settled(BufferRef::Registered(handle))
            &&& after.host.len() == registry[handle.index as int].size
            &&& after.in_flight.len() == 0
            &&& forall|h: BufferHandle|
                issued(gpu, registry, h) ==> (#[trigger] after.buffers[BufferRef::Registered(
                    h,
                )]).contents == device.settled(BufferRef::Registered(h))
        },
{
    let source = BufferRef::Registered(handle);
    let scratch = BufferRef::Scratch;
    let size = registry[handle.index as int].size;
    let ops = read_ops(handle, size);
    reveal_with_fuel(DeviceModel::run_prefix, 9);
    assert(!device.buffers.contains_key(scratch));
    assert(device.buffers.contains_key(source));
    let s1 = device.step(ops[0])->0;
    let s2 = s1.step(ops[1])->0;
    let s3 = s2.step(ops[2])->0;
    let s4 = s3.step(ops[3])->0;
    let copy = Work::Copy {
        source,
        source_offset: 0,
        destination: scratch,
        destination_offset: 0,
        size: size as nat,
    };
    assert(s2.encoded =~= seq![copy]);
    assert(s3.in_flight =~= device.in_flight.push(copy));
    assert(s4.in_flight.drop_last() =~= device.in_flight);
    lemma_retire_kernels(s4.buffers, device.in_flight);
    lemma_retire_kernels(device.buffers, device.in_flight);
    lemma_in_flight_writes_existing(device, gpu, registry, scratch);
    let retired = execute_all(s4.buffers, device.in_flight);
    assert(retired[scratch] == s4.buffers[scratch]);
    assert(s4.buffers[source] == device.buffers[source]);
    lemma_retire_local(s4.buffers, device.buffers, device.in_flight, source);
    assert(retired[source].contents == device.settled(source));
    let s5 = s4.step(ops[4])->0;
    assert(device.settled(source).len() == size);
    assert(s5.buffers[scratch].contents =~= device.settled(source));
    let s6 = s5.step(ops[5])->0;
    let s7 = s6.step(ops[6])->0;
    let s8 = s7.step(ops[7])->0;
    assert(device.run(ops) == Some(s8));
    assert forall|h: BufferHandle| h.gpu_id == gpu && h.index < registry.len() implies {
        let b = #[trigger] s8.buffers[BufferRef::Registered(h)];
        &&& b.contents.len() == registry[h.index as int].size
        &&& b.usage == BufferUsages::device_local()
        &&& b.map is Unmapped
        &&& b.contents == device.settled(BufferRef::Registered(h))
    } by {
        let r = BufferRef::Registered(h);
        assert(device.buffers.contains_key(r));
        assert(s4.buffers[r] == device.buffers[r]);
        lemma_retire_local(s4.buffers, device.buffers, device.in_flight, r);
    }
}

/// Round trip: an upload followed by a read-back of the new buffer hands the
/// host exactly the bytes that were uploaded.
pub proof fn lemma_upload_then_read_back(
    device: DeviceModel,
    gpu: usize,
    registry: Seq<BufferRecord>,
    data: Seq<u8>,
)
    requires
        device.serves(gpu, registry),
        registry.len() < usize::MAX,
        data.len() <= u64::MAX,
    ensures
        device.run(
            upload_ops(next_of(gpu, registry), data) + read_ops(
                next_of(gpu, registry),
                data.len() as u64,
            ),
        ) matches Some(after) && {
            &&& after.host == exactly(data)
            &&& after.serves(gpu, registry.push(BufferRecord { size: data.len() as u64 }))
        },
{
    let handle = next_of(gpu, registry);
    let size = data.len() as u64;
    let grown = registry.push(BufferRecord { size });
    lemma_upload_serves(device, gpu, registry, data);
    let uploaded = device.run(upload_ops(handle, data))->0;
    lemma_read_serves(uploaded, gpu, grown, handle);
    lemma_run_append(device, upload_ops(handle, data), read_ops(handle, size));
    assert(uploaded.in_flight =~= Seq::<Work>::empty());
}

/// Kernel run: the device accepts the commands of a kernel run on buffers of
/// the registry, provided that the output is not also an input, and is in
/// step with the same registry afterwards. No buffer has changed yet; one
/// more kernel is in flight, and it may write the output and nothing else.
pub proof fn lemma_dispatch_serves(
    device: DeviceModel,
    gpu: usize,
    registry: Seq<BufferRecord>,
    shader: Shader,
    entry_point: Seq<char>,
    inputs: Seq<BufferHandle>,
    output: BufferHandle,
    uniform: Seq<u8>,
)
    requires
        device.serves(gpu, registry),
        inputs.len() < u32::MAX,
        forall|i: int| 0 <= i < inputs.len() ==> issued(gpu, registry, #[trigger] inputs[i]),
        issued(gpu, registry, output),
        !inputs.contains(output),
    ensures
        device.run(dispatch_ops(shader, entry_point, inputs, output, uniform)) matches Some(
            after,
        ) && {
            &&& after.serves(gpu, registry)
            &&& after.buffers == device.buffers
            &&& after.in_flight == device.in_flight.push(
                Work::Kernel {
                    writes: set![BufferRef::Registered(output)],
                    effect: kernel_effect(shader, entry_point),
                },
            )
        },
{
    let scratch = BufferRef::Scratch;
    let target = BufferRef::Registered(output);
    let ops = dispatch_ops(shader, entry_point, inputs, output, uniform);
    let bindings = dispatch_bindings(inputs, output);
    reveal_with_fuel(DeviceModel::run_prefix, 5);
    assert(!device.buffers.contains_key(scratch));
    let s1 = device.step(ops[0])->0;
    assert forall|i: int| 0 <= i < bindings.len() implies {
        let b = #[trigger] bindings[i];
        &&& b.binding == i
        &&& s1.buffers.contains_key(b.buffer)
        &&& s1.buffers[b.buffer].map is Unmapped
        &&& match b.kind {
            BindingKind::Uniform => s1.buffers[b.buffer].usage.uniform,
            BindingKind::Storage { .. } => s1.buffers[b.buffer].usage.storage,
        }
    } by {
        if i == 0 {
        } else if i <= inputs.len() {
            let h = inputs[i - 1];
            assert(issued(gpu, registry, h));
            assert(device.buffers.contains_key(BufferRef::Registered(h)));
            assert(s1.buffers[BufferRef::Registered(h)] == device.buffers[BufferRef::Registered(
                h,
            )]);
        } else {
            assert(device.buffers.contains_key(target));
            assert(s1.buffers[target] == device.buffers[target]);
        }
    }
    assert forall|i: int, j: int|
        0 <= i < bindings.len() && 0 <= j < bindings.len() && i != j && (
        #[trigger] bindings[i]).kind == (BindingKind::Storage {
            read_only: false,
        }) implies bindings[i].buffer != (#[trigger] bindings[j]).buffer by {
        assert(i == inputs.len() + 1);
        if 0 < j {
            assert(inputs.contains(inputs[j - 1]));
        }
    }
    assert(s1.binds(bindings));
    let s2 = s1.step(ops[1])->0;
    let writes = writable(bindings);
    assert(writes =~= set![target]) by {
        assert(bindings[inputs.len() as int + 1].buffer == target);
        assert forall|r: BufferRef| writes.contains(r) implies r == target by {
            let i = choose|i: int|
                0 <= i < bindings.len() && (#[trigger] bindings[i]).buffer == r
                    && bindings[i].kind == (BindingKind::Storage { read_only: false });
            assert(i == inputs.len() + 1);
        }
    }
    let kernel = Work::Kernel { writes, effect: kernel_effect(shader, entry_point) };
    assert(s2.encoded =~= seq![kernel]);
    let s3 = s2.step(ops[2])->0;
    assert(s3.in_flight =~= device.in_flight.push(kernel));
    assert forall|i: int| 0 <= i < s3.in_flight.len() implies !copies(
        #[trigger] s3.in_flight[i],
        scratch,
    ) by {
        if i < device.in_flight.len() {
            assert(device.in_flight[i] is Kernel);
        }
    }
    let s4 = s3.step(ops[3])->0;
    assert(device.run(ops) == Some(s4));
    assert(s4.buffers =~= device.buffers);
    assert forall|i: int| 0 <= i < s4.in_flight.len() implies (
    #[trigger] s4.in_flight[i] matches Work::Kernel { writes: w, .. } && w.subset_of(
        s4.buffers.dom(),
    )) by {
        if i < device.in_flight.len() {
            assert(device.in_flight[i] is Kernel);
        } else {
            assert(device.buffers.contains_key(target));
        }
    }
}

/// Operation into new storage: the device accepts an allocation followed by
/// a kernel run that writes the new buffer, whatever inputs of the registry
/// the kernel reads, and is in step with the grown registry afterwards. The
/// inputs have not changed, and the one kernel more that is in flight may
/// write the new buffer and nothing else.
pub proof fn lemma_kernel_call_serves(
    device: DeviceModel,
    gpu: usize,
    registry: Seq<BufferRecord>,
    size: u64,
    shader: Shader,
    entry_point: Seq<char>,
    inputs: Seq<BufferHandle>,
    uniform: Seq<u8>,
)
    requires
        device.serves(gpu, registry),
        registry.len() < usize::MAX,
        inputs.len() < u32::MAX,
        forall|i: int| 0 <= i < inputs.len() ==> issued(gpu, registry, #[trigger] inputs[i]),
    ensures
        device.run(
            allocation_ops(next_of(gpu, registry), size) + dispatch_ops(
                shader,
                entry_point,
                inputs,
                next_of(gpu, registry),
                uniform,
            ),
        ) matches Some(after) && {
            &&& after.serves(gpu, registry.push(BufferRecord { size }))
            &&& after.in_flight == device.in_flight.push(
                Work::Kernel {
                    writes: set![BufferRef::Registered(next_of(gpu, registry))],
                    effect: kernel_effect(shader, entry_point),
                },
            )
            &&& forall|h: BufferHandle|
                issued(gpu, registry, h) ==> #[trigger] after.buffers[BufferRef::Registered(h)]
                    == device.buffers[BufferRef::Registered(h)]
        },
{
    let output = next_of(gpu, registry);
    let grown = registry.push(BufferRecord { size });
    lemma_allocation_serves(device, gpu, registry, size);
    let allocated = device.run(allocation_ops(output, size))->0;
    assert(!inputs.contains(output)) by {
        if inputs.contains(output) {
            let i = choose|i: int| 0 <= i < inputs.len() && inputs[i] == output;
            assert(issued(gpu, registry, inputs[i]));
        }
    }
    assert forall|i: int| 0 <= i < inputs.len() implies issued(gpu, grown, #[trigger] inputs[i]) by {
        assert(issued(gpu, registry, inputs[i]));
    }
    lemma_dispatch_serves(allocated, gpu, grown, shader, entry_point, inputs, output, uniform);
    lemma_run_append(
        device,
        allocation_ops(output, size),
        dispatch_ops(shader, entry_point, inputs, output, uniform),
    );
}

/// The commands that a context has recorded since it was `before`.
pub open spec fn added(before: &WgpuBackend, after: &WgpuBackend) -> Seq<Op> {
    after.recorded().subrange(before.recorded().len() as int, after.recorded().len() as int)
}

/// A kernel run of the dispatch engine keeps the device in step: whether the
/// run was recorded or refused, the device accepts what the context has
/// recorded, provided that the output is not also an input. No buffer has
/// changed when the commands end.
pub proof fn lemma_dispatched_serves(
    device: DeviceModel,
    before: &WgpuBackend,
    after: &WgpuBackend,
    shader: Shader,
    entry_point: Seq<char>,
    inputs: Seq<BufferHandle>,
    output: BufferHandle,
    words: Seq<u32>,
)
    requires
        before.dispatched(after, shader, entry_point, inputs, output, words),
        device.serves(before.gpu(), before.registry()),
        inputs.len() < u32::MAX,
        !inputs.contains(output),
    ensures
        after.registry() == before.registry(),
        device.run(added(before, after)) matches Some(next) && {
            &&& next.serves(after.gpu(), after.registry())
            &&& next.buffers == device.buffers
        },
{
    let handles = inputs.push(output);
    lemma_first_unknown(before, handles);
    reveal_with_fuel(DeviceModel::run_prefix, 1);
    match before.first_unknown(handles) {
        Some(_) => {
            assert(added(before, after) =~= Seq::<Op>::empty());
        },
        None => {
            let uniform = uniform_at(after.recorded(), before.recorded().len() as int);
            let ops = dispatch_ops(shader, entry_point, inputs, output, uniform);
            assert(added(before, after) =~= ops);
            assert forall|i: int| 0 <= i < inputs.len() implies issued(
                before.gpu(),
                before.registry(),
                #[trigger] inputs[i],
            ) by {
                assert(before.owns(handles[i]));
            }
            assert(before.owns(handles[inputs.len() as int]));
            lemma_dispatch_serves(
                device,
                before.gpu(),
                before.registry(),
                shader,
                entry_point,
                inputs,
                output,
                uniform,
            );
        },
    }
}

/// An operation of the router into new storage keeps the device in step:
/// whether it succeeded or failed, the device accepts what the context has
/// recorded. On success the new buffer has the size that the operation asked
/// for, and no buffer that existed before has changed when the commands end.
pub proof fn lemma_routed_serves(
    device: DeviceModel,
    before: &WgpuDevice,
    after: &WgpuDevice,
    r: Result<WgpuStorage, WgpuError>,
    call: KernelCall,
)
    requires
        before.routed(after, r, call),
        device.serves(before.backend.gpu(), before.backend.registry()),
        before.backend.registry().len() < usize::MAX,
        call.inputs.len() < u32::MAX,
        call.bytes >= 0,
    ensures
        device.run(added(&before.backend, &after.backend)) matches Some(next) && {
            &&& next.serves(after.backend.gpu(), after.backend.registry())
            &&& forall|h: BufferHandle|
                before.backend.owns(h) ==> #[trigger] next.buffers[BufferRef::Registered(h)]
                    == device.buffers[BufferRef::Registered(h)]
        },
        r matches Ok(storage) ==> {
            &&& after.backend.owns(storage.id)
            &&& !before.backend.owns(storage.id)
            &&& after.backend.registry()[storage.id.index as int].size == call.bytes
        },
        r is Err ==> after.backend.registry() == before.backend.registry(),
{
    reveal_with_fuel(DeviceModel::run_prefix, 1);
    if call.bytes > u64::MAX || before.backend.first_unknown(call.inputs) is Some {
        assert(added(&before.backend, &after.backend) =~= Seq::<Op>::empty());
    } else {
        let gpu = before.backend.gpu();
        let registry = before.backend.registry();
        let output = before.backend.next_handle();
        let size = call.bytes as u64;
        let uniform = uniform_at(after.backend.recorded(), before.backend.recorded().len() as int + 1);
        let ops = allocation_ops(output, size) + dispatch_ops(
            call.shader,
            call.entry_point,
            call.inputs,
            output,
            uniform,
        );
        assert(added(&before.backend, &after.backend) =~= ops);
        lemma_first_unknown(&before.backend, call.inputs);
        lemma_kernel_call_serves(
            device,
            gpu,
            registry,
            size,
            call.shader,
            call.entry_point,
            call.inputs,
            uniform,
        );
    }
}

/// A convolution keeps the device in step: whether it was recorded or
/// refused, the device accepts what the context has recorded. If it was
/// recorded, the new buffer has the size of the geometry's output, and no
/// buffer that existed before has changed when the commands end.
pub proof fn lemma_convolved_serves(
    device: DeviceModel,
    before: &WgpuBackend,
    after: &WgpuBackend,
    input: BufferHandle,
    kernel: BufferHandle,
    params: WgpuConvParams,
)
    requires
        before.convolved(after, input, kernel, params),
        device.serves(before.gpu(), before.registry()),
        before.registry().len() < usize::MAX,
    ensures
        device.run(added(before, after)) matches Some(next) && {
            &&& next.serves(after.gpu(), after.registry())
            &&& forall|h: BufferHandle|
                before.owns(h) ==> #[trigger] next.buffers[BufferRef::Registered(h)]
                    == device.buffers[BufferRef::Registered(h)]
        },
        params.geometry_ok() && before.first_unknown(seq![input, kernel]) is None ==> {
            &&& after.owns(before.next_handle())
            &&& after.registry()[before.registry().len() as int].size == params.output_bytes()
        },
{
    reveal_with_fuel(DeviceModel::run_prefix, 1);
    let operands = seq![input, kernel];
    if !params.geometry_ok() || before.first_unknown(operands) is Some {
        assert(added(before, after) =~= Seq::<Op>::empty());
    } else {
        let output = before.next_handle();
        let size = params.output_bytes() as u64;
        let uniform = uniform_at(after.recorded(), before.recorded().len() as int + 1);
        let ops = allocation_ops(output, size) + dispatch_ops(
            Shader::Conv,
            "conv2d"@,
            operands,
            output,
            uniform,
        );
        assert(added(before, after) =~= ops);
        lemma_first_unknown(before, operands);
        assert(params.output_bytes() >= 0) by {
            let planes = params.batch_size * params.channels_out;
            let rows = planes * params.out_h();
            let cells = rows * params.out_w();
            assert(planes >= 0) by (nonlinear_arith)
                requires
                    planes == params.batch_size * params.channels_out,
            ;
            assert(rows >= 0) by (nonlinear_arith)
                requires
                    rows == planes * params.out_h(),
                    planes >= 0,
                    params.out_h() >= 0,
            ;
            assert(cells >= 0) by (nonlinear_arith)
                requires
                    cells == rows * params.out_w(),
                    rows >= 0,
                    params.out_w() >= 0,
            ;
        }
        lemma_kernel_call_serves(
            device,
            before.gpu(),
            before.registry(),
            size,
            Shader::Conv,
            "conv2d"@,
            operands,
            uniform,
        );
    }
}

/// An allocation, an upload and a read-back keep the device in step: the
/// device accepts what each of them records, and is in step with the
/// context afterwards.
pub proof fn lemma_buffer_store_serves(
    device: DeviceModel,
    before: &WgpuBackend,
    after: &WgpuBackend,
    handle: BufferHandle,
    size: u64,
    data: Seq<u8>,
)
    requires
        device.serves(before.gpu(), before.registry()),
        before.registry().len() < usize::MAX,
        data.len() <= u64::MAX,
        ({
            ||| after.allocates_after(
                before,
                BufferRecord { size },
                allocation_ops(before.next_handle(), size),
            )
            ||| after.allocates_after(
                before,
                BufferRecord { size: data.len() as u64 },
                upload_ops(before.next_handle(), data),
            )
            ||| {
                &&& before.owns(handle)
                &&& after.records_after(
                    before,
                    read_ops(handle, before.registry()[handle.index as int].size),
                )
            }
        }),
    ensures
        device.run(added(before, after)) matches Some(next) && next.serves(
            after.gpu(),
            after.registry(),
        ),
{
    let gpu = before.gpu();
    let registry = before.registry();
    if after.allocates_after(
        before,
        BufferRecord { size },
        allocation_ops(before.next_handle(), size),
    ) {
        assert(added(before, after) =~= allocation_ops(before.next_handle(), size));
        lemma_allocation_serves(device, gpu, registry, size);
    } else if after.allocates_after(
        before,
        BufferRecord { size: data.len() as u64 },
        upload_ops(before.next_handle(), data),
    ) {
        assert(added(before, after) =~= upload_ops(before.next_handle(), data));
        lemma_upload_serves(device, gpu, registry, data);
    } else {
        let ops = read_ops(handle, registry[handle.index as int].size);
        assert(added(before, after) =~= ops);
        lemma_read_serves(device, gpu, registry, handle);
    }
}

/// Reading new storage: after an operation of the router has made new
/// storage, a read-back of that storage hands the host as many bytes as the
/// operation asked for, and leaves the device in step with the context.
pub proof fn lemma_routed_then_read_back(
    device: DeviceModel,
    before: &WgpuDevice,
    after: &WgpuDevice,
    storage: WgpuStorage,
    call: KernelCall,
)
    requires
        before.routed(after, Ok(storage), call),
        device.serves(before.backend.gpu(), before.backend.registry()),
        before.backend.registry().len() < usize::MAX,
        call.inputs.len() < u32::MAX,
        call.bytes >= 0,
    ensures
        device.run(
            added(&before.backend, &after.backend) + read_ops(storage.id, call.bytes as u64),
        ) matches Some(end) && {
            &&& end.host.len() == call.bytes
            &&& end.serves(after.backend.gpu(), after.backend.registry())
        },
{
    lemma_routed_serves(device, before, after, Ok(storage), call);
    let between = device.run(added(&before.backend, &after.backend))->0;
    lemma_read_serves(between, after.backend.gpu(), after.backend.registry(), storage.id);
    lemma_run_append(
        device,
        added(&before.backend, &after.backend),
        read_ops(storage.id, call.bytes as u64),
    );
}

/// The element that a fill writes into storage of `dtype`: the type's one or
/// its zero, least significant byte first.
pub open spec fn fill_element(dtype: DType, ones: bool) -> Seq<u8> {
    match dtype {
        DType::U8 => seq![if ones { 1u8 } else { 0u8 }],
        DType::U32 => word_le(if ones { 1u32 } else { 0u32 }),
        _ => word_le(if ones { one_f32() } else { 0u32 }),
    }
}

/// The entry point of the fill kernels that writes ones, and the one that
/// writes zeroes.
pub open spec fn fill_entry(ones: bool) -> Seq<char> {
    if ones {
        "ones"@
    } else {
        "zeroes"@
    }
}

/// Reading filled storage: storage of a shape and element type that has
/// just been filled with ones or with zeroes reads back as the number of
/// elements of the shape, each of them the element type's one or zero.
pub proof fn lemma_fill_then_read_back(
    device: DeviceModel,
    before: &WgpuDevice,
    after: &WgpuDevice,
    storage: WgpuStorage,
    shape: Seq<usize>,
    dtype: DType,
    ones: bool,
)
    requires
        fill_kernel(dtype) is Some,
        before.routed(
            after,
            Ok(storage),
            KernelCall {
                shader: fill_kernel(dtype)->0,
                entry_point: fill_entry(ones),
                inputs: Seq::empty(),
                words: seq![0u32],
                bytes: product(shape) * dtype.width(),
                dtype,
            },
        ),
        device.serves(before.backend.gpu(), before.backend.registry()),
        before.backend.registry().len() < usize::MAX,
    ensures
        device.run(
            added(&before.backend, &after.backend) + read_ops(
                storage.id,
                (product(shape) * dtype.width()) as u64,
            ),
        ) matches Some(end) && {
            &&& end.host.len() == product(shape) * dtype.width()
            &&& forall|k: int|
                0 <= k < product(shape) ==> #[trigger] end.host.subrange(
                    k * dtype.width(),
                    k * dtype.width() + dtype.width(),
                ) == exactly(fill_element(dtype, ones))
        },
{
    lemma_product_nonnegative(shape);
    let count = product(shape);
    let width = dtype.width();
    let bytes = count * width;
    assert(bytes >= 0) by (nonlinear_arith)
        requires
            bytes == count * width,
            count >= 0,
            width >= 0,
    ;
    let shader = fill_kernel(dtype)->0;
    let call = KernelCall {
        shader,
        entry_point: fill_entry(ones),
        inputs: Seq::empty(),
        words: seq![0u32],
        bytes,
        dtype,
    };
    let gpu = before.backend.gpu();
    let registry = before.backend.registry();
    let output = storage.id;
    let size = bytes as u64;
    let uniform = uniform_at(after.backend.recorded(), before.backend.recorded().len() as int + 1);
    let ops = allocation_ops(output, size) + dispatch_ops(
        shader,
        fill_entry(ones),
        Seq::empty(),
        output,
        uniform,
    );
    lemma_all_known(&before.backend, Seq::<BufferHandle>::empty());
    assert(added(&before.backend, &after.backend) =~= ops);
    lemma_kernel_call_serves(
        device,
        gpu,
        registry,
        size,
        shader,
        fill_entry(ones),
        Seq::empty(),
        uniform,
    );
    let between = device.run(ops)->0;
    let grown = after.backend.registry();
    lemma_read_serves(between, gpu, grown, output);
    lemma_run_append(device, ops, read_ops(output, size));
    let end = between.run(read_ops(output, size))->0;
    let target = BufferRef::Registered(output);
    let element = fill_element(dtype, ones);
    assert(end.host == filled(bytes as nat, element)) by {
        reveal_strlit("ones");
        reveal_strlit("zeroes");
        assert("ones"@.len() == 4);
        assert("zeroes"@.len() == 6);
        let effect = kernel_effect(shader, fill_entry(ones));
        assert(effect is Fill);
        assert(effect->pattern =~= element);
        assert(between.in_flight.drop_last() =~= device.in_flight);
        lemma_retire_kernels(between.buffers, device.in_flight);
        assert(between.buffers.contains_key(target));
    }
    assert forall|k: int| 0 <= k < count implies #[trigger] end.host.subrange(
        k * width,
        k * width + width,
    ) == exactly(element) by {
        lemma_filled_element(bytes as nat, element, k);
    }
}

/// A fill of whole elements holds the element at every position.
proof fn lemma_filled_element(size: nat, element: Seq<u8>, k: int)
    requires
        element.len() == 1 || element.len() == 4,
        size % element.len() == 0,
        0 <= k,
        k * element.len() < size,
    ensures
        filled(size, element).subrange(k * element.len(), k * element.len() + element.len())
            == exactly(element),
{
    if element.len() == 1 {
        assert(k * 1 == k);
        assert((size / 1) * 1 == size);
        let part = filled(size, element).subrange(k, k + 1);
        assert forall|j: int| 0 <= j < 1 implies part[j] == Some(element[j]) by {
            assert((k + j) % 1 == 0);
        }
        assert(part =~= exactly(element));
    } else {
        assert((size / 4) * 4 == size);
        assert(k * 4 + 4 <= size);
        let part = filled(size, element).subrange(k * 4, k * 4 + 4);
        assert forall|j: int| 0 <= j < 4 implies part[j] == Some(element[j]) by {
            assert((k * 4 + j) % 4 == j);
        }
        assert(part =~= exactly(element));
    }
}

} // verus!
