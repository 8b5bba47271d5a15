//! The commands that the library records for the device.

use crate::buffer::{BufferRef, BufferUsages};
use crate::kernel::Shader;
use vstd::prelude::*;

verus! {

/// How a bound buffer is seen by a kernel.
#[derive(Debug, Clone, Copy, Hash, PartialEq, Eq, Structural)]
pub enum BindingKind {
    /// A small read-only parameter block.
    Uniform,
    /// A storage buffer.
    Storage { read_only: bool },
}

/// One slot of a bind group: its number, how the kernel sees it, and the
/// buffer that is bound to it as a whole.
#[derive(Debug, Clone, Copy, Hash, PartialEq, Eq, Structural)]
pub struct Binding {
    pub binding: u32,
    pub kind: BindingKind,
    pub buffer: BufferRef,
}

/// How many workgroups one dispatch launches along each axis.
#[derive(Debug, Clone, Copy, Hash, PartialEq, Eq, Structural)]
pub struct Workgroups {
    pub x: u32,
    pub y: u32,
    pub z: u32,
}

/// One request to the device.
#[derive(Debug, PartialEq, Eq)]
pub enum Command {
    /// Compile the module of `shader` from its source text.
    CompileShader { shader: Shader },
    /// Create `target` with `size` bytes, not mapped at creation.
    CreateBuffer { target: BufferRef, size: u64, usage: BufferUsages },
    /// Create `target` holding `contents`.
    CreateBufferInit { target: BufferRef, contents: Vec<u8>, usage: BufferUsages },
    /// Encode a copy of `size` bytes between two buffers.
    CopyBufferToBuffer {
        source: BufferRef,
        source_offset: u64,
        destination: BufferRef,
        destination_offset: u64,
        size: u64,
    },
    /// Encode one compute pass: a pipeline made of `entry_point` of the
    /// module of `shader`, one bind group with `bindings`, and one dispatch
    /// of `workgroups`.
    Dispatch { shader: Shader, entry_point: String, bindings: Vec<Binding>, workgroups: Workgroups },
    /// Submit what has been encoded since the last submission.
    Submit,
    /// Ask for `buffer` to be mapped for reading.
    MapRead { buffer: BufferRef },
    /// Block until the device has retired all submitted work.
    Wait,
    /// Copy the mapped bytes of `buffer` out to the host.
    ReadMapped { buffer: BufferRef },
    /// Unmap `buffer`.
    Unmap { buffer: BufferRef },
    /// Release `buffer`.
    Release { buffer: BufferRef },
}

/// A command as specifications see it.
pub enum Op {
    CompileShader { shader: Shader },
    CreateBuffer { target: BufferRef, size: u64, usage: BufferUsages },
    CreateBufferInit { target: BufferRef, contents: Seq<u8>, usage: BufferUsages },
    CopyBufferToBuffer {
        source: BufferRef,
        source_offset: u64,
        destination: BufferRef,
        destination_offset: u64,
        size: u64,
    },
    Dispatch { shader: Shader, entry_point: Seq<char>, bindings: Seq<Binding>, workgroups: Workgroups },
    Submit,
    MapRead { buffer: BufferRef },
    Wait,
    ReadMapped { buffer: BufferRef },
    Unmap { buffer: BufferRef },
    Release { buffer: BufferRef },
}

impl View for Command {
    type V = Op;

    open spec fn view(&self) -> Op {
        match *self {
            Command::CompileShader { shader } => Op::CompileShader { shader },
            Command::CreateBuffer { target, size, usage } => Op::CreateBuffer { target, size, usage },
            Command::CreateBufferInit { target, contents, usage } => Op::CreateBufferInit {
                target,
                contents: contents@,
                usage,
            },
            Command::CopyBufferToBuffer {
                source,
                source_offset,
                destination,
                destination_offset,
                size,
            } => Op::CopyBufferToBuffer { source, source_offset, destination, destination_offset, size },
            Command::Dispatch { shader, entry_point, bindings, workgroups } => Op::Dispatch {
                shader,
                entry_point: entry_point@,
                bindings: bindings@,
                workgroups,
            },
            Command::Submit => Op::Submit,
            Command::MapRead { buffer } => Op::MapRead { buffer },
            Command::Wait => Op::Wait,
            Command::ReadMapped { buffer } => Op::ReadMapped { buffer },
            Command::Unmap { buffer } => Op::Unmap { buffer },
            Command::Release { buffer } => Op::Release { buffer },
        }
    }
}

/// The views of a list of commands, in order.
pub open spec fn ops_of(commands: Seq<Command>) -> Seq<Op> {
    commands.map_values(|c: Command| c@)
}

} // verus!
