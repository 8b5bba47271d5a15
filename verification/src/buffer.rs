//! Buffer handles, usages and registry records.

use vstd::prelude::*;

verus! {

/// Names one allocation of one buffer store.
///
/// A handle is valid only for the store that issued it: `gpu_id` is the
/// identity of that store's device and `index` the position of the
/// allocation in its registry.
#[derive(Debug, Clone, Copy, Hash, PartialEq, Eq, Structural)]
pub struct BufferHandle {
    pub gpu_id: usize,
    pub index: usize,
}

/// What a buffer may be used for on the device.
#[derive(Debug, Clone, Copy, Hash, PartialEq, Eq, Structural)]
pub struct BufferUsages {
    /// The host may map the buffer for reading.
    pub map_read: bool,
    /// The buffer may be the source of a copy.
    pub copy_src: bool,
    /// The buffer may be the destination of a copy.
    pub copy_dst: bool,
    /// The buffer may be bound as a uniform parameter block.
    pub uniform: bool,
    /// The buffer may be bound as a storage buffer.
    pub storage: bool,
}

impl BufferUsages {
    /// Usage of every registered buffer: storage, and both ends of a copy.
    pub open spec fn device_local() -> BufferUsages {
        BufferUsages {
            map_read: false,
            copy_src: true,
            copy_dst: true,
            uniform: false,
            storage: true,
        }
    }

    /// Usage of the staging buffer that carries host bytes to the device.
    pub open spec fn upload_staging() -> BufferUsages {
        BufferUsages {
            map_read: false,
            copy_src: true,
            copy_dst: false,
            uniform: false,
            storage: false,
        }
    }

    /// Usage of the staging buffer that the host maps to read a result.
    pub open spec fn read_staging() -> BufferUsages {
        BufferUsages {
            map_read: true,
            copy_src: false,
            copy_dst: true,
            uniform: false,
            storage: false,
        }
    }

    /// Usage of the buffer that holds a parameter block.
    pub open spec fn parameters() -> BufferUsages {
        BufferUsages {
            map_read: false,
            copy_src: false,
            copy_dst: false,
            uniform: true,
            storage: false,
        }
    }

    #[verifier::when_used_as_spec(device_local)]
    pub fn for_storage() -> (usage: BufferUsages)
        ensures
            usage == BufferUsages::device_local(),
    {
        BufferUsages {
            map_read: false,
            copy_src: true,
            copy_dst: true,
            uniform: false,
            storage: true,
        }
    }

    #[verifier::when_used_as_spec(upload_staging)]
    pub fn for_upload() -> (usage: BufferUsages)
        ensures
            usage == BufferUsages::upload_staging(),
    {
        BufferUsages {
            map_read: false,
            copy_src: true,
            copy_dst: false,
            uniform: false,
            storage: false,
        }
    }

    #[verifier::when_used_as_spec(read_staging)]
    pub fn for_read_back() -> (usage: BufferUsages)
        ensures
            usage == BufferUsages::read_staging(),
    {
        BufferUsages {
            map_read: true,
            copy_src: false,
            copy_dst: true,
            uniform: false,
            storage: false,
        }
    }

    #[verifier::when_used_as_spec(parameters)]
    pub fn for_parameters() -> (usage: BufferUsages)
        ensures
            usage == BufferUsages::parameters(),
    {
        BufferUsages {
            map_read: false,
            copy_src: false,
            copy_dst: false,
            uniform: true,
            storage: false,
        }
    }
}

/// What the registry remembers of one allocation. Every registered buffer
/// has the same usage, [`BufferUsages::device_local`].
#[derive(Debug, Clone, Copy, Hash, PartialEq, Eq, Structural)]
pub struct BufferRecord {
    /// Size of the allocation in bytes.
    pub size: u64,
}

/// A buffer as a command names it.
#[derive(Debug, Clone, Copy, Hash, PartialEq, Eq, Structural)]
pub enum BufferRef {
    /// A buffer of the registry.
    Registered(BufferHandle),
    /// The one transient buffer of the operation that is being recorded: a
    /// staging buffer or a parameter block. It is released before the
    /// operation's commands end.
    Scratch,
}

} // verus!
