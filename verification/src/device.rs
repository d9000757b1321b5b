//! Physical device, device opening, and native error classification for the
//! immediate-mode backend.
//!
//! The native context is exclusive: at most one logical device may be open
//! per physical device at a time, and a second open is refused with a typed,
//! recoverable error rather than corrupting the shared context.

use vstd::prelude::*;

use crate::glenum::{
    GL_NO_ERROR, GL_INVALID_ENUM, GL_INVALID_VALUE, GL_INVALID_OPERATION,
    GL_INVALID_FRAMEBUFFER_OPERATION, GL_OUT_OF_MEMORY, GL_FRAMEBUFFER_SRGB, GL_UNPACK_ALIGNMENT,
    GL_PROGRAM_POINT_SIZE,
};
use crate::native::{MEMORY_DEVICE_LOCAL, MEMORY_CPU_VISIBLE, MEMORY_COHERENT, MEMORY_CPU_CACHED};
use crate::state::GlCommand;

verus! {

/// Native error codes, mapped to a closed taxonomy.
#[derive(Clone, Copy, Debug, PartialEq, Eq, Structural)]
pub enum Error {
    NoError,
    InvalidEnum,
    InvalidValue,
    InvalidOperation,
    InvalidFramebufferOperation,
    OutOfMemory,
    UnknownError,
}

/// The typed form of a native error code; every code the standard does not
/// name maps to the unknown error.
pub open spec fn spec_from_error_code(error_code: u32) -> Error {
    if error_code == GL_NO_ERROR {
        Error::NoError
    } else if error_code == GL_INVALID_ENUM {
        Error::InvalidEnum
    } else if error_code == GL_INVALID_VALUE {
        Error::InvalidValue
    } else if error_code == GL_INVALID_OPERATION {
        Error::InvalidOperation
    } else if error_code == GL_INVALID_FRAMEBUFFER_OPERATION {
        Error::InvalidFramebufferOperation
    } else if error_code == GL_OUT_OF_MEMORY {
        Error::OutOfMemory
    } else {
        Error::UnknownError
    }
}

impl Error {
    pub fn from_error_code(error_code: u32) -> (r: Error)
        ensures
            r == spec_from_error_code(error_code),
    {
        if error_code == GL_NO_ERROR {
            Error::NoError
        } else if error_code == GL_INVALID_ENUM {
            Error::InvalidEnum
        } else if error_code == GL_INVALID_VALUE {
            Error::InvalidValue
        } else if error_code == GL_INVALID_OPERATION {
            Error::InvalidOperation
        } else if error_code == GL_INVALID_FRAMEBUFFER_OPERATION {
            Error::InvalidFramebufferOperation
        } else if error_code == GL_OUT_OF_MEMORY {
            Error::OutOfMemory
        } else {
            Error::UnknownError
        }
    }
}

/// Classifies the error code a debug build queried right after a
/// state-changing call: the no-error code passes, anything else surfaces as
/// its typed error.
pub fn check_error_code(error_code: u32) -> (r: Result<(), Error>)
    ensures
        r is Ok <==> error_code == GL_NO_ERROR,
        r matches Err(e) ==> e == spec_from_error_code(error_code) && e != Error::NoError,
{
    let err = Error::from_error_code(error_code);
    if err != Error::NoError {
        return Err(err);
    }
    Ok(())
}

/// Feature bits of older context generations, queried once at adapter
/// creation.
pub const LEGACY_SRGB_COLOR: u32 = 0x1;

pub const LEGACY_CONSTANT_BUFFER: u32 = 0x2;

pub const LEGACY_SAMPLER_OBJECTS: u32 = 0x4;

/// Device limits the backend advertises, queried once at adapter creation;
/// plain values the translation core hands through unchanged.
#[derive(Clone, Copy, Debug, PartialEq, Eq, Structural)]
pub struct Limits {
    pub max_texture_size: usize,
    pub max_patch_size: u8,
    pub max_viewports: usize,
    pub min_buffer_copy_offset_alignment: usize,
    pub min_buffer_copy_pitch_alignment: usize,
}

/// Capability facts of the shared context that device opening reads, the
/// advertised feature bits and limits handed through to callers, and the
/// exclusivity flag: whether a logical device is currently open.
#[derive(Clone, Copy, Debug, PartialEq, Eq, Structural)]
pub struct Share {
    pub legacy_features: u32,
    pub features: u64,
    pub limits: Limits,
    pub is_embedded: bool,
    pub vertex_array: bool,
    pub private_map: bool,
    pub open: bool,
}

impl Share {
    /// Whether the context offers gamma-correct framebuffers.
    pub open spec fn spec_srgb_color(self) -> bool {
        self.legacy_features & LEGACY_SRGB_COLOR != 0
    }
}

/// Typed device-creation failures, returned for the caller to handle.
#[derive(Clone, Copy, Debug, PartialEq, Eq, Structural)]
pub enum DeviceCreationError {
    OutOfMemory,
    DeviceLost,
    InitializationFailed,
    MissingExtension,
    MissingFeature,
    TooManyObjects,
}

/// A freshly opened logical device: the vertex-array object bound for the
/// context, and one queue per requested family.
#[derive(Clone, Copy, Debug, PartialEq, Eq, Structural)]
pub struct OpenedDevice {
    pub vao: u32,
    pub queue_count: usize,
}

/// The share after a successful open.
pub open spec fn spec_open_share(s: Share) -> Share {
    Share { open: true, ..s }
}

/// Outcome of opening a logical device on a share: refused with the
/// too-many-objects error while one is already open, granted otherwise.
pub open spec fn spec_open_outcome(s: Share) -> Result<Share, DeviceCreationError> {
    if s.open {
        Err(DeviceCreationError::TooManyObjects)
    } else {
        Ok(spec_open_share(s))
    }
}

/// The permanent-state calls a successful open performs: gamma-correct
/// framebuffers when the context offers them, byte-aligned unpacking,
/// program point size on non-embedded targets, and the main vertex-array
/// object where the context supports one.
pub open spec fn spec_open_commands(s: Share, fresh_vao: u32) -> Seq<GlCommand> {
    let srgb = if s.spec_srgb_color() {
        seq![GlCommand::Enable(GL_FRAMEBUFFER_SRGB)]
    } else {
        Seq::empty()
    };
    let point_size = if !s.is_embedded {
        seq![GlCommand::Enable(GL_PROGRAM_POINT_SIZE)]
    } else {
        Seq::empty()
    };
    let vao = if s.vertex_array {
        seq![GlCommand::CreateVertexArray(fresh_vao), GlCommand::BindVertexArray(fresh_vao)]
    } else {
        Seq::empty()
    };
    srgb + seq![GlCommand::PixelStorei(GL_UNPACK_ALIGNMENT, 1)] + point_size + vao
}

/// The physical device: the shared context record.
#[derive(Clone, Copy, Debug, PartialEq, Eq, Structural)]
pub struct PhysicalDevice {
    pub share: Share,
}

impl PhysicalDevice {
    /// Opens a logical device.
    ///
    /// `queue_priorities` holds, per requested queue family, how many
    /// priorities the caller supplied; the backend supports exactly one
    /// queue per family.  `fresh_vao` is the vertex-array name the create
    /// call will yield; it is bound only where the context supports
    /// vertex arrays, else the device reports the default object `0`.
    ///
    /// While a logical device is already open the call fails with the
    /// too-many-objects error and changes nothing; the caller may retry
    /// after closing the open device.
    pub fn open(&mut self, queue_priorities: &Vec<usize>, fresh_vao: u32) -> (r: Result<
        (OpenedDevice, Vec<GlCommand>),
        DeviceCreationError,
    >)
        requires
            forall|i: int| 0 <= i < queue_priorities@.len() ==> queue_priorities@[i] == 1,
        ensures
            old(self).share.open ==> r == Err::<(OpenedDevice, Vec<GlCommand>), DeviceCreationError>(
                DeviceCreationError::TooManyObjects,
            ) && *final(self) == *old(self),
            !old(self).share.open ==> (r matches Ok((device, cmds))
                && final(self).share == spec_open_share(old(self).share)
                && device.vao == (if old(self).share.vertex_array { fresh_vao } else { 0u32 })
                && device.queue_count == queue_priorities@.len()
                && cmds@ == spec_open_commands(old(self).share, fresh_vao)),
            r is Ok <==> spec_open_outcome(old(self).share) is Ok,
    {
        if self.share.open {
            return Err(DeviceCreationError::TooManyObjects);
        }
        self.share.open = true;

        let mut cmds: Vec<GlCommand> = Vec::new();
        if self.share.legacy_features & LEGACY_SRGB_COLOR != 0 {
            cmds.push(GlCommand::Enable(GL_FRAMEBUFFER_SRGB));
        }
        cmds.push(GlCommand::PixelStorei(GL_UNPACK_ALIGNMENT, 1));
        if !self.share.is_embedded {
            cmds.push(GlCommand::Enable(GL_PROGRAM_POINT_SIZE));
        }
        let vao: u32 = if self.share.vertex_array {
            cmds.push(GlCommand::CreateVertexArray(fresh_vao));
            cmds.push(GlCommand::BindVertexArray(fresh_vao));
            fresh_vao
        } else {
            0
        };
        proof {
            assert(cmds@ =~= spec_open_commands(old(self).share, fresh_vao));
        }
        Ok((OpenedDevice { vao, queue_count: queue_priorities.len() }, cmds))
    }

    /// The context's legacy feature bits.
    pub fn legacy_features(&self) -> (r: u32)
        ensures
            r == self.share.legacy_features,
    {
        self.share.legacy_features
    }

    /// The feature bits the device advertises.
    pub fn features(&self) -> (r: u64)
        ensures
            r == self.share.features,
    {
        self.share.features
    }

    /// The limits the device advertises.
    pub fn limits(&self) -> (r: Limits)
        ensures
            r == self.share.limits,
    {
        self.share.limits
    }

    /// Marks the logical device closed again, as dropping it does.
    pub fn close(&mut self)
        ensures
            final(self).share == (Share { open: false, ..old(self).share }),
    {
        self.share.open = false;
    }
}

/// Opening a device twice on one physical device without closing the first:
/// the first open is granted, the second is refused with the
/// too-many-objects error.
pub proof fn lemma_second_open_too_many(s: Share)
    requires
        !s.open,
    ensures
        (spec_open_outcome(s) matches Ok(s1) && spec_open_outcome(s1)
            == Err::<Share, DeviceCreationError>(DeviceCreationError::TooManyObjects)),
{
}

/// One memory type the backend advertises.
#[derive(Clone, Copy, Debug, PartialEq, Eq, Structural)]
pub struct MemoryType {
    pub properties: u32,
    pub heap_index: usize,
}

/// Everything the backend advertises about memory.
#[derive(Clone, Debug)]
pub struct MemoryProperties {
    pub memory_types: Vec<MemoryType>,
    pub memory_heaps: Vec<u64>,
}

/// The advertised memory types: with host mapping, a device-local type plus
/// an upload and a download type; without, the device-local type alone.
pub open spec fn spec_memory_types(private_map: bool) -> Seq<MemoryType> {
    if private_map {
        seq![
            MemoryType { properties: MEMORY_DEVICE_LOCAL, heap_index: 1 },
            MemoryType { properties: MEMORY_CPU_VISIBLE | MEMORY_COHERENT, heap_index: 0 },
            MemoryType {
                properties: MEMORY_CPU_VISIBLE | MEMORY_COHERENT | MEMORY_CPU_CACHED,
                heap_index: 0,
            },
        ]
    } else {
        seq![MemoryType { properties: MEMORY_DEVICE_LOCAL, heap_index: 0 }]
    }
}

impl PhysicalDevice {
    /// Memory types and heaps of this device, decided by whether the
    /// context can map host memory.
    pub fn memory_properties(&self) -> (r: MemoryProperties)
        ensures
            r.memory_types@ == spec_memory_types(self.share.private_map),
            r.memory_heaps@ == seq![u64::MAX, u64::MAX],
    {
        let mut memory_types: Vec<MemoryType> = Vec::new();
        if self.share.private_map {
            memory_types.push(MemoryType { properties: MEMORY_DEVICE_LOCAL, heap_index: 1 });
            memory_types.push(MemoryType {
                properties: MEMORY_CPU_VISIBLE | MEMORY_COHERENT,
                heap_index: 0,
            });
            memory_types.push(MemoryType {
                properties: MEMORY_CPU_VISIBLE | MEMORY_COHERENT | MEMORY_CPU_CACHED,
                heap_index: 0,
            });
        } else {
            memory_types.push(MemoryType { properties: MEMORY_DEVICE_LOCAL, heap_index: 0 });
        }
        let mut memory_heaps: Vec<u64> = Vec::new();
        memory_heaps.push(u64::MAX);
        memory_heaps.push(u64::MAX);
        proof {
            assert(memory_types@ =~= spec_memory_types(self.share.private_map));
            assert(memory_heaps@ =~= seq![u64::MAX, u64::MAX]);
        }
        MemoryProperties { memory_types, memory_heaps }
    }
}

/// What the platform reports about an adapter.
#[derive(Clone, Debug)]
pub struct AdapterInfo {
    pub name: String,
    pub vendor: usize,
    pub device: usize,
}

/// An adapter: what was queried about it, and the physical device around
/// the shared context.
#[derive(Clone, Debug)]
pub struct Adapter {
    pub info: AdapterInfo,
    pub physical_device: PhysicalDevice,
}

impl PhysicalDevice {
    /// Assembles an adapter from the facts the native shim queried of a
    /// freshly loaded context: the exclusivity flag starts closed, and the
    /// adapter reports the renderer name with unknown vendor and device
    /// identifiers.
    pub fn new_adapter(
        legacy_features: u32,
        features: u64,
        limits: Limits,
        is_embedded: bool,
        vertex_array: bool,
        private_map: bool,
        name: String,
    ) -> (r: Adapter)
        ensures
            r.physical_device.share == (Share {
                legacy_features,
                features,
                limits,
                is_embedded,
                vertex_array,
                private_map,
                open: false,
            }),
            r.info.name@ == name@,
            r.info.vendor == 0,
            r.info.device == 0,
    {
        Adapter {
            info: AdapterInfo { name, vendor: 0, device: 0 },
            physical_device: PhysicalDevice {
                share: Share {
                    legacy_features,
                    features,
                    limits,
                    is_embedded,
                    vertex_array,
                    private_map,
                    open: false,
                },
            },
        }
    }
}

/// Queue kinds the portable API distinguishes.
#[derive(Clone, Copy, Debug, PartialEq, Eq, Structural)]
pub enum QueueType {
    General,
    Graphics,
    Compute,
    Transfer,
}

/// The backend's one queue family: general-purpose, a single queue.
#[derive(Clone, Copy, Debug, PartialEq, Eq, Structural)]
pub struct QueueFamily;

impl QueueFamily {
    pub fn queue_type(&self) -> (r: QueueType)
        ensures
            r == QueueType::General,
    {
        QueueType::General
    }

    pub fn max_queues(&self) -> (r: usize)
        ensures
            r == 1,
    {
        1
    }

    pub fn id(&self) -> (r: usize)
        ensures
            r == 0,
    {
        0
    }
}

} // verus!
