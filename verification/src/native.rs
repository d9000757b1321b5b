//! Resource types of the immediate-mode backend.
//!
//! Native object names (buffers, textures, samplers, sync objects) are
//! opaque handles handed out by the driver; they are carried here as plain
//! integer tokens.  The descriptor-set types hold the recorded bindings
//! that the command recorder later replays.

use vstd::prelude::*;

use crate::conv::FilterMethod;
use crate::conv::WrapMode;
use crate::pso::Comparison;
use crate::pso::F32Bits;
use crate::remap::DescRemapData;

verus! {

/// A buffer object with its native name, bound target and byte size.
#[derive(Clone, Copy, Debug, PartialEq, Eq, Structural)]
pub struct Buffer {
    pub raw: u64,
    pub target: u32,
    pub size: u64,
}

/// The backend has no buffer views.
#[derive(Clone, Copy, Debug, PartialEq, Eq, Structural)]
pub struct BufferView;

/// Wraps a native CPU-observable sync object, created at end-of-submission.
#[derive(Clone, Copy, Debug, PartialEq, Eq, Structural)]
pub struct Fence {
    pub sync: u64,
}

impl Fence {
    pub fn new(sync: u64) -> (r: Fence)
        ensures
            r.sync == sync,
    {
        Fence { sync }
    }

    /// Replaces the wrapped sync object by the one a later submission
    /// created.
    pub fn replace(&mut self, sync: u64)
        ensures
            final(self).sync == sync,
    {
        self.sync = sync;
    }
}

/// No inter-queue synchronization is required for this backend.
#[derive(Clone, Copy, Debug, PartialEq, Eq, Structural)]
pub struct Semaphore;

/// Memory property bits of a heap or allocation.
pub const MEMORY_DEVICE_LOCAL: u32 = 0x1;

pub const MEMORY_CPU_VISIBLE: u32 = 0x2;

pub const MEMORY_COHERENT: u32 = 0x4;

pub const MEMORY_CPU_CACHED: u32 = 0x8;

/// A memory allocation: its property bits, the first buffer bound into it,
/// and its allocation size.
#[derive(Clone, Copy, Debug, PartialEq, Eq, Structural)]
pub struct Memory {
    pub properties: u32,
    pub first_bound_buffer: Option<u64>,
    pub size: u64,
}

impl Memory {
    /// The host may write through this allocation.
    pub open spec fn spec_can_upload(self) -> bool {
        self.properties & MEMORY_CPU_VISIBLE == MEMORY_CPU_VISIBLE
    }

    /// The host may read back through this allocation.
    pub open spec fn spec_can_download(self) -> bool {
        self.properties & (MEMORY_CPU_VISIBLE | MEMORY_CPU_CACHED) == (MEMORY_CPU_VISIBLE
            | MEMORY_CPU_CACHED)
    }

    pub fn can_upload(&self) -> (r: bool)
        ensures
            r == self.spec_can_upload(),
    {
        self.properties & MEMORY_CPU_VISIBLE == MEMORY_CPU_VISIBLE
    }

    pub fn can_download(&self) -> (r: bool)
        ensures
            r == self.spec_can_download(),
    {
        self.properties & (MEMORY_CPU_VISIBLE | MEMORY_CPU_CACHED) == (MEMORY_CPU_VISIBLE
            | MEMORY_CPU_CACHED)
    }

    /// Native mapping access bits of this allocation: readable when the
    /// host can download, writable when it can upload.
    pub fn map_flags(&self) -> (r: u32)
        ensures
            r == (if self.spec_can_download() {
                crate::glenum::GL_MAP_READ_BIT
            } else {
                0u32
            }) | (if self.spec_can_upload() {
                crate::glenum::GL_MAP_WRITE_BIT
            } else {
                0u32
            }),
    {
        let read = if self.can_download() {
            crate::glenum::GL_MAP_READ_BIT
        } else {
            0u32
        };
        let write = if self.can_upload() {
            crate::glenum::GL_MAP_WRITE_BIT
        } else {
            0u32
        };
        read | write
    }
}

/// An image is backed either by a default framebuffer surface or by a
/// texture object; the backend's resource shapes are fixed, so this is a
/// tagged variant dispatched by exhaustive match.
#[derive(Clone, Copy, Debug, PartialEq, Eq, Structural)]
pub enum ImageKind {
    Surface(u32),
    Texture(u64),
}

/// Channel interpretation of an image format, kept for clearing operations.
#[derive(Clone, Copy, Debug, PartialEq, Eq, Structural)]
pub enum ChannelType {
    Unorm,
    Snorm,
    Uint,
    Int,
    Float,
    Srgb,
}

/// An image with its backing and channel interpretation.
#[derive(Clone, Copy, Debug, PartialEq, Eq, Structural)]
pub struct Image {
    pub kind: ImageKind,
    pub channel: ChannelType,
}

/// Sampler description, stored whole for driver generations that lack
/// separate sampler objects.
#[derive(Clone, Copy, Debug, PartialEq, Eq, Structural)]
pub struct SamplerInfo {
    pub filter: FilterMethod,
    pub wrap_u: WrapMode,
    pub wrap_v: WrapMode,
    pub wrap_w: WrapMode,
    pub lod_bias: F32Bits,
    pub lod_min: F32Bits,
    pub lod_max: F32Bits,
    pub comparison: Option<Comparison>,
    pub border: u32,
}

/// Either a real sampler object or the stored description for older driver
/// generations without separate sampler objects.
#[derive(Clone, Copy, Debug, PartialEq, Eq, Structural)]
pub enum FatSampler {
    Sampler(u64),
    Info(SamplerInfo),
}

/// A view of an image: the surface itself, one mip level of a texture, or
/// one layer of one mip level.
#[derive(Clone, Copy, Debug, PartialEq, Eq, Structural)]
pub enum ImageView {
    Surface(u32),
    Texture(u64, u8),
    TextureLayer(u64, u8, u16),
}

/// Descriptor classes of the portable API.
#[derive(Clone, Copy, Debug, PartialEq, Eq, Structural)]
pub enum DescriptorType {
    Sampler,
    CombinedImageSampler,
    SampledImage,
    StorageImage,
    UniformTexelBuffer,
    StorageTexelBuffer,
    UniformBuffer,
    StorageBuffer,
    UniformBufferDynamic,
    StorageBufferDynamic,
    InputAttachment,
}

/// One binding descriptor of a set layout: binding number, resource class,
/// array count and shader-stage visibility.
#[derive(Clone, Copy, Debug, PartialEq, Eq, Structural)]
pub struct DescriptorSetLayoutBinding {
    pub binding: u32,
    pub ty: DescriptorType,
    pub count: usize,
    pub stage_flags: u32,
}

/// A set layout is its ordered list of binding descriptors, immutable after
/// creation.
pub type DescriptorSetLayout = Vec<DescriptorSetLayoutBinding>;

/// One recorded resource assignment of a descriptor set.
#[derive(Clone, Copy, Debug, PartialEq, Eq, Structural)]
pub enum DescSetBindings {
    Buffer { ty: crate::remap::BindingTypes, binding: u32, buffer: u64, offset: i64, size: i64 },
    Texture(u32, u64),
    Sampler(u32, u64),
    SamplerInfo(u32, SamplerInfo),
}

/// A descriptor set: its layout and the current resource assignments.  The
/// assignments may be rewritten while an earlier recording still refers to
/// the set; callers serialize such rewrites.
#[derive(Clone, Debug)]
pub struct DescriptorSet {
    pub layout: DescriptorSetLayout,
    pub bindings: Vec<DescSetBindings>,
}

/// Typed allocation failures of a descriptor pool.
#[derive(Clone, Copy, Debug, PartialEq, Eq, Structural)]
pub enum AllocationError {
    OutOfHostMemory,
    OutOfPoolMemory,
    FragmentedPool,
    IncompatibleLayout,
}

/// The backend needs no pool state: sets are plain values.
#[derive(Clone, Copy, Debug, PartialEq, Eq, Structural)]
pub struct DescriptorPool;

impl DescriptorPool {
    /// Allocating a set always succeeds: the fresh set carries the layout
    /// and no assignments yet.
    pub fn allocate_set(&mut self, layout: &DescriptorSetLayout) -> (r: Result<
        DescriptorSet,
        AllocationError,
    >)
        ensures
            r matches Ok(set) && set.layout@ == layout@ && set.bindings@ == Seq::<
                DescSetBindings,
            >::empty(),
    {
        let layout_copy = copy_layout(layout);
        Ok(DescriptorSet { layout: layout_copy, bindings: Vec::new() })
    }

    /// Freeing sets does nothing: the backend has no pool-resident state.
    pub fn free_sets(&mut self, descriptor_sets: Vec<DescriptorSet>)
        ensures
            *final(self) == *old(self),
    {
        let _ = descriptor_sets;
    }

    /// Resetting does nothing for the same reason.
    pub fn reset(&mut self)
        ensures
            *final(self) == *old(self),
    {
    }
}

/// Element-wise copy of a set layout.
fn copy_layout(v: &DescriptorSetLayout) -> (r: DescriptorSetLayout)
    ensures
        r@ == v@,
{
    let mut r: DescriptorSetLayout = Vec::new();
    let n = v.len();
    let mut i: usize = 0;
    while i < n
        invariant
            i <= n,
            n == v@.len(),
            r@ =~= v@.subrange(0, i as int),
        decreases n - i,
    {
        r.push(v[i]);
        i = i + 1;
    }
    proof {
        assert(r@ =~= v@);
    }
    r
}

/// Load/store behavior of one render-pass attachment, with its format code.
#[derive(Clone, Copy, Debug, PartialEq, Eq, Structural)]
pub struct Attachment {
    pub format: Option<u32>,
}

/// One sub-pass: the indices of the attachments it draws to.
#[derive(Clone, Debug)]
pub struct SubpassDesc {
    pub color_attachments: Vec<usize>,
}

impl SubpassDesc {
    /// Whether the sub-pass uses the given attachment.
    pub fn is_using(&self, at_id: usize) -> (r: bool)
        ensures
            r == self.color_attachments@.contains(at_id),
    {
        let n = self.color_attachments.len();
        let mut i: usize = 0;
        while i < n
            invariant
                i <= n,
                n == self.color_attachments@.len(),
                forall|j: int| 0 <= j < i ==> self.color_attachments@[j] != at_id,
            decreases n - i,
        {
            if self.color_attachments[i] == at_id {
                proof {
                    assert(self.color_attachments@[i as int] == at_id);
                }
                return true;
            }
            i = i + 1;
        }
        false
    }
}

/// A render pass: its attachments and sub-passes.
#[derive(Clone, Debug)]
pub struct RenderPass {
    pub attachments: Vec<Attachment>,
    pub subpasses: Vec<SubpassDesc>,
}

/// A pipeline layout owns the binding remap table shared by every set and
/// pipeline derived from it; the table is append-only after construction.
pub struct PipelineLayout {
    pub desc_remap_data: DescRemapData,
}

/// Which attribute-fetch call applies to a vertex attribute: the native
/// call differs by component representation.
#[derive(Clone, Copy, Debug, PartialEq, Eq, Structural)]
pub enum VertexAttribFunction {
    Float,
    Integer,
    Double,
}

/// One vertex attribute: shader location, byte offset, vertex-buffer
/// binding index, component count, native format enumerant and fetch
/// variant.
#[derive(Clone, Copy, Debug, PartialEq, Eq, Structural)]
pub struct AttributeDesc {
    pub location: u32,
    pub offset: u32,
    pub binding: u32,
    pub size: i32,
    pub format: u32,
    pub vertex_attrib_fn: VertexAttribFunction,
}

/// One vertex buffer slot of a pipeline: binding index, stride and
/// per-instance rate.
#[derive(Clone, Copy, Debug, PartialEq, Eq, Structural)]
pub struct VertexBufferDesc {
    pub binding: u32,
    pub stride: u32,
    pub rate: u8,
}

/// A compute pipeline: the linked native program.
#[derive(Clone, Copy, Debug, PartialEq, Eq, Structural)]
pub struct ComputePipeline {
    pub program: u64,
}

/// A graphics pipeline: the linked native program plus every captured
/// fixed-function field the state applier replays at bind time.
#[derive(Clone, Debug)]
pub struct GraphicsPipeline {
    pub program: u64,
    pub primitive: u32,
    pub patch_size: Option<i32>,
    pub blend_targets: Vec<crate::pso::ColorBlendDesc>,
    pub attributes: Vec<AttributeDesc>,
    pub vertex_buffers: Vec<Option<VertexBufferDesc>>,
}

/// A shader module: either a native shader object or portable intermediate
/// code still to be translated.
#[derive(Clone, Debug)]
pub enum ShaderModule {
    Raw(u64),
    Spirv(Vec<u8>),
}

} // verus!
