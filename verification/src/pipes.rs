//! Service pipelines of the retained backend.
//!
//! The backend keeps a small set of helper pipelines of its own — blit
//! pipelines cached per image format, a buffer-fill compute pipeline, and
//! one sampler per filter — created once from its shader library.  The
//! native objects are carried as plain tokens; creating them is the native
//! shim's part, while the cache logic here decides when one is created.

use vstd::prelude::*;

verus! {

/// Sampler filter kinds the helper pipelines distinguish.
#[derive(Clone, Copy, Debug, PartialEq, Eq, Structural)]
pub enum Filter {
    Nearest,
    Linear,
}

/// The helper shader entry points of the backend's library.
#[derive(Clone, Copy, Debug, PartialEq, Eq, Structural)]
pub enum PipeFunction {
    VsBlit,
    PsBlit,
    CsFillBuffer,
}

/// One native call that builds a helper object: descriptor construction,
/// descriptor fields, and the creation calls, each recording the token the
/// created object is known by.
#[derive(Clone, Copy, Debug, PartialEq, Eq, Structural)]
pub enum PipeSetupAction {
    NewSamplerDescriptor(u64),
    SetSamplerMinFilter(u64, Filter),
    SetSamplerMagFilter(u64, Filter),
    SetSamplerMipFilterNearest(u64),
    NewSampler(u64, u64, u64),
    NewRenderPipelineDescriptor(u64),
    SetInputPrimitiveTopologyTriangle(u64),
    GetFunction(u64, PipeFunction, u64),
    SetVertexFunction(u64, u64),
    SetFragmentFunction(u64, u64),
    SetColorAttachmentFormat(u64, usize, u32),
    NewVertexDescriptor(u64),
    SetVertexLayoutStride(u64, usize, u64),
    SetVertexAttributeFloat4(u64, usize, usize, u64),
    SetVertexDescriptor(u64, u64),
    NewRenderPipelineState(u64, u64, u64),
    NewComputePipelineDescriptor(u64),
    SetComputeFunction(u64, u64),
    NewComputePipelineState(u64, u64, u64),
}

/// A blit vertex carries two four-float attributes, sixteen bytes each.
pub const BLIT_VERTEX_STRIDE: u64 = 32;

pub const BLIT_ATTRIBUTE_SIZE: u64 = 16;

/// The tokens the native creation calls of one blit pipeline will yield.
#[derive(Clone, Copy, Debug, PartialEq, Eq, Structural)]
pub struct BlitFresh {
    pub descriptor: u64,
    pub vertex_function: u64,
    pub fragment_function: u64,
    pub vertex_descriptor: u64,
    pub pipeline: u64,
}

/// The tokens the native creation calls of the fill pipeline will yield.
#[derive(Clone, Copy, Debug, PartialEq, Eq, Structural)]
pub struct FillFresh {
    pub descriptor: u64,
    pub compute_function: u64,
    pub pipeline: u64,
}

/// The calls that create the two samplers from one reused descriptor:
/// nearest filtering first, then the descriptor rewritten to linear.
pub open spec fn spec_sampler_setup_actions(
    device: u64,
    sampler_descriptor: u64,
    nearest: u64,
    linear: u64,
) -> Seq<PipeSetupAction> {
    seq![
        PipeSetupAction::NewSamplerDescriptor(sampler_descriptor),
        PipeSetupAction::SetSamplerMinFilter(sampler_descriptor, Filter::Nearest),
        PipeSetupAction::SetSamplerMagFilter(sampler_descriptor, Filter::Nearest),
        PipeSetupAction::SetSamplerMipFilterNearest(sampler_descriptor),
        PipeSetupAction::NewSampler(device, sampler_descriptor, nearest),
        PipeSetupAction::SetSamplerMinFilter(sampler_descriptor, Filter::Linear),
        PipeSetupAction::SetSamplerMagFilter(sampler_descriptor, Filter::Linear),
        PipeSetupAction::NewSampler(device, sampler_descriptor, linear),
    ]
}

/// The calls that build one blit pipeline for a format: a triangle-topology
/// pipeline descriptor around the library's blit shaders, the attachment's
/// format, and a vertex layout of two four-float attributes.
pub open spec fn spec_create_blit_actions(
    format: u32,
    library: u64,
    device: u64,
    f: BlitFresh,
) -> Seq<PipeSetupAction> {
    seq![
        PipeSetupAction::NewRenderPipelineDescriptor(f.descriptor),
        PipeSetupAction::SetInputPrimitiveTopologyTriangle(f.descriptor),
        PipeSetupAction::GetFunction(library, PipeFunction::VsBlit, f.vertex_function),
        PipeSetupAction::GetFunction(library, PipeFunction::PsBlit, f.fragment_function),
        PipeSetupAction::SetVertexFunction(f.descriptor, f.vertex_function),
        PipeSetupAction::SetFragmentFunction(f.descriptor, f.fragment_function),
        PipeSetupAction::SetColorAttachmentFormat(f.descriptor, 0, format),
        PipeSetupAction::NewVertexDescriptor(f.vertex_descriptor),
        PipeSetupAction::SetVertexLayoutStride(f.vertex_descriptor, 0, BLIT_VERTEX_STRIDE),
        PipeSetupAction::SetVertexAttributeFloat4(f.vertex_descriptor, 0, 0, 0),
        PipeSetupAction::SetVertexAttributeFloat4(f.vertex_descriptor, 1, 0, BLIT_ATTRIBUTE_SIZE),
        PipeSetupAction::SetVertexDescriptor(f.descriptor, f.vertex_descriptor),
        PipeSetupAction::NewRenderPipelineState(device, f.descriptor, f.pipeline),
    ]
}

/// The calls that build the buffer-fill compute pipeline around the
/// library's fill shader.
pub open spec fn spec_create_fill_buffer_actions(library: u64, device: u64, f: FillFresh) -> Seq<
    PipeSetupAction,
> {
    seq![
        PipeSetupAction::NewComputePipelineDescriptor(f.descriptor),
        PipeSetupAction::GetFunction(library, PipeFunction::CsFillBuffer, f.compute_function),
        PipeSetupAction::SetComputeFunction(f.descriptor, f.compute_function),
        PipeSetupAction::NewComputePipelineState(device, f.descriptor, f.pipeline),
    ]
}

/// Builds one blit pipeline for a format, yielding its token and the
/// native calls that create it.
fn create_blit(format: u32, library: u64, device: u64, f: BlitFresh) -> (r: (
    u64,
    Vec<PipeSetupAction>,
))
    ensures
        r.0 == f.pipeline,
        r.1@ == spec_create_blit_actions(format, library, device, f),
{
    let mut actions: Vec<PipeSetupAction> = Vec::new();
    actions.push(PipeSetupAction::NewRenderPipelineDescriptor(f.descriptor));
    actions.push(PipeSetupAction::SetInputPrimitiveTopologyTriangle(f.descriptor));
    actions.push(PipeSetupAction::GetFunction(library, PipeFunction::VsBlit, f.vertex_function));
    actions.push(PipeSetupAction::GetFunction(library, PipeFunction::PsBlit, f.fragment_function));
    actions.push(PipeSetupAction::SetVertexFunction(f.descriptor, f.vertex_function));
    actions.push(PipeSetupAction::SetFragmentFunction(f.descriptor, f.fragment_function));
    actions.push(PipeSetupAction::SetColorAttachmentFormat(f.descriptor, 0, format));
    actions.push(PipeSetupAction::NewVertexDescriptor(f.vertex_descriptor));
    actions.push(PipeSetupAction::SetVertexLayoutStride(f.vertex_descriptor, 0, BLIT_VERTEX_STRIDE));
    actions.push(PipeSetupAction::SetVertexAttributeFloat4(f.vertex_descriptor, 0, 0, 0));
    actions.push(PipeSetupAction::SetVertexAttributeFloat4(
        f.vertex_descriptor,
        1,
        0,
        BLIT_ATTRIBUTE_SIZE,
    ));
    actions.push(PipeSetupAction::SetVertexDescriptor(f.descriptor, f.vertex_descriptor));
    actions.push(PipeSetupAction::NewRenderPipelineState(device, f.descriptor, f.pipeline));
    proof {
        assert(actions@ =~= spec_create_blit_actions(format, library, device, f));
    }
    (f.pipeline, actions)
}

/// Builds the buffer-fill pipeline, yielding its token and the native
/// calls that create it.
fn create_fill_buffer(library: u64, device: u64, f: FillFresh) -> (r: (u64, Vec<PipeSetupAction>))
    ensures
        r.0 == f.pipeline,
        r.1@ == spec_create_fill_buffer_actions(library, device, f),
{
    let mut actions: Vec<PipeSetupAction> = Vec::new();
    actions.push(PipeSetupAction::NewComputePipelineDescriptor(f.descriptor));
    actions.push(PipeSetupAction::GetFunction(library, PipeFunction::CsFillBuffer, f.compute_function));
    actions.push(PipeSetupAction::SetComputeFunction(f.descriptor, f.compute_function));
    actions.push(PipeSetupAction::NewComputePipelineState(device, f.descriptor, f.pipeline));
    proof {
        assert(actions@ =~= spec_create_fill_buffer_actions(library, device, f));
    }
    (f.pipeline, actions)
}

/// The blit pipeline cached for a format, if one was created.
pub open spec fn spec_blit_lookup(blits: Seq<(u32, u64)>, format: u32) -> Option<u64>
    decreases blits.len(),
{
    if blits.len() == 0 {
        None
    } else if blits[0].0 == format {
        Some(blits[0].1)
    } else {
        spec_blit_lookup(blits.drop_first(), format)
    }
}

proof fn lemma_blit_lookup_none(blits: Seq<(u32, u64)>, format: u32)
    requires
        spec_blit_lookup(blits, format) is None,
    ensures
        forall|i: int| 0 <= i < blits.len() ==> (#[trigger] blits[i]).0 != format,
    decreases blits.len(),
{
    if blits.len() > 0 {
        lemma_blit_lookup_none(blits.drop_first(), format);
        assert forall|i: int| 0 <= i < blits.len() implies (#[trigger] blits[i]).0 != format by {
            if i > 0 {
                assert(blits.drop_first()[i - 1] == blits[i]);
            }
        }
    }
}

/// The helper pipelines: the shader library, one sampler per filter, the
/// per-format blit pipeline cache, and the buffer-fill pipeline.
pub struct ServicePipes {
    pub library: u64,
    pub sampler_nearest: u64,
    pub sampler_linear: u64,
    pub blits: Vec<(u32, u64)>,
    pub fill_buffer: u64,
}

impl ServicePipes {
    /// The cache never holds two pipelines for one format.
    pub open spec fn wf(&self) -> bool {
        forall|i: int, j: int|
            0 <= i < j < self.blits@.len() ==> (#[trigger] self.blits@[i]).0 != (
            #[trigger] self.blits@[j]).0
    }

    /// The cached blit pipeline of a format, if any.
    pub open spec fn spec_blit(&self, format: u32) -> Option<u64> {
        spec_blit_lookup(self.blits@, format)
    }

    /// Fresh helper pipelines around the backend's shader library, whose
    /// loading is the native shim's part: creates the nearest and linear
    /// samplers from one reused descriptor and the buffer-fill pipeline,
    /// yielding the calls that create them.  The blit cache starts empty.
    pub fn new(
        device: u64,
        library: u64,
        sampler_descriptor: u64,
        sampler_nearest: u64,
        sampler_linear: u64,
        fill: FillFresh,
    ) -> (r: (ServicePipes, Vec<PipeSetupAction>))
        ensures
            r.0.wf(),
            r.0.library == library,
            r.0.sampler_nearest == sampler_nearest,
            r.0.sampler_linear == sampler_linear,
            r.0.fill_buffer == fill.pipeline,
            forall|format: u32| r.0.spec_blit(format) is None,
            r.1@ == spec_sampler_setup_actions(device, sampler_descriptor, sampler_nearest, sampler_linear)
                + spec_create_fill_buffer_actions(library, device, fill),
    {
        let mut actions: Vec<PipeSetupAction> = Vec::new();
        actions.push(PipeSetupAction::NewSamplerDescriptor(sampler_descriptor));
        actions.push(PipeSetupAction::SetSamplerMinFilter(sampler_descriptor, Filter::Nearest));
        actions.push(PipeSetupAction::SetSamplerMagFilter(sampler_descriptor, Filter::Nearest));
        actions.push(PipeSetupAction::SetSamplerMipFilterNearest(sampler_descriptor));
        actions.push(PipeSetupAction::NewSampler(device, sampler_descriptor, sampler_nearest));
        actions.push(PipeSetupAction::SetSamplerMinFilter(sampler_descriptor, Filter::Linear));
        actions.push(PipeSetupAction::SetSamplerMagFilter(sampler_descriptor, Filter::Linear));
        actions.push(PipeSetupAction::NewSampler(device, sampler_descriptor, sampler_linear));
        let (fill_buffer, fill_actions) = create_fill_buffer(library, device, fill);
        let n = fill_actions.len();
        let ghost base = actions@;
        let mut i: usize = 0;
        while i < n
            invariant
                i <= n,
                n == fill_actions@.len(),
                actions@ =~= base + fill_actions@.subrange(0, i as int),
            decreases n - i,
        {
            actions.push(fill_actions[i]);
            i = i + 1;
        }
        proof {
            assert(actions@ =~= spec_sampler_setup_actions(
                device,
                sampler_descriptor,
                sampler_nearest,
                sampler_linear,
            ) + spec_create_fill_buffer_actions(library, device, fill));
        }
        (
            ServicePipes {
                library,
                sampler_nearest,
                sampler_linear,
                blits: Vec::new(),
                fill_buffer,
            },
            actions,
        )
    }

    /// The sampler matching a filter.
    pub fn get_sampler(&self, filter: Filter) -> (r: u64)
        ensures
            r == (match filter {
                Filter::Nearest => self.sampler_nearest,
                Filter::Linear => self.sampler_linear,
            }),
    {
        match filter {
            Filter::Nearest => self.sampler_nearest,
            Filter::Linear => self.sampler_linear,
        }
    }

    /// The blit pipeline of a format: the cached one when the format was
    /// seen before — the cache is untouched and nothing is created — else
    /// the pipeline freshly built by the creation calls, recorded for the
    /// format.
    pub fn get_blit(&mut self, format: u32, device: u64, fresh: BlitFresh) -> (r: (
        u64,
        Vec<PipeSetupAction>,
    ))
        requires
            old(self).wf(),
        ensures
            final(self).wf(),
            match old(self).spec_blit(format) {
                Some(p) => r.0 == p && r.1@ == Seq::<PipeSetupAction>::empty() && *final(self)
                    == *old(self),
                None => r.0 == fresh.pipeline && r.1@ == spec_create_blit_actions(
                    format,
                    old(self).library,
                    device,
                    fresh,
                ) && final(self).spec_blit(format) == Some(fresh.pipeline) && final(self).library
                    == old(self).library && final(self).sampler_nearest == old(
                    self,
                ).sampler_nearest && final(self).sampler_linear == old(self).sampler_linear
                    && final(self).fill_buffer == old(self).fill_buffer && (forall|other: u32|
                    other != format ==> final(self).spec_blit(other) == old(self).spec_blit(other)),
            },
    {
        let n = self.blits.len();
        proof {
            assert(self.blits@.subrange(0, n as int) =~= self.blits@);
        }
        let mut i: usize = 0;
        while i < n
            invariant
                i <= n,
                n == self.blits@.len(),
                *self == *old(self),
                old(self).wf(),
                spec_blit_lookup(self.blits@, format) == spec_blit_lookup(
                    self.blits@.subrange(i as int, n as int),
                    format,
                ),
            decreases n - i,
        {
            proof {
                assert(self.blits@.subrange(i as int, n as int)[0] == self.blits@[i as int]);
                assert(self.blits@.subrange(i as int, n as int).drop_first()
                    =~= self.blits@.subrange(i as int + 1, n as int));
            }
            if self.blits[i].0 == format {
                return (self.blits[i].1, Vec::new());
            }
            i = i + 1;
        }
        proof {
            assert(self.blits@.subrange(n as int, n as int) =~= Seq::<(u32, u64)>::empty());
            assert(spec_blit_lookup(self.blits@, format) is None);
            lemma_blit_lookup_none(self.blits@, format);
        }
        let (pipeline, actions) = create_blit(format, self.library, device, fresh);
        self.blits.push((format, pipeline));
        proof {
            assert(self.blits@[self.blits@.len() - 1] == (format, fresh.pipeline));
            lemma_blit_lookup_push(old(self).blits@, format, fresh.pipeline);
        }
        (pipeline, actions)
    }

    /// The buffer-fill compute pipeline.
    pub fn get_fill_buffer(&self) -> (r: u64)
        ensures
            r == self.fill_buffer,
    {
        self.fill_buffer
    }
}

proof fn lemma_blit_lookup_push(blits: Seq<(u32, u64)>, format: u32, fresh: u64)
    requires
        spec_blit_lookup(blits, format) is None,
    ensures
        spec_blit_lookup(blits.push((format, fresh)), format) == Some(fresh),
        forall|other: u32|
            other != format ==> spec_blit_lookup(blits.push((format, fresh)), other)
                == spec_blit_lookup(blits, other),
    decreases blits.len(),
{
    let whole = blits.push((format, fresh));
    if blits.len() == 0 {
        assert(whole[0] == (format, fresh));
        assert(whole.drop_first() =~= Seq::<(u32, u64)>::empty());
        assert(spec_blit_lookup(whole, format) == Some(fresh));
        assert forall|other: u32|
            other != format implies spec_blit_lookup(whole, other) == spec_blit_lookup(
            blits,
            other,
        ) by {
            assert(whole[0].0 != other);
            assert(spec_blit_lookup(whole, other) == spec_blit_lookup(whole.drop_first(), other));
            assert(spec_blit_lookup(whole.drop_first(), other) is None);
            assert(spec_blit_lookup(blits, other) is None);
        }
    } else {
        assert(whole[0] == blits[0]);
        assert(whole.drop_first() =~= blits.drop_first().push((format, fresh)));
        assert(blits[0].0 != format);
        lemma_blit_lookup_push(blits.drop_first(), format, fresh);
        assert(spec_blit_lookup(whole, format) == spec_blit_lookup(whole.drop_first(), format));
        assert forall|other: u32|
            other != format implies spec_blit_lookup(whole, other) == spec_blit_lookup(
            blits,
            other,
        ) by {
            if whole[0].0 == other {
            } else {
                assert(spec_blit_lookup(whole, other) == spec_blit_lookup(
                    whole.drop_first(),
                    other,
                ));
                assert(spec_blit_lookup(blits, other) == spec_blit_lookup(
                    blits.drop_first(),
                    other,
                ));
            }
        }
    }
}

} // verus!
