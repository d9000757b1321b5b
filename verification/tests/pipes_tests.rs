use gfx_backend::pipes::BlitFresh;
use gfx_backend::pipes::Filter;
use gfx_backend::pipes::FillFresh;
use gfx_backend::pipes::PipeFunction;
use gfx_backend::pipes::PipeSetupAction;
use gfx_backend::pipes::ServicePipes;

fn fresh_blit(base: u64) -> BlitFresh {
    BlitFresh {
        descriptor: base,
        vertex_function: base + 1,
        fragment_function: base + 2,
        vertex_descriptor: base + 3,
        pipeline: base + 4,
    }
}

fn service_pipes() -> ServicePipes {
    let fill = FillFresh { descriptor: 10, compute_function: 11, pipeline: 4 };
    ServicePipes::new(0, 1, 9, 2, 3, fill).0
}

#[test]
fn new_creates_samplers_and_fill_pipeline() {
    let fill = FillFresh { descriptor: 10, compute_function: 11, pipeline: 4 };
    let (pipes, actions) = ServicePipes::new(0, 1, 9, 2, 3, fill);
    assert_eq!(pipes.library, 1);
    assert_eq!(pipes.sampler_nearest, 2);
    assert_eq!(pipes.sampler_linear, 3);
    assert_eq!(pipes.fill_buffer, 4);
    assert_eq!(
        actions,
        vec![
            PipeSetupAction::NewSamplerDescriptor(9),
            PipeSetupAction::SetSamplerMinFilter(9, Filter::Nearest),
            PipeSetupAction::SetSamplerMagFilter(9, Filter::Nearest),
            PipeSetupAction::SetSamplerMipFilterNearest(9),
            PipeSetupAction::NewSampler(0, 9, 2),
            PipeSetupAction::SetSamplerMinFilter(9, Filter::Linear),
            PipeSetupAction::SetSamplerMagFilter(9, Filter::Linear),
            PipeSetupAction::NewSampler(0, 9, 3),
            PipeSetupAction::NewComputePipelineDescriptor(10),
            PipeSetupAction::GetFunction(1, PipeFunction::CsFillBuffer, 11),
            PipeSetupAction::SetComputeFunction(10, 11),
            PipeSetupAction::NewComputePipelineState(0, 10, 4),
        ]
    );
}

#[test]
fn get_sampler_selects_by_filter() {
    let pipes = service_pipes();
    assert_eq!(pipes.get_sampler(Filter::Nearest), 2);
    assert_eq!(pipes.get_sampler(Filter::Linear), 3);
}

#[test]
fn get_blit_builds_the_pipeline_on_first_request() {
    let mut pipes = service_pipes();
    let (pipeline, actions) = pipes.get_blit(0x10, 0, fresh_blit(100));
    assert_eq!(pipeline, 104);
    assert_eq!(
        actions,
        vec![
            PipeSetupAction::NewRenderPipelineDescriptor(100),
            PipeSetupAction::SetInputPrimitiveTopologyTriangle(100),
            PipeSetupAction::GetFunction(1, PipeFunction::VsBlit, 101),
            PipeSetupAction::GetFunction(1, PipeFunction::PsBlit, 102),
            PipeSetupAction::SetVertexFunction(100, 101),
            PipeSetupAction::SetFragmentFunction(100, 102),
            PipeSetupAction::SetColorAttachmentFormat(100, 0, 0x10),
            PipeSetupAction::NewVertexDescriptor(103),
            PipeSetupAction::SetVertexLayoutStride(103, 0, 32),
            PipeSetupAction::SetVertexAttributeFloat4(103, 0, 0, 0),
            PipeSetupAction::SetVertexAttributeFloat4(103, 1, 0, 16),
            PipeSetupAction::SetVertexDescriptor(100, 103),
            PipeSetupAction::NewRenderPipelineState(0, 100, 104),
        ]
    );
}

#[test]
fn get_blit_reuses_the_cached_pipeline() {
    let mut pipes = service_pipes();
    let (first, _) = pipes.get_blit(0x10, 0, fresh_blit(100));
    // A second request for the same format returns the cached pipeline,
    // creates nothing, and ignores the prepared fresh tokens.
    let (again, actions) = pipes.get_blit(0x10, 0, fresh_blit(200));
    assert_eq!(again, first);
    assert!(actions.is_empty());
    // A different format gets its own pipeline.
    let (other, other_actions) = pipes.get_blit(0x11, 0, fresh_blit(300));
    assert_eq!(other, 304);
    assert_eq!(other_actions.len(), 13);
    assert_eq!(pipes.get_blit(0x10, 0, fresh_blit(400)).0, first);
    assert_eq!(pipes.get_blit(0x11, 0, fresh_blit(400)).0, other);
}

#[test]
fn get_fill_buffer_returns_the_fill_pipeline() {
    let pipes = service_pipes();
    assert_eq!(pipes.get_fill_buffer(), 4);
}
