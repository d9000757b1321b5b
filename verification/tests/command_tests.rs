use gfx_backend::command::ClearColor;
use gfx_backend::command::ClearValue;
use gfx_backend::command::CommandBuffer;
use gfx_backend::command::CommandPool;
use gfx_backend::command::CommandQueue;
use gfx_backend::command::DescriptorSetBinding;
use gfx_backend::command::DescriptorSetContents;
use gfx_backend::command::EncoderState;
use gfx_backend::command::GraphicsPipeline;
use gfx_backend::command::MetalAction;
use gfx_backend::command::MtlBuffer;
use gfx_backend::command::MtlImage;
use gfx_backend::command::BufferImageCopy;
use gfx_backend::command::BufferTextureCopy;
use gfx_backend::command::QueueFamily;
use gfx_backend::command::Rect;
use gfx_backend::command::StageBinding;
use gfx_backend::command::SubmitGroup;
use gfx_backend::command::SubmitInfo;
use gfx_backend::command::Unimplemented;
use gfx_backend::command::STAGE_PIXEL;
use gfx_backend::command::STAGE_VERTEX;
use gfx_backend::pso::ColorValue;
use gfx_backend::pso::F32Bits;

fn bits(v: f32) -> F32Bits {
    F32Bits { bits: v.to_bits() }
}

#[test]
fn blit_from_idle_creates_one_encoder() {
    let mut cb = CommandBuffer::new(10);
    let (enc, actions) = cb.encode_blit(20);
    assert_eq!(enc, 20);
    assert_eq!(actions, vec![MetalAction::CreateBlitEncoder(10, 20)]);
    assert_eq!(cb.encoder_state, EncoderState::Blit(20));
}

#[test]
fn blit_request_reuses_open_blit_encoder() {
    let mut cb = CommandBuffer::new(10);
    cb.encode_blit(20);
    let (enc, actions) = cb.encode_blit(21);
    assert_eq!(enc, 20);
    assert!(actions.is_empty());
    assert_eq!(cb.encoder_state, EncoderState::Blit(20));
}

#[test]
fn render_request_closes_prior_blit_exactly_once() {
    let mut cb = CommandBuffer::new(10);
    cb.bind_graphics_pipeline(&GraphicsPipeline { raw: 77 });
    cb.encode_blit(20);
    let (enc, actions) = cb.begin_render_pass(30, &vec![], 40).expect("no gap");
    assert_eq!(enc, 40);
    let closes: Vec<&MetalAction> = actions
        .iter()
        .filter(|a| matches!(a, MetalAction::EndEncoding(20)))
        .collect();
    assert_eq!(closes.len(), 1);
    assert_eq!(actions[0], MetalAction::EndEncoding(20));
    assert_eq!(actions[1], MetalAction::Release(20));
    assert_eq!(actions[2], MetalAction::CreateRenderEncoder(10, 30, 40));
    assert_eq!(cb.encoder_state, EncoderState::Render(40));
}

#[test]
fn end_closes_open_encoder_once_and_never_twice() {
    let mut cb = CommandBuffer::new(10);
    cb.encode_blit(20);
    let (info, first) = cb.end();
    assert_eq!(info, SubmitInfo { command_buffer: 10 });
    assert_eq!(
        first,
        vec![
            MetalAction::EndEncoding(20),
            MetalAction::Release(20),
            MetalAction::Retain(10),
        ]
    );
    let (_, second) = cb.end();
    assert_eq!(second, vec![MetalAction::Retain(10)]);
    assert!(!second.iter().any(|a| matches!(a, MetalAction::EndEncoding(_))));
}

#[test]
fn submit_info_destroy_releases_the_retained_buffer() {
    let mut cb = CommandBuffer::new(10);
    cb.encode_blit(20);
    let (info, _) = cb.end();
    // Ending retained the buffer; dropping the submit handle releases that
    // retain again, closing the pair.
    assert_eq!(info.destroy(), vec![MetalAction::Release(10)]);
}

#[test]
fn destroy_forces_a_close_and_releases_the_buffer() {
    let mut cb = CommandBuffer::new(10);
    cb.encode_blit(20);
    let actions = cb.destroy();
    assert_eq!(
        actions,
        vec![
            MetalAction::EndEncoding(20),
            MetalAction::Release(20),
            MetalAction::Release(10),
        ]
    );
}

#[test]
fn viewport_and_scissor_capture_single_rectangles() {
    let mut cb = CommandBuffer::new(1);
    let rect = Rect { x: 0, y: 0, w: 640, h: 480 };
    cb.set_viewports(&vec![rect]);
    cb.set_scissors(&vec![rect]);
    assert_eq!(cb.viewport, Some(rect));
    assert_eq!(cb.scissors, Some(rect));
}

#[test]
fn vertex_buffers_replace_previous_bindings() {
    let mut cb = CommandBuffer::new(1);
    cb.bind_vertex_buffers(&vec![(100, 0), (101, 64)]);
    cb.bind_vertex_buffers(&vec![(102, 16)]);
    assert_eq!(cb.vertex_buffers, vec![(102, 16)]);
}

fn sampler_set(binding: u64, stage_flags: u32, samplers: Vec<u64>) -> DescriptorSetContents {
    DescriptorSetContents {
        layout: vec![StageBinding { binding, stage_flags }],
        bindings: vec![(binding, DescriptorSetBinding::Sampler(samplers))],
    }
}

#[test]
fn descriptor_sets_land_in_their_slots_with_padding() {
    let mut cb = CommandBuffer::new(1);
    cb.bind_graphics_descriptor_sets(2, vec![sampler_set(0, STAGE_PIXEL, vec![5])]);
    assert_eq!(cb.descriptor_sets.len(), 3);
    assert!(cb.descriptor_sets[0].is_none());
    assert!(cb.descriptor_sets[1].is_none());
    assert!(cb.descriptor_sets[2].is_some());
    cb.bind_graphics_descriptor_sets(0, vec![sampler_set(1, STAGE_PIXEL, vec![6])]);
    assert_eq!(cb.descriptor_sets.len(), 3);
    assert!(cb.descriptor_sets[0].is_some());
}

#[test]
fn render_pass_replays_captured_state_onto_fresh_encoder() {
    let mut cb = CommandBuffer::new(1);
    let rect = Rect { x: 0, y: 0, w: 320, h: 200 };
    cb.set_viewports(&vec![rect]);
    cb.set_scissors(&vec![rect]);
    cb.bind_graphics_pipeline(&GraphicsPipeline { raw: 50 });
    cb.bind_vertex_buffers(&vec![(60, 0), (61, 128)]);
    cb.bind_graphics_descriptor_sets(0, vec![sampler_set(3, STAGE_PIXEL, vec![70])]);
    let clear = ClearValue::Color(ClearColor::Float(ColorValue {
        r: bits(0.0),
        g: bits(0.0),
        b: bits(0.0),
        a: bits(1.0),
    }));
    let (enc, actions) = cb.begin_render_pass(90, &vec![clear], 91).expect("no gap");
    assert_eq!(enc, 91);
    assert_eq!(
        actions,
        vec![
            MetalAction::SetClearColor(
                90,
                0,
                ColorValue { r: bits(0.0), g: bits(0.0), b: bits(0.0), a: bits(1.0) }
            ),
            MetalAction::CreateRenderEncoder(1, 90, 91),
            MetalAction::SetViewport(91, rect),
            MetalAction::SetScissorRect(91, rect),
            MetalAction::SetRenderPipelineState(91, 50),
            MetalAction::SetVertexBuffer(91, 0, 0, 60),
            MetalAction::SetVertexBuffer(91, 1, 128, 61),
            MetalAction::SetFragmentSamplerState(91, 3, 70),
        ]
    );
}

#[test]
fn render_pass_reuses_open_render_encoder() {
    let mut cb = CommandBuffer::new(1);
    cb.bind_graphics_pipeline(&GraphicsPipeline { raw: 50 });
    let (enc, _) = cb.begin_render_pass(90, &vec![], 91).expect("no gap");
    let (again, actions) = cb.begin_render_pass(90, &vec![], 92).expect("no gap");
    assert_eq!(enc, again);
    assert!(actions.is_empty());
}

#[test]
fn non_float_clear_value_is_an_unimplemented_gap() {
    let mut cb = CommandBuffer::new(1);
    cb.bind_graphics_pipeline(&GraphicsPipeline { raw: 50 });
    let clear = ClearValue::DepthStencil(bits(1.0), 0);
    let r = cb.begin_render_pass(90, &vec![clear], 91);
    assert_eq!(r.unwrap_err(), Unimplemented::ClearValueKind);
    assert_eq!(cb.encoder_state, EncoderState::Idle);
}

#[test]
fn multi_resource_array_binding_is_an_unimplemented_gap() {
    let mut cb = CommandBuffer::new(1);
    cb.bind_graphics_pipeline(&GraphicsPipeline { raw: 50 });
    cb.bind_graphics_descriptor_sets(0, vec![sampler_set(0, STAGE_PIXEL, vec![5, 6])]);
    let r = cb.begin_render_pass(90, &vec![], 91);
    assert_eq!(r.unwrap_err(), Unimplemented::MultiResourceArrayBinding);
}

#[test]
fn vertex_stage_binding_is_an_unimplemented_gap() {
    let mut cb = CommandBuffer::new(1);
    cb.bind_graphics_pipeline(&GraphicsPipeline { raw: 50 });
    cb.bind_graphics_descriptor_sets(0, vec![sampler_set(0, STAGE_VERTEX, vec![5])]);
    let r = cb.begin_render_pass(90, &vec![], 91);
    assert_eq!(r.unwrap_err(), Unimplemented::VertexStageBinding);
}

#[test]
fn buffer_binding_kind_is_an_unimplemented_gap() {
    let mut cb = CommandBuffer::new(1);
    cb.bind_graphics_pipeline(&GraphicsPipeline { raw: 50 });
    let set = DescriptorSetContents {
        layout: vec![StageBinding { binding: 0, stage_flags: STAGE_PIXEL }],
        bindings: vec![(0, DescriptorSetBinding::Buffer(vec![5]))],
    };
    cb.bind_graphics_descriptor_sets(0, vec![set]);
    let r = cb.begin_render_pass(90, &vec![], 91);
    assert_eq!(r.unwrap_err(), Unimplemented::BindingKind);
}

#[test]
fn draw_records_triangle_primitives() {
    let mut cb = CommandBuffer::new(1);
    cb.bind_graphics_pipeline(&GraphicsPipeline { raw: 50 });
    let (enc, _) = cb.begin_render_pass(90, &vec![], 91).expect("no gap");
    let actions = cb.draw(3, 9, None).expect("plain draw");
    assert_eq!(actions, vec![MetalAction::DrawTrianglePrimitives(enc, 3, 9)]);
}

#[test]
fn instanced_draw_is_an_unimplemented_gap() {
    let mut cb = CommandBuffer::new(1);
    cb.bind_graphics_pipeline(&GraphicsPipeline { raw: 50 });
    cb.begin_render_pass(90, &vec![], 91).expect("no gap");
    assert_eq!(cb.draw(0, 3, Some((2, 0))).unwrap_err(), Unimplemented::InstancedDraw);
}

#[test]
fn copy_buffer_to_image_computes_tight_row_and_image_strides() {
    let mut cb = CommandBuffer::new(1);
    let src = MtlBuffer { raw: 5 };
    let dst = MtlImage { raw: 6, bytes_per_pixel: 4, width: 16, height: 8 };
    let region = BufferImageCopy {
        buffer_offset: 256,
        width: 16,
        height: 8,
        depth: 1,
        x: 0,
        y: 0,
        z: 0,
        image_layers: 1,
        image_base_layer: 0,
        image_mip_level: 2,
    };
    let actions = cb.copy_buffer_to_image(20, &src, &dst, &vec![region]).expect("single layer");
    assert_eq!(actions[0], MetalAction::CreateBlitEncoder(1, 20));
    assert_eq!(
        actions[1],
        MetalAction::CopyBufferToTexture(BufferTextureCopy {
            encoder: 20,
            buffer: 5,
            buffer_offset: 256,
            bytes_per_row: 64,
            bytes_per_image: 512,
            width: 16,
            height: 8,
            depth: 1,
            texture: 6,
            base_layer: 0,
            mip_level: 2,
            x: 0,
            y: 0,
            z: 0,
        })
    );
}

#[test]
fn multi_layer_copy_is_an_unimplemented_gap() {
    let mut cb = CommandBuffer::new(1);
    let src = MtlBuffer { raw: 5 };
    let dst = MtlImage { raw: 6, bytes_per_pixel: 4, width: 16, height: 8 };
    let mut region = BufferImageCopy {
        buffer_offset: 0,
        width: 16,
        height: 8,
        depth: 1,
        x: 0,
        y: 0,
        z: 0,
        image_layers: 2,
        image_base_layer: 0,
        image_mip_level: 0,
    };
    let r = cb.copy_buffer_to_image(20, &src, &dst, &vec![region]);
    assert_eq!(r.unwrap_err(), Unimplemented::MultipleLayerCopy);
    assert_eq!(cb.encoder_state, EncoderState::Idle);
    region.image_layers = 1;
    assert!(cb.copy_buffer_to_image(20, &src, &dst, &vec![region]).is_ok());
}

fn group(buffers: &[u64], semaphores: &[u64]) -> SubmitGroup {
    SubmitGroup {
        cmd_buffers: buffers.iter().map(|&b| SubmitInfo { command_buffer: b }).collect(),
        signal_semaphores: semaphores.to_vec(),
    }
}

#[test]
fn submit_commits_in_order_and_signals_on_the_last_buffer() {
    let mut queue = CommandQueue::new(1, 2);
    let actions = queue.submit(&vec![group(&[10, 11], &[90])], None);
    assert_eq!(
        actions,
        vec![
            MetalAction::Commit(10),
            MetalAction::AddCompletedSignal(11, 90),
            MetalAction::Commit(11),
            MetalAction::Retain(11),
        ]
    );
    assert_eq!(queue.last_command_buffer, Some(11));
}

#[test]
fn two_submits_track_only_the_second_buffer() {
    let mut queue = CommandQueue::new(1, 2);
    queue.submit(&vec![group(&[10], &[])], None);
    let actions = queue.submit(&vec![group(&[11], &[])], None);
    assert_eq!(
        actions,
        vec![MetalAction::Commit(11), MetalAction::Release(10), MetalAction::Retain(11)]
    );
    assert_eq!(queue.last_command_buffer, Some(11));
    let wait = queue.wait_idle();
    assert_eq!(wait, vec![MetalAction::WaitUntilCompleted(11), MetalAction::Release(11)]);
    assert_eq!(queue.last_command_buffer, None);
}

#[test]
fn multi_group_submit_commits_all_buffers_in_order() {
    let mut queue = CommandQueue::new(1, 2);
    queue.submit(&vec![group(&[10], &[])], None);
    let actions = queue.submit(&vec![group(&[11, 12], &[91]), group(&[13], &[])], None);
    assert_eq!(
        actions,
        vec![
            MetalAction::Commit(11),
            MetalAction::AddCompletedSignal(12, 91),
            MetalAction::Commit(12),
            MetalAction::Commit(13),
            MetalAction::Release(10),
            MetalAction::Retain(13),
        ]
    );
    // Only the final buffer across all groups is tracked; the previously
    // tracked buffer was released exactly once.
    assert_eq!(queue.last_command_buffer, Some(13));
    assert_eq!(
        actions.iter().filter(|a| matches!(a, MetalAction::Release(10))).count(),
        1
    );
}

#[test]
fn submit_never_waits() {
    let mut queue = CommandQueue::new(1, 2);
    queue.submit(&vec![group(&[10], &[])], None);
    let actions = queue.submit(&vec![group(&[11, 12], &[91, 92]), group(&[], &[93])], None);
    assert!(!actions.iter().any(|a| matches!(a, MetalAction::WaitUntilCompleted(_))));
}

#[test]
fn empty_submit_keeps_the_tracked_buffer() {
    let mut queue = CommandQueue::new(1, 2);
    queue.submit(&vec![group(&[10], &[])], None);
    let actions = queue.submit(&vec![], None);
    assert!(actions.is_empty());
    assert_eq!(queue.last_command_buffer, Some(10));
}

#[test]
fn wait_idle_with_nothing_tracked_does_nothing() {
    let mut queue = CommandQueue::new(1, 2);
    assert!(queue.wait_idle().is_empty());
}

#[test]
fn queue_destroy_releases_queue_and_tracked_buffer() {
    let mut queue = CommandQueue::new(1, 2);
    queue.submit(&vec![group(&[10], &[])], None);
    let actions = queue.destroy();
    assert_eq!(actions, vec![MetalAction::Release(2), MetalAction::Release(10)]);
}

#[test]
fn pool_acquires_and_resets_recordings() {
    let queue = CommandQueue::new(1, 2);
    let mut pool = CommandPool::from_queue(&queue);
    assert_eq!(pool.queue, 2);
    {
        let cb = pool.acquire_command_buffer(30);
        cb.encode_blit(31);
    }
    pool.acquire_command_buffer(32);
    let actions = pool.reset();
    assert_eq!(
        actions,
        vec![
            MetalAction::EndEncoding(31),
            MetalAction::Release(31),
            MetalAction::Release(30),
            MetalAction::Release(32),
        ]
    );
    assert!(pool.active_buffers.is_empty());
}

#[test]
fn queue_family_reports_one_presentable_queue() {
    let family = QueueFamily;
    assert!(family.supports_present(5));
    assert_eq!(family.num_queues(), 1);
}

#[test]
fn queue_reports_its_device() {
    let queue = CommandQueue::new(8, 9);
    assert_eq!(queue.device(), 8);
}
