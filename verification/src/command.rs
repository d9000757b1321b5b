//! Command recording and queue submission for the retained backend.
//!
//! A command buffer wraps exactly one native command-buffer object and runs
//! a three-state encoder machine: no encoder, a blit encoder, or a render
//! encoder, with at most one open at any time.  Requesting an encoder kind
//! closes whatever other encoder is open before opening it; ending is
//! idempotent against double-closing.  The queue remembers at most one
//! last-submitted buffer, used only to support idle-wait.
//!
//! Native objects are carried as plain integer tokens; each operation
//! returns the exact sequence of native calls the shim must perform.

use vstd::prelude::*;

use crate::pso::ColorValue;
use crate::pso::F32Bits;

verus! {

/// One native call of the retained backend, performed by the shim in order.
/// Creation calls record the token the created object is known by.
#[derive(Clone, Copy, Debug, PartialEq, Eq, Structural)]
pub enum MetalAction {
    EndEncoding(u64),
    Release(u64),
    Retain(u64),
    Commit(u64),
    AddCompletedSignal(u64, u64),
    WaitUntilCompleted(u64),
    CreateBlitEncoder(u64, u64),
    CreateRenderEncoder(u64, u64, u64),
    SetClearColor(u64, usize, ColorValue),
    SetViewport(u64, Rect),
    SetScissorRect(u64, Rect),
    SetRenderPipelineState(u64, u64),
    SetVertexBuffer(u64, usize, u64, u64),
    SetFragmentSamplerState(u64, u64, u64),
    SetFragmentTexture(u64, u64, u64),
    DrawTrianglePrimitives(u64, u64, u64),
    CopyBufferToTexture(BufferTextureCopy),
}

/// A recording-time rectangle; the shim widens it to the native viewport
/// or scissor representation.
#[derive(Clone, Copy, Debug, PartialEq, Eq, Structural)]
pub struct Rect {
    pub x: u16,
    pub y: u16,
    pub w: u16,
    pub h: u16,
}

/// One resolved buffer-to-texture copy, every native argument computed.
#[derive(Clone, Copy, Debug, PartialEq, Eq, Structural)]
pub struct BufferTextureCopy {
    pub encoder: u64,
    pub buffer: u64,
    pub buffer_offset: u64,
    pub bytes_per_row: u64,
    pub bytes_per_image: u64,
    pub width: u64,
    pub height: u64,
    pub depth: u64,
    pub texture: u64,
    pub base_layer: u64,
    pub mip_level: u64,
    pub x: u64,
    pub y: u64,
    pub z: u64,
}

/// The encoder machine's states: no encoder open, or one open encoder of
/// either kind, with its native token.
#[derive(Clone, Copy, Debug, PartialEq, Eq, Structural)]
pub enum EncoderState {
    Idle,
    Blit(u64),
    Render(u64),
}

/// The calls that close whatever encoder is open: end it and release it,
/// exactly once; nothing when none is open.
pub open spec fn spec_close_actions(state: EncoderState) -> Seq<MetalAction> {
    match state {
        EncoderState::Idle => Seq::empty(),
        EncoderState::Blit(h) => seq![MetalAction::EndEncoding(h), MetalAction::Release(h)],
        EncoderState::Render(h) => seq![MetalAction::EndEncoding(h), MetalAction::Release(h)],
    }
}

/// The encoder machine's transition on a blit request: an open blit
/// encoder is reused; otherwise the open encoder, if any, is closed and a
/// fresh blit encoder is created.  Yields the new state, the encoder to
/// record into, and the native calls.
pub open spec fn spec_request_blit(cb: u64, s: EncoderState, fresh: u64) -> (
    EncoderState,
    u64,
    Seq<MetalAction>,
) {
    match s {
        EncoderState::Blit(h) => (s, h, Seq::empty()),
        _ => (
            EncoderState::Blit(fresh),
            fresh,
            spec_close_actions(s) + seq![MetalAction::CreateBlitEncoder(cb, fresh)],
        ),
    }
}

/// The calls that end recording: close whatever encoder is open, then
/// retain the buffer for submission; afterwards the machine is idle, so a
/// second end closes nothing.
pub open spec fn spec_end_actions(cb: u64, s: EncoderState) -> Seq<MetalAction> {
    spec_close_actions(s) + seq![MetalAction::Retain(cb)]
}

/// How many times a call sequence ends the given encoder.
pub open spec fn count_closes(actions: Seq<MetalAction>, h: u64) -> nat
    decreases actions.len(),
{
    if actions.len() == 0 {
        0
    } else {
        (if actions[0] == MetalAction::EndEncoding(h) {
            1nat
        } else {
            0nat
        }) + count_closes(actions.drop_first(), h)
    }
}

/// Shader-stage visibility bits of the retained backend's set layouts.
pub const STAGE_VERTEX: u32 = 0x1;

pub const STAGE_PIXEL: u32 = 0x2;

/// One layout entry of a descriptor set: binding number and the shader
/// stages that see it.
#[derive(Clone, Copy, Debug, PartialEq, Eq, Structural)]
pub struct StageBinding {
    pub binding: u64,
    pub stage_flags: u32,
}

/// The recorded resources of one binding number.
#[derive(Clone, Debug, PartialEq, Eq)]
pub enum DescriptorSetBinding {
    Sampler(Vec<u64>),
    SampledImage(Vec<(u64, u32)>),
    Buffer(Vec<u64>),
}

/// A descriptor set's contents as the recorder replays them: the layout
/// entries and the current (binding, resources) assignments.
#[derive(Clone, Debug, PartialEq, Eq)]
pub struct DescriptorSetContents {
    pub layout: Vec<StageBinding>,
    pub bindings: Vec<(u64, DescriptorSetBinding)>,
}

/// A graphics pipeline of the retained backend: its native pipeline-state
/// token.
#[derive(Clone, Copy, Debug, PartialEq, Eq, Structural)]
pub struct GraphicsPipeline {
    pub raw: u64,
}

/// A command buffer: the wrapped native buffer, the encoder machine state,
/// and the captured bound state a fresh render encoder inherits nothing of
/// and must be handed again.
#[derive(Clone, Debug)]
pub struct CommandBuffer {
    pub command_buffer: u64,
    pub encoder_state: EncoderState,
    pub viewport: Option<Rect>,
    pub scissors: Option<Rect>,
    pub pipeline_state: Option<u64>,
    pub vertex_buffers: Vec<(u64, u64)>,
    pub descriptor_sets: Vec<Option<DescriptorSetContents>>,
}

/// What a finished buffer hands to submission: the retained native buffer.
#[derive(Clone, Copy, Debug, PartialEq, Eq, Structural)]
pub struct SubmitInfo {
    pub command_buffer: u64,
}

impl SubmitInfo {
    /// Releases the buffer that ending the recording retained, once
    /// submission is done with this handle.
    pub fn destroy(self) -> (actions: Vec<MetalAction>)
        ensures
            actions@ == seq![MetalAction::Release(self.command_buffer)],
    {
        let mut actions: Vec<MetalAction> = Vec::new();
        actions.push(MetalAction::Release(self.command_buffer));
        proof {
            assert(actions@ =~= seq![MetalAction::Release(self.command_buffer)]);
        }
        actions
    }
}

impl CommandBuffer {
    /// A fresh recording around a newly created native buffer: no encoder,
    /// nothing bound.
    pub fn new(command_buffer: u64) -> (r: CommandBuffer)
        ensures
            r.command_buffer == command_buffer,
            r.encoder_state == EncoderState::Idle,
            r.viewport is None,
            r.scissors is None,
            r.pipeline_state is None,
            r.vertex_buffers@ == Seq::<(u64, u64)>::empty(),
            r.descriptor_sets@ == Seq::<Option<DescriptorSetContents>>::empty(),
    {
        CommandBuffer {
            command_buffer,
            encoder_state: EncoderState::Idle,
            viewport: None,
            scissors: None,
            pipeline_state: None,
            vertex_buffers: Vec::new(),
            descriptor_sets: Vec::new(),
        }
    }

    /// Requests the blit encoder.  An open blit encoder is reused; any
    /// other open encoder is closed exactly once before the fresh blit
    /// encoder, known by `fresh`, is created.
    pub fn encode_blit(&mut self, fresh: u64) -> (r: (u64, Vec<MetalAction>))
        ensures
            ({
                let (state1, enc, actions) = spec_request_blit(
                    old(self).command_buffer,
                    old(self).encoder_state,
                    fresh,
                );
                r.0 == enc && r.1@ == actions && *final(self) == (CommandBuffer {
                    encoder_state: state1,
                    ..*old(self)
                })
            }),
    {
        let mut actions: Vec<MetalAction> = Vec::new();
        match self.encoder_state {
            EncoderState::Blit(h) => {
                return (h, actions);
            },
            EncoderState::Render(h) => {
                actions.push(MetalAction::EndEncoding(h));
                actions.push(MetalAction::Release(h));
            },
            EncoderState::Idle => {},
        }
        actions.push(MetalAction::CreateBlitEncoder(self.command_buffer, fresh));
        self.encoder_state = EncoderState::Blit(fresh);
        proof {
            assert(actions@ =~= spec_close_actions(old(self).encoder_state) + seq![
                MetalAction::CreateBlitEncoder(old(self).command_buffer, fresh),
            ]);
        }
        (fresh, actions)
    }

    /// Ends recording: closes any open encoder exactly once — ending again
    /// closes nothing — retains the native buffer and hands it out for
    /// submission.
    pub fn end(&mut self) -> (r: (SubmitInfo, Vec<MetalAction>))
        ensures
            ({
                let (info, actions) = r;
                info.command_buffer == old(self).command_buffer && actions@ == spec_end_actions(
                    old(self).command_buffer,
                    old(self).encoder_state,
                ) && *final(self) == (CommandBuffer {
                    encoder_state: EncoderState::Idle,
                    ..*old(self)
                })
            }),
    {
        let mut actions: Vec<MetalAction> = Vec::new();
        match self.encoder_state {
            EncoderState::Blit(h) => {
                actions.push(MetalAction::EndEncoding(h));
                actions.push(MetalAction::Release(h));
            },
            EncoderState::Render(h) => {
                actions.push(MetalAction::EndEncoding(h));
                actions.push(MetalAction::Release(h));
            },
            EncoderState::Idle => {},
        }
        self.encoder_state = EncoderState::Idle;
        actions.push(MetalAction::Retain(self.command_buffer));
        proof {
            assert(actions@ =~= spec_close_actions(old(self).encoder_state) + seq![
                MetalAction::Retain(old(self).command_buffer),
            ]);
        }
        (SubmitInfo { command_buffer: self.command_buffer }, actions)
    }

    /// Destroys the recording: forces a close of any open encoder and
    /// releases the native buffer.
    pub fn destroy(self) -> (actions: Vec<MetalAction>)
        ensures
            actions@ == spec_close_actions(self.encoder_state) + seq![
                MetalAction::Release(self.command_buffer),
            ],
    {
        let mut actions: Vec<MetalAction> = Vec::new();
        match self.encoder_state {
            EncoderState::Blit(h) => {
                actions.push(MetalAction::EndEncoding(h));
                actions.push(MetalAction::Release(h));
            },
            EncoderState::Render(h) => {
                actions.push(MetalAction::EndEncoding(h));
                actions.push(MetalAction::Release(h));
            },
            EncoderState::Idle => {},
        }
        actions.push(MetalAction::Release(self.command_buffer));
        proof {
            assert(actions@ =~= spec_close_actions(self.encoder_state) + seq![
                MetalAction::Release(self.command_buffer),
            ]);
        }
        actions
    }

    /// Captures the viewport.  The backend supports exactly one viewport:
    /// more than one at a time is a fatal precondition violation, left out
    /// of the admitted inputs.
    pub fn set_viewports(&mut self, rects: &Vec<Rect>)
        requires
            rects@.len() == 1,
        ensures
            *final(self) == (CommandBuffer { viewport: Some(rects@[0]), ..*old(self) }),
    {
        self.viewport = Some(rects[0]);
    }

    /// Captures the scissor rectangle; the backend supports exactly one.
    pub fn set_scissors(&mut self, rects: &Vec<Rect>)
        requires
            rects@.len() == 1,
        ensures
            *final(self) == (CommandBuffer { scissors: Some(rects@[0]), ..*old(self) }),
    {
        self.scissors = Some(rects[0]);
    }

    /// Captures the bound graphics pipeline for replay at render-encoder
    /// open.
    pub fn bind_graphics_pipeline(&mut self, pipeline: &GraphicsPipeline)
        ensures
            *final(self) == (CommandBuffer {
                pipeline_state: Some(pipeline.raw),
                ..*old(self)
            }),
    {
        self.pipeline_state = Some(pipeline.raw);
    }

    /// Replaces the captured vertex-buffer bindings, in slot order.
    pub fn bind_vertex_buffers(&mut self, buffers: &Vec<(u64, u64)>)
        ensures
            final(self).vertex_buffers@ == buffers@,
            final(self).command_buffer == old(self).command_buffer,
            final(self).encoder_state == old(self).encoder_state,
            final(self).viewport == old(self).viewport,
            final(self).scissors == old(self).scissors,
            final(self).pipeline_state == old(self).pipeline_state,
            final(self).descriptor_sets == old(self).descriptor_sets,
    {
        self.vertex_buffers.clear();
        let n = buffers.len();
        let mut i: usize = 0;
        while i < n
            invariant
                i <= n,
                n == buffers@.len(),
                self.vertex_buffers@ =~= buffers@.subrange(0, i as int),
                self.command_buffer == old(self).command_buffer,
                self.encoder_state == old(self).encoder_state,
                self.viewport == old(self).viewport,
                self.scissors == old(self).scissors,
                self.pipeline_state == old(self).pipeline_state,
                self.descriptor_sets == old(self).descriptor_sets,
            decreases n - i,
        {
            self.vertex_buffers.push(buffers[i]);
            i = i + 1;
        }
        proof {
            assert(self.vertex_buffers@ =~= buffers@);
        }
    }

    /// Captures descriptor sets starting at slot `first_set`, keeping other
    /// captured slots and padding any slots in between with nothing.
    pub fn bind_graphics_descriptor_sets(&mut self, first_set: usize, sets: Vec<DescriptorSetContents>)
        requires
            first_set + sets@.len() <= usize::MAX,
        ensures
            final(self).descriptor_sets@ == spec_bound_sets(
                old(self).descriptor_sets@,
                first_set as int,
                sets@,
            ),
            final(self).command_buffer == old(self).command_buffer,
            final(self).encoder_state == old(self).encoder_state,
            final(self).viewport == old(self).viewport,
            final(self).scissors == old(self).scissors,
            final(self).pipeline_state == old(self).pipeline_state,
            final(self).vertex_buffers == old(self).vertex_buffers,
    {
        let mut sets = sets;
        let ghost all = sets@;
        let total = sets.len();
        let mut k: usize = 0;
        while k < total
            invariant
                k <= total,
                total == all.len(),
                first_set + total <= usize::MAX,
                sets@ == all.subrange(k as int, all.len() as int),
                self.descriptor_sets@ =~= spec_bound_sets(
                    old(self).descriptor_sets@,
                    first_set as int,
                    all.subrange(0, k as int),
                ),
                self.command_buffer == old(self).command_buffer,
                self.encoder_state == old(self).encoder_state,
                self.viewport == old(self).viewport,
                self.scissors == old(self).scissors,
                self.pipeline_state == old(self).pipeline_state,
                self.vertex_buffers == old(self).vertex_buffers,
            decreases total - k,
        {
            let set = sets.remove(0);
            let i = first_set + k;
            if i < self.descriptor_sets.len() {
                self.descriptor_sets[i] = Some(set);
            } else {
                while i > self.descriptor_sets.len()
                    invariant
                        i >= self.descriptor_sets@.len(),
                        i < usize::MAX,
                        self.descriptor_sets@ =~= pad_sets(
                            spec_bound_sets(
                                old(self).descriptor_sets@,
                                first_set as int,
                                all.subrange(0, k as int),
                            ),
                            self.descriptor_sets@.len() as int,
                        ),
                        self.command_buffer == old(self).command_buffer,
                        self.encoder_state == old(self).encoder_state,
                        self.viewport == old(self).viewport,
                        self.scissors == old(self).scissors,
                        self.pipeline_state == old(self).pipeline_state,
                        self.vertex_buffers == old(self).vertex_buffers,
                    decreases i - self.descriptor_sets@.len(),
                {
                    self.descriptor_sets.push(None);
                }
                self.descriptor_sets.push(Some(set));
            }
            proof {
                assert(all.subrange(0, k as int).push(all[k as int]) =~= all.subrange(
                    0,
                    k as int + 1,
                ));
                assert(self.descriptor_sets@ =~= spec_bound_sets(
                    old(self).descriptor_sets@,
                    first_set as int,
                    all.subrange(0, k as int + 1),
                ));
            }
            k = k + 1;
        }
        proof {
            assert(all.subrange(0, total as int) =~= all);
        }
    }
}

/// The captured set list after binding `new_sets` from slot `first` over
/// `old_sets`: the new sets land in their slots, other captured slots are
/// kept, and slots in between are padded with nothing.
pub open spec fn spec_bound_sets(
    old_sets: Seq<Option<DescriptorSetContents>>,
    first: int,
    new_sets: Seq<DescriptorSetContents>,
) -> Seq<Option<DescriptorSetContents>> {
    let target = if new_sets.len() == 0 {
        0
    } else {
        first + new_sets.len()
    };
    let n = if old_sets.len() >= target {
        old_sets.len() as int
    } else {
        target
    };
    Seq::new(
        n as nat,
        |j: int|
            if first <= j < first + new_sets.len() {
                Some(new_sets[j - first])
            } else if j < old_sets.len() {
                old_sets[j]
            } else {
                None
            },
    )
}

/// A set list padded with empty slots up to length `n`.
spec fn pad_sets(s: Seq<Option<DescriptorSetContents>>, n: int) -> Seq<
    Option<DescriptorSetContents>,
> {
    if n <= s.len() {
        s
    } else {
        Seq::new(n as nat, |j: int| if j < s.len() { s[j] } else { None })
    }
}

/// Binding replayable sets over a replayable capture leaves every captured
/// slot replayable: the new sets are, the kept slots were, and padded
/// slots hold nothing.
pub proof fn lemma_bound_sets_wf(
    old_sets: Seq<Option<DescriptorSetContents>>,
    first: int,
    new_sets: Seq<DescriptorSetContents>,
)
    requires
        spec_sets_wf(old_sets),
        forall|i: int| 0 <= i < new_sets.len() ==> spec_set_wf(#[trigger] new_sets[i]),
        first >= 0,
    ensures
        spec_sets_wf(spec_bound_sets(old_sets, first, new_sets)),
{
    let bound = spec_bound_sets(old_sets, first, new_sets);
    assert forall|j: int| 0 <= j < bound.len()
        implies ((#[trigger] bound[j]) matches Some(s) ==> spec_set_wf(s)) by {
        if first <= j < first + new_sets.len() {
            assert(bound[j] == Some(new_sets[j - first]));
        } else if j < old_sets.len() {
            assert(bound[j] == old_sets[j]);
        } else {
            assert(bound[j] is None);
        }
    }
}

/// From no open encoder, requesting blit opens the fresh blit encoder with
/// a single creation call: nothing is closed.
pub proof fn lemma_blit_from_idle(cb: u64, fresh: u64)
    ensures
        spec_request_blit(cb, EncoderState::Idle, fresh) == (
            EncoderState::Blit(fresh),
            fresh,
            seq![MetalAction::CreateBlitEncoder(cb, fresh)],
        ),
{
    assert(spec_close_actions(EncoderState::Idle) + seq![MetalAction::CreateBlitEncoder(cb, fresh)]
        =~= seq![MetalAction::CreateBlitEncoder(cb, fresh)]);
}

/// Ending a buffer closes an open encoder exactly once; ending again
/// closes nothing, so the encoder is never closed twice.
pub proof fn lemma_end_never_closes_twice(cb: u64, h: u64)
    ensures
        count_closes(spec_end_actions(cb, EncoderState::Blit(h)), h) == 1,
        count_closes(spec_end_actions(cb, EncoderState::Render(h)), h) == 1,
        count_closes(spec_end_actions(cb, EncoderState::Idle), h) == 0,
        count_closes(
            spec_end_actions(cb, EncoderState::Blit(h)) + spec_end_actions(cb, EncoderState::Idle),
            h,
        ) == 1,
{
    reveal_with_fuel(count_closes, 5);
    lemma_count_closes_concat(
        spec_end_actions(cb, EncoderState::Blit(h)),
        spec_end_actions(cb, EncoderState::Idle),
        h,
    );
}

proof fn lemma_set_actions_no_close(enc: u64, layout: Seq<StageBinding>, bindings: Seq<(u64, DescriptorSetBinding)>)
    ensures
        forall|i: int| 0 <= i < spec_set_actions(enc, layout, bindings).len()
            ==> !(#[trigger] spec_set_actions(enc, layout, bindings)[i] matches MetalAction::EndEncoding(_)),
    decreases bindings.len(),
{
    if bindings.len() > 0 {
        lemma_set_actions_no_close(enc, layout, bindings.drop_first());
        let head = spec_binding_actions(enc, layout, bindings[0]);
        let rest = spec_set_actions(enc, layout, bindings.drop_first());
        let whole = spec_set_actions(enc, layout, bindings);
        assert forall|i: int| 0 <= i < whole.len()
            implies !(#[trigger] whole[i] matches MetalAction::EndEncoding(_)) by {
            if i < head.len() {
                assert(whole[i] == head[i]);
            } else {
                assert(whole[i] == rest[i - head.len()]);
            }
        }
    }
}

proof fn lemma_sets_actions_no_close(enc: u64, sets: Seq<Option<DescriptorSetContents>>)
    ensures
        forall|i: int| 0 <= i < spec_sets_actions(enc, sets).len()
            ==> !(#[trigger] spec_sets_actions(enc, sets)[i] matches MetalAction::EndEncoding(_)),
    decreases sets.len(),
{
    if sets.len() > 0 {
        lemma_sets_actions_no_close(enc, sets.drop_first());
        let head = match sets[0] {
            Some(s) => spec_set_actions(enc, s.layout@, s.bindings@),
            None => Seq::<MetalAction>::empty(),
        };
        match sets[0] {
            Some(s) => {
                lemma_set_actions_no_close(enc, s.layout@, s.bindings@);
            },
            None => {},
        }
        let rest = spec_sets_actions(enc, sets.drop_first());
        let whole = spec_sets_actions(enc, sets);
        assert forall|i: int| 0 <= i < whole.len()
            implies !(#[trigger] whole[i] matches MetalAction::EndEncoding(_)) by {
            if i < head.len() {
                assert(whole[i] == head[i]);
            } else {
                assert(whole[i] == rest[i - head.len()]);
            }
        }
    }
}

/// Opening the render encoder over an open blit encoder closes that blit
/// encoder exactly once: of everything the open performs — closing, clear
/// colors, creation, state replay — only the closing ends it.
pub proof fn lemma_begin_closes_blit_once(
    cb: CommandBuffer,
    fb: u64,
    values: Seq<ClearValue>,
    fresh: u64,
    h: u64,
)
    requires
        cb.encoder_state == EncoderState::Blit(h),
    ensures
        count_closes(spec_begin_actions(cb, fb, values, fresh), h) == 1,
{
    let closing = spec_close_actions(cb.encoder_state);
    let rest = spec_clear_actions(fb, values) + seq![
        MetalAction::CreateRenderEncoder(cb.command_buffer, fb, fresh),
    ] + spec_replay_actions(cb, fresh);
    assert(spec_begin_actions(cb, fb, values, fresh) =~= closing + rest);
    lemma_count_closes_concat(closing, rest, h);
    assert(count_closes(closing, h) == 1) by {
        reveal_with_fuel(count_closes, 4);
    }
    assert forall|i: int| 0 <= i < rest.len()
        implies !(#[trigger] rest[i] matches MetalAction::EndEncoding(_)) by {
        let clears = spec_clear_actions(fb, values);
        let create = seq![MetalAction::CreateRenderEncoder(cb.command_buffer, fb, fresh)];
        let replay = spec_replay_actions(cb, fresh);
        if i < clears.len() {
            assert(rest[i] == clears[i]);
        } else if i < clears.len() + 1 {
            assert(rest[i] == create[i - clears.len()]);
        } else {
            let j = i - clears.len() - 1;
            assert(rest[i] == replay[j]);
            let vp = match cb.viewport {
                Some(r) => seq![MetalAction::SetViewport(fresh, r)],
                None => Seq::<MetalAction>::empty(),
            };
            let sc = match cb.scissors {
                Some(r) => seq![MetalAction::SetScissorRect(fresh, r)],
                None => Seq::<MetalAction>::empty(),
            };
            let ps = seq![MetalAction::SetRenderPipelineState(fresh, cb.pipeline_state.unwrap())];
            let vbs = Seq::new(
                cb.vertex_buffers@.len(),
                |k: int|
                    MetalAction::SetVertexBuffer(
                        fresh,
                        k as usize,
                        cb.vertex_buffers@[k].1,
                        cb.vertex_buffers@[k].0,
                    ),
            );
            let sets = spec_sets_actions(fresh, cb.descriptor_sets@);
            assert(replay == vp + sc + ps + vbs + sets);
            lemma_sets_actions_no_close(fresh, cb.descriptor_sets@);
            if j < vp.len() {
                assert(replay[j] == vp[j]);
            } else if j < vp.len() + sc.len() {
                assert(replay[j] == sc[j - vp.len()]);
            } else if j < vp.len() + sc.len() + 1 {
                assert(replay[j] == ps[j - vp.len() - sc.len()]);
            } else if j < vp.len() + sc.len() + 1 + vbs.len() {
                assert(replay[j] == vbs[j - vp.len() - sc.len() - 1]);
            } else {
                assert(replay[j] == sets[j - vp.len() - sc.len() - 1 - vbs.len()]);
            }
        }
    }
    lemma_count_closes_none(rest, h);
}

proof fn lemma_count_closes_none(actions: Seq<MetalAction>, h: u64)
    requires
        forall|i: int| 0 <= i < actions.len() ==> !(#[trigger] actions[i] matches MetalAction::EndEncoding(_)),
    ensures
        count_closes(actions, h) == 0,
    decreases actions.len(),
{
    if actions.len() > 0 {
        assert(!(actions[0] matches MetalAction::EndEncoding(_)));
        assert forall|i: int| 0 <= i < actions.drop_first().len()
            implies !(#[trigger] actions.drop_first()[i] matches MetalAction::EndEncoding(_)) by {
            assert(actions.drop_first()[i] == actions[i + 1]);
        }
        lemma_count_closes_none(actions.drop_first(), h);
    }
}

proof fn lemma_count_closes_concat(a: Seq<MetalAction>, b: Seq<MetalAction>, h: u64)
    ensures
        count_closes(a + b, h) == count_closes(a, h) + count_closes(b, h),
    decreases a.len(),
{
    if a.len() == 0 {
        assert(a + b =~= b);
    } else {
        assert((a + b).drop_first() =~= a.drop_first() + b);
        lemma_count_closes_concat(a.drop_first(), b, h);
    }
}

/// Operations the contract designs in but this backend shape has not wired
/// yet.  They fail loudly with a distinct outcome: an incomplete backend,
/// not a caller mistake and not a native error.
#[derive(Clone, Copy, Debug, PartialEq, Eq, Structural)]
pub enum Unimplemented {
    MultiResourceArrayBinding,
    VertexStageBinding,
    BindingKind,
    ClearValueKind,
    InstancedDraw,
    MultipleLayerCopy,
}

/// A completion fence of the retained backend.  Submission accepts one but
/// does not yet wire completion signaling through it: a preserved,
/// documented gap of this backend shape.
#[derive(Clone, Copy, Debug, PartialEq, Eq, Structural)]
pub struct Fence {
    pub raw: u64,
}

/// One submission group: finished buffers to commit in order, and the
/// semaphores to signal when the group's last buffer completes.
#[derive(Clone, Debug, PartialEq, Eq)]
pub struct SubmitGroup {
    pub cmd_buffers: Vec<SubmitInfo>,
    pub signal_semaphores: Vec<u64>,
}

/// The calls one group performs: commit each buffer in order, attaching
/// the group's completion signals to its last buffer before that buffer's
/// commit.
pub open spec fn spec_group_actions(bufs: Seq<SubmitInfo>, sems: Seq<u64>) -> Seq<MetalAction> {
    if bufs.len() == 0 {
        Seq::empty()
    } else {
        let last = bufs.last().command_buffer;
        Seq::new((bufs.len() - 1) as nat, |i: int| MetalAction::Commit(bufs[i].command_buffer))
            + Seq::new(sems.len(), |i: int| MetalAction::AddCompletedSignal(last, sems[i]))
            + seq![MetalAction::Commit(last)]
    }
}

/// The calls of a whole submission, group by group.
pub open spec fn spec_groups_actions(groups: Seq<SubmitGroup>) -> Seq<MetalAction>
    decreases groups.len(),
{
    if groups.len() == 0 {
        Seq::empty()
    } else {
        spec_group_actions(groups[0].cmd_buffers@, groups[0].signal_semaphores@)
            + spec_groups_actions(groups.drop_first())
    }
}

/// The final buffer submitted across all groups, if any buffer was.
pub open spec fn spec_last_buffer(groups: Seq<SubmitGroup>) -> Option<u64>
    decreases groups.len(),
{
    if groups.len() == 0 {
        None
    } else if groups.last().cmd_buffers@.len() > 0 {
        Some(groups.last().cmd_buffers@.last().command_buffer)
    } else {
        spec_last_buffer(groups.drop_last())
    }
}

/// The tracked buffer after a submission: the submission's final buffer if
/// it committed any, else whatever was tracked before.
pub open spec fn spec_tracked_after(remembered: Option<u64>, groups: Seq<SubmitGroup>) -> Option<u64> {
    match spec_last_buffer(groups) {
        Some(b) => Some(b),
        None => remembered,
    }
}

/// The tracking calls of a submission: when it committed anything, the
/// previously tracked buffer is released and the new final buffer retained.
pub open spec fn spec_track_actions(remembered: Option<u64>, groups: Seq<SubmitGroup>) -> Seq<
    MetalAction,
> {
    match spec_last_buffer(groups) {
        Some(nb) => (match remembered {
            Some(ob) => seq![MetalAction::Release(ob)],
            None => Seq::empty(),
        }) + seq![MetalAction::Retain(nb)],
        None => Seq::empty(),
    }
}

/// Every call a submission performs.
pub open spec fn spec_submit_actions(remembered: Option<u64>, groups: Seq<SubmitGroup>) -> Seq<
    MetalAction,
> {
    spec_groups_actions(groups) + spec_track_actions(remembered, groups)
}

/// The calls of an idle-wait: block until the tracked buffer reports
/// completion, then release it; nothing when none is tracked.
pub open spec fn spec_wait_idle_actions(remembered: Option<u64>) -> Seq<MetalAction> {
    match remembered {
        Some(b) => seq![MetalAction::WaitUntilCompleted(b), MetalAction::Release(b)],
        None => Seq::empty(),
    }
}

/// The command queue: the native device and queue tokens, and at most one
/// remembered last-submitted buffer, kept only to support idle-wait.
#[derive(Clone, Copy, Debug, PartialEq, Eq, Structural)]
pub struct CommandQueue {
    pub device: u64,
    pub queue: u64,
    pub last_command_buffer: Option<u64>,
}

impl CommandQueue {
    /// A fresh queue on a device; `fresh_queue` is the token the native
    /// queue-creation call yields.  Nothing is tracked yet.
    pub fn new(device: u64, fresh_queue: u64) -> (r: CommandQueue)
        ensures
            r.device == device,
            r.queue == fresh_queue,
            r.last_command_buffer is None,
    {
        CommandQueue { device, queue: fresh_queue, last_command_buffer: None }
    }

    /// The device this queue was created on.
    pub fn device(&self) -> (r: u64)
        ensures
            r == self.device,
    {
        self.device
    }

    /// Submits the groups: commits every buffer in order, attaches each
    /// group's completion signals to its last buffer, and replaces the
    /// tracked buffer with the final buffer submitted, releasing the
    /// previous one.  Never blocks.
    ///
    /// Waiting on input semaphores before execution, and signaling the
    /// given fence, are unwired gaps of this backend shape: the fence is
    /// accepted and left untouched.
    pub fn submit(&mut self, groups: &Vec<SubmitGroup>, fence: Option<&Fence>) -> (actions: Vec<
        MetalAction,
    >)
        ensures
            actions@ == spec_submit_actions(old(self).last_command_buffer, groups@),
            final(self).last_command_buffer == spec_tracked_after(
                old(self).last_command_buffer,
                groups@,
            ),
            final(self).device == old(self).device,
            final(self).queue == old(self).queue,
    {
        let _ = fence;
        let mut actions: Vec<MetalAction> = Vec::new();
        let mut last: Option<u64> = None;
        let n = groups.len();
        let mut g: usize = 0;
        while g < n
            invariant
                g <= n,
                n == groups@.len(),
                actions@ =~= spec_groups_actions(groups@.subrange(0, g as int)),
                last == spec_last_buffer(groups@.subrange(0, g as int)),
                *self == *old(self),
            decreases n - g,
        {
            let ghost prefix = groups@.subrange(0, g as int);
            let group = &groups[g];
            let bufs = &group.cmd_buffers;
            let m = bufs.len();
            if m > 0 {
                let ghost base = actions@;
                let mut i: usize = 0;
                while i < m - 1
                    invariant
                        i <= m - 1,
                        m == bufs@.len(),
                        m > 0,
                        actions@ =~= base + Seq::new(
                            i as nat,
                            |j: int| MetalAction::Commit(bufs@[j].command_buffer),
                        ),
                    decreases m - 1 - i,
                {
                    actions.push(MetalAction::Commit(bufs[i].command_buffer));
                    proof {
                        assert(actions@ =~= base + Seq::new(
                            (i + 1) as nat,
                            |j: int| MetalAction::Commit(bufs@[j].command_buffer),
                        ));
                    }
                    i = i + 1;
                }
                let last_buf = bufs[m - 1].command_buffer;
                let sems = &group.signal_semaphores;
                let s = sems.len();
                let ghost base2 = actions@;
                let mut j: usize = 0;
                while j < s
                    invariant
                        j <= s,
                        s == sems@.len(),
                        actions@ =~= base2 + Seq::new(
                            j as nat,
                            |k: int| MetalAction::AddCompletedSignal(last_buf, sems@[k]),
                        ),
                    decreases s - j,
                {
                    actions.push(MetalAction::AddCompletedSignal(last_buf, sems[j]));
                    proof {
                        assert(actions@ =~= base2 + Seq::new(
                            (j + 1) as nat,
                            |k: int| MetalAction::AddCompletedSignal(last_buf, sems@[k]),
                        ));
                    }
                    j = j + 1;
                }
                actions.push(MetalAction::Commit(last_buf));
                last = Some(last_buf);
                proof {
                    assert(actions@ =~= base + spec_group_actions(bufs@, sems@));
                }
            }
            proof {
                let prefix1 = groups@.subrange(0, g as int + 1);
                assert(prefix1 =~= prefix.push(groups@[g as int]));
                assert(prefix1.drop_last() =~= prefix);
                assert(prefix1.last() == groups@[g as int]);
                lemma_groups_actions_snoc(prefix, groups@[g as int]);
                assert(actions@ =~= spec_groups_actions(prefix1));
            }
            g = g + 1;
        }
        proof {
            assert(groups@.subrange(0, n as int) =~= groups@);
        }
        match last {
            Some(nb) => {
                match self.last_command_buffer {
                    Some(ob) => {
                        actions.push(MetalAction::Release(ob));
                    },
                    None => {},
                }
                actions.push(MetalAction::Retain(nb));
                self.last_command_buffer = Some(nb);
            },
            None => {},
        }
        proof {
            assert(actions@ =~= spec_submit_actions(old(self).last_command_buffer, groups@));
        }
        actions
    }

    /// Blocks until the tracked buffer reports completion, then releases
    /// it.  Earlier buffers were already replaced when later submissions
    /// arrived: only the single most recent tracked buffer is awaited.
    pub fn wait_idle(&mut self) -> (actions: Vec<MetalAction>)
        ensures
            actions@ == spec_wait_idle_actions(old(self).last_command_buffer),
            final(self).last_command_buffer is None,
            final(self).device == old(self).device,
            final(self).queue == old(self).queue,
    {
        let mut actions: Vec<MetalAction> = Vec::new();
        match self.last_command_buffer {
            Some(b) => {
                actions.push(MetalAction::WaitUntilCompleted(b));
                actions.push(MetalAction::Release(b));
                self.last_command_buffer = None;
            },
            None => {},
        }
        proof {
            assert(actions@ =~= spec_wait_idle_actions(old(self).last_command_buffer));
        }
        actions
    }

    /// Destroys the queue: releases the native queue and any still-tracked
    /// buffer.
    pub fn destroy(self) -> (actions: Vec<MetalAction>)
        ensures
            actions@ == seq![MetalAction::Release(self.queue)] + (match self.last_command_buffer {
                Some(b) => seq![MetalAction::Release(b)],
                None => Seq::empty(),
            }),
    {
        let mut actions: Vec<MetalAction> = Vec::new();
        actions.push(MetalAction::Release(self.queue));
        match self.last_command_buffer {
            Some(b) => {
                actions.push(MetalAction::Release(b));
            },
            None => {},
        }
        proof {
            assert(actions@ =~= seq![MetalAction::Release(self.queue)] + (
            match self.last_command_buffer {
                Some(b) => seq![MetalAction::Release(b)],
                None => Seq::<MetalAction>::empty(),
            }));
        }
        actions
    }
}

proof fn lemma_groups_actions_snoc(prefix: Seq<SubmitGroup>, g: SubmitGroup)
    ensures
        spec_groups_actions(prefix.push(g)) == spec_groups_actions(prefix) + spec_group_actions(
            g.cmd_buffers@,
            g.signal_semaphores@,
        ),
    decreases prefix.len(),
{
    let whole = prefix.push(g);
    if prefix.len() == 0 {
        assert(whole[0] == g);
        assert(whole.drop_first() =~= Seq::<SubmitGroup>::empty());
        assert(spec_groups_actions(whole.drop_first()) == Seq::<MetalAction>::empty());
        assert(spec_groups_actions(whole) =~= spec_group_actions(
            g.cmd_buffers@,
            g.signal_semaphores@,
        ));
        assert(spec_groups_actions(prefix) + spec_group_actions(g.cmd_buffers@, g.signal_semaphores@)
            =~= spec_group_actions(g.cmd_buffers@, g.signal_semaphores@));
    } else {
        assert(whole.drop_first() =~= prefix.drop_first().push(g));
        assert(whole[0] == prefix[0]);
        lemma_groups_actions_snoc(prefix.drop_first(), g);
        assert(spec_groups_actions(whole) == spec_group_actions(
            whole[0].cmd_buffers@,
            whole[0].signal_semaphores@,
        ) + spec_groups_actions(whole.drop_first()));
        assert(spec_groups_actions(whole.drop_first()) == spec_groups_actions(prefix.drop_first())
            + spec_group_actions(g.cmd_buffers@, g.signal_semaphores@));
        assert(spec_groups_actions(whole) =~= spec_groups_actions(prefix) + spec_group_actions(
            g.cmd_buffers@,
            g.signal_semaphores@,
        ));
    }
}

/// Whether a call sequence contains any blocking wait.
pub open spec fn spec_has_wait(actions: Seq<MetalAction>) -> bool {
    exists|i: int|
        0 <= i < actions.len() && (#[trigger] actions[i] matches MetalAction::WaitUntilCompleted(_))
}

/// Submission itself never blocks: no call it performs waits for
/// completion.
pub proof fn lemma_submit_never_blocks(remembered: Option<u64>, groups: Seq<SubmitGroup>)
    ensures
        !spec_has_wait(spec_submit_actions(remembered, groups)),
{
    lemma_groups_actions_no_wait(groups);
    let ga = spec_groups_actions(groups);
    let ta = spec_track_actions(remembered, groups);
    let whole = spec_submit_actions(remembered, groups);
    assert forall|i: int| 0 <= i < whole.len()
        implies !(#[trigger] whole[i] matches MetalAction::WaitUntilCompleted(_)) by {
        if i < ga.len() {
            assert(whole[i] == ga[i]);
        } else {
            assert(whole[i] == ta[i - ga.len()]);
            match spec_last_buffer(groups) {
                Some(nb) => {
                    match remembered {
                        Some(ob) => {},
                        None => {},
                    }
                },
                None => {},
            }
        }
    }
}

proof fn lemma_groups_actions_no_wait(groups: Seq<SubmitGroup>)
    ensures
        forall|i: int| 0 <= i < spec_groups_actions(groups).len()
            ==> !(#[trigger] spec_groups_actions(groups)[i] matches MetalAction::WaitUntilCompleted(_)),
    decreases groups.len(),
{
    if groups.len() > 0 {
        lemma_groups_actions_no_wait(groups.drop_first());
        let head = spec_group_actions(groups[0].cmd_buffers@, groups[0].signal_semaphores@);
        let rest = spec_groups_actions(groups.drop_first());
        let whole = spec_groups_actions(groups);
        assert forall|i: int| 0 <= i < whole.len()
            implies !(#[trigger] whole[i] matches MetalAction::WaitUntilCompleted(_)) by {
            if i < head.len() {
                assert(whole[i] == head[i]);
                lemma_group_actions_no_wait(groups[0].cmd_buffers@, groups[0].signal_semaphores@, i);
            } else {
                assert(whole[i] == rest[i - head.len()]);
            }
        }
    }
}

proof fn lemma_group_actions_no_wait(bufs: Seq<SubmitInfo>, sems: Seq<u64>, i: int)
    requires
        0 <= i < spec_group_actions(bufs, sems).len(),
    ensures
        !(spec_group_actions(bufs, sems)[i] matches MetalAction::WaitUntilCompleted(_)),
{
}

/// The buffers a submission commits, in order: each group's buffers in
/// group order.
pub open spec fn spec_all_buffers(groups: Seq<SubmitGroup>) -> Seq<u64>
    decreases groups.len(),
{
    if groups.len() == 0 {
        Seq::empty()
    } else {
        groups[0].cmd_buffers@.map(|i: int, b: SubmitInfo| b.command_buffer) + spec_all_buffers(
            groups.drop_first(),
        )
    }
}

/// The commit calls of a call sequence, in order, by committed buffer.
pub open spec fn spec_commits_of(actions: Seq<MetalAction>) -> Seq<u64>
    decreases actions.len(),
{
    if actions.len() == 0 {
        Seq::empty()
    } else {
        let rest = spec_commits_of(actions.drop_first());
        match actions[0] {
            MetalAction::Commit(b) => seq![b] + rest,
            _ => rest,
        }
    }
}

/// How many times a call sequence releases the given object.
pub open spec fn count_releases(actions: Seq<MetalAction>, b: u64) -> nat
    decreases actions.len(),
{
    if actions.len() == 0 {
        0
    } else {
        (if actions[0] == MetalAction::Release(b) {
            1nat
        } else {
            0nat
        }) + count_releases(actions.drop_first(), b)
    }
}

proof fn lemma_commits_of_concat(a: Seq<MetalAction>, b: Seq<MetalAction>)
    ensures
        spec_commits_of(a + b) == spec_commits_of(a) + spec_commits_of(b),
    decreases a.len(),
{
    if a.len() == 0 {
        assert(a + b =~= b);
        assert(spec_commits_of(a) + spec_commits_of(b) =~= spec_commits_of(b));
    } else {
        assert((a + b).drop_first() =~= a.drop_first() + b);
        lemma_commits_of_concat(a.drop_first(), b);
        match a[0] {
            MetalAction::Commit(x) => {
                assert(spec_commits_of(a + b) =~= spec_commits_of(a) + spec_commits_of(b));
            },
            _ => {},
        }
    }
}

proof fn lemma_commits_of_all(s: Seq<MetalAction>, bs: Seq<u64>)
    requires
        s.len() == bs.len(),
        forall|i: int| 0 <= i < s.len() ==> s[i] == MetalAction::Commit(#[trigger] bs[i]),
    ensures
        spec_commits_of(s) == bs,
    decreases s.len(),
{
    if s.len() > 0 {
        assert forall|i: int| 0 <= i < s.drop_first().len()
            implies s.drop_first()[i] == MetalAction::Commit(#[trigger] bs.drop_first()[i]) by {
            assert(s.drop_first()[i] == s[i + 1]);
            assert(bs.drop_first()[i] == bs[i + 1]);
        }
        lemma_commits_of_all(s.drop_first(), bs.drop_first());
        assert(s[0] == MetalAction::Commit(bs[0]));
        assert(spec_commits_of(s) =~= bs);
    }
}

proof fn lemma_commits_of_none(s: Seq<MetalAction>)
    requires
        forall|i: int| 0 <= i < s.len() ==> !((#[trigger] s[i]) matches MetalAction::Commit(_)),
    ensures
        spec_commits_of(s) == Seq::<u64>::empty(),
    decreases s.len(),
{
    if s.len() > 0 {
        assert forall|i: int| 0 <= i < s.drop_first().len()
            implies !((#[trigger] s.drop_first()[i]) matches MetalAction::Commit(_)) by {
            assert(s.drop_first()[i] == s[i + 1]);
        }
        lemma_commits_of_none(s.drop_first());
    }
}

proof fn lemma_group_commits(bufs: Seq<SubmitInfo>, sems: Seq<u64>)
    ensures
        spec_commits_of(spec_group_actions(bufs, sems)) == bufs.map(
            |i: int, b: SubmitInfo| b.command_buffer,
        ),
{
    let mapped = bufs.map(|i: int, b: SubmitInfo| b.command_buffer);
    if bufs.len() == 0 {
        assert(mapped =~= Seq::<u64>::empty());
    } else {
        let last = bufs.last().command_buffer;
        let head = Seq::new(
            (bufs.len() - 1) as nat,
            |i: int| MetalAction::Commit(bufs[i].command_buffer),
        );
        let signals = Seq::new(sems.len(), |i: int| MetalAction::AddCompletedSignal(last, sems[i]));
        let tail = seq![MetalAction::Commit(last)];
        assert(spec_group_actions(bufs, sems) =~= head + signals + tail);
        lemma_commits_of_concat(head, signals);
        lemma_commits_of_concat(head + signals, tail);
        lemma_commits_of_all(head, mapped.drop_last());
        lemma_commits_of_none(signals);
        lemma_commits_of_all(tail, seq![last]);
        assert(spec_commits_of(head + signals) =~= mapped.drop_last());
        assert(spec_commits_of(spec_group_actions(bufs, sems)) =~= mapped.drop_last() + seq![last]);
        assert(mapped.drop_last() + seq![last] =~= mapped);
    }
}

proof fn lemma_groups_commits(groups: Seq<SubmitGroup>)
    ensures
        spec_commits_of(spec_groups_actions(groups)) == spec_all_buffers(groups),
    decreases groups.len(),
{
    if groups.len() > 0 {
        lemma_groups_commits(groups.drop_first());
        lemma_group_commits(groups[0].cmd_buffers@, groups[0].signal_semaphores@);
        lemma_commits_of_concat(
            spec_group_actions(groups[0].cmd_buffers@, groups[0].signal_semaphores@),
            spec_groups_actions(groups.drop_first()),
        );
    }
}

proof fn lemma_all_buffers_snoc(prefix: Seq<SubmitGroup>, g: SubmitGroup)
    ensures
        spec_all_buffers(prefix.push(g)) == spec_all_buffers(prefix) + g.cmd_buffers@.map(
            |i: int, b: SubmitInfo| b.command_buffer,
        ),
    decreases prefix.len(),
{
    let whole = prefix.push(g);
    let mapped = g.cmd_buffers@.map(|i: int, b: SubmitInfo| b.command_buffer);
    if prefix.len() == 0 {
        assert(whole[0] == g);
        assert(whole.drop_first() =~= Seq::<SubmitGroup>::empty());
        assert(spec_all_buffers(whole.drop_first()) == Seq::<u64>::empty());
        assert(spec_all_buffers(whole) =~= spec_all_buffers(prefix) + mapped);
    } else {
        assert(whole[0] == prefix[0]);
        assert(whole.drop_first() =~= prefix.drop_first().push(g));
        lemma_all_buffers_snoc(prefix.drop_first(), g);
        assert(spec_all_buffers(whole) =~= spec_all_buffers(prefix) + mapped);
    }
}

/// The final buffer over all groups is the last of all committed buffers.
proof fn lemma_last_buffer_is_last(groups: Seq<SubmitGroup>)
    ensures
        spec_all_buffers(groups).len() == 0 <==> spec_last_buffer(groups) is None,
        spec_all_buffers(groups).len() > 0 ==> spec_last_buffer(groups) == Some(
            spec_all_buffers(groups).last(),
        ),
    decreases groups.len(),
{
    if groups.len() > 0 {
        lemma_last_buffer_is_last(groups.drop_last());
        lemma_all_buffers_snoc(groups.drop_last(), groups.last());
        let mapped = groups.last().cmd_buffers@.map(|i: int, b: SubmitInfo| b.command_buffer);
        assert(groups.drop_last().push(groups.last()) =~= groups);
        assert(spec_all_buffers(groups) == spec_all_buffers(groups.drop_last()) + mapped);
        if groups.last().cmd_buffers@.len() > 0 {
            assert(mapped.last() == groups.last().cmd_buffers@.last().command_buffer);
            assert(spec_all_buffers(groups).last() == mapped.last());
        } else {
            assert(mapped =~= Seq::<u64>::empty());
            assert(spec_all_buffers(groups) =~= spec_all_buffers(groups.drop_last()));
        }
    }
}

proof fn lemma_count_releases_concat(a: Seq<MetalAction>, b: Seq<MetalAction>, x: u64)
    ensures
        count_releases(a + b, x) == count_releases(a, x) + count_releases(b, x),
    decreases a.len(),
{
    if a.len() == 0 {
        assert(a + b =~= b);
    } else {
        assert((a + b).drop_first() =~= a.drop_first() + b);
        lemma_count_releases_concat(a.drop_first(), b, x);
    }
}

proof fn lemma_count_releases_none(s: Seq<MetalAction>, x: u64)
    requires
        forall|i: int| 0 <= i < s.len() ==> !((#[trigger] s[i]) matches MetalAction::Release(_)),
    ensures
        count_releases(s, x) == 0,
    decreases s.len(),
{
    if s.len() > 0 {
        assert forall|i: int| 0 <= i < s.drop_first().len()
            implies !((#[trigger] s.drop_first()[i]) matches MetalAction::Release(_)) by {
            assert(s.drop_first()[i] == s[i + 1]);
        }
        lemma_count_releases_none(s.drop_first(), x);
    }
}

proof fn lemma_groups_actions_no_release(groups: Seq<SubmitGroup>)
    ensures
        forall|i: int| 0 <= i < spec_groups_actions(groups).len()
            ==> !((#[trigger] spec_groups_actions(groups)[i]) matches MetalAction::Release(_)),
    decreases groups.len(),
{
    if groups.len() > 0 {
        lemma_groups_actions_no_release(groups.drop_first());
        let bufs = groups[0].cmd_buffers@;
        let sems = groups[0].signal_semaphores@;
        let head = spec_group_actions(bufs, sems);
        let rest = spec_groups_actions(groups.drop_first());
        let whole = spec_groups_actions(groups);
        assert forall|i: int| 0 <= i < whole.len()
            implies !((#[trigger] whole[i]) matches MetalAction::Release(_)) by {
            if i < head.len() {
                assert(whole[i] == head[i]);
                if bufs.len() > 0 {
                    assert(head =~= Seq::new(
                        (bufs.len() - 1) as nat,
                        |k: int| MetalAction::Commit(bufs[k].command_buffer),
                    ) + Seq::new(
                        sems.len(),
                        |k: int|
                            MetalAction::AddCompletedSignal(bufs.last().command_buffer, sems[k]),
                    ) + seq![MetalAction::Commit(bufs.last().command_buffer)]);
                }
            } else {
                assert(whole[i] == rest[i - head.len()]);
            }
        }
    }
}

/// Submission, for any sequence of groups: the call stream commits exactly
/// the groups' buffers, each once, in list order; when anything was
/// committed the queue afterwards tracks the final committed buffer only,
/// and the previously tracked buffer, if any, is released exactly once; a
/// submission that commits nothing keeps the tracked buffer and releases
/// nothing.
pub proof fn lemma_submit_commits_in_order_and_tracks_last(
    remembered: Option<u64>,
    groups: Seq<SubmitGroup>,
)
    ensures
        spec_commits_of(spec_submit_actions(remembered, groups)) == spec_all_buffers(groups),
        spec_all_buffers(groups).len() > 0 ==> spec_tracked_after(remembered, groups) == Some(
            spec_all_buffers(groups).last(),
        ),
        spec_all_buffers(groups).len() == 0 ==> spec_tracked_after(remembered, groups)
            == remembered,
        remembered is Some && spec_all_buffers(groups).len() > 0 ==> count_releases(
            spec_submit_actions(remembered, groups),
            remembered.unwrap(),
        ) == 1,
        spec_all_buffers(groups).len() == 0 ==> (forall|b: u64|
            count_releases(spec_submit_actions(remembered, groups), b) == 0),
{
    let ga = spec_groups_actions(groups);
    let ta = spec_track_actions(remembered, groups);
    lemma_groups_commits(groups);
    lemma_last_buffer_is_last(groups);
    lemma_commits_of_concat(ga, ta);
    lemma_groups_actions_no_release(groups);
    match spec_last_buffer(groups) {
        Some(nb) => {
            match remembered {
                Some(ob) => {
                    assert(ta =~= seq![MetalAction::Release(ob), MetalAction::Retain(nb)]);
                    assert(spec_commits_of(ta) =~= Seq::<u64>::empty()) by {
                        reveal_with_fuel(spec_commits_of, 4);
                    }
                    assert(count_releases(ta, ob) == 1) by {
                        reveal_with_fuel(count_releases, 4);
                    }
                    lemma_count_releases_concat(ga, ta, ob);
                    lemma_count_releases_none(ga, ob);
                },
                None => {
                    assert(ta =~= seq![MetalAction::Retain(nb)]);
                    assert(spec_commits_of(ta) =~= Seq::<u64>::empty()) by {
                        reveal_with_fuel(spec_commits_of, 3);
                    }
                },
            }
        },
        None => {
            assert(ta =~= Seq::<MetalAction>::empty());
            assert forall|b: u64|
                count_releases(spec_submit_actions(remembered, groups), b) == 0 by {
                lemma_count_releases_concat(ga, ta, b);
                lemma_count_releases_none(ga, b);
                lemma_count_releases_none(ta, b);
            }
        },
    }
    assert(spec_commits_of(spec_submit_actions(remembered, groups)) =~= spec_all_buffers(groups));
}

/// After two sequential submits with no intervening wait, the queue tracks
/// the second submission's final buffer only, and an idle-wait afterwards
/// waits exactly on that buffer before releasing it.
pub proof fn lemma_two_submits_then_wait(
    remembered: Option<u64>,
    first: Seq<SubmitGroup>,
    second: Seq<SubmitGroup>,
)
    requires
        spec_last_buffer(second) is Some,
    ensures
        ({
            let after_both = spec_tracked_after(spec_tracked_after(remembered, first), second);
            after_both == spec_last_buffer(second) && spec_wait_idle_actions(after_both) == seq![
                MetalAction::WaitUntilCompleted(spec_last_buffer(second).unwrap()),
                MetalAction::Release(spec_last_buffer(second).unwrap()),
            ]
        }),
{
}

/// A command pool: the queue token its buffers are created on, and the
/// recordings it currently keeps alive.
pub struct CommandPool {
    pub queue: u64,
    pub active_buffers: Vec<CommandBuffer>,
}

/// The calls that destroy a pool's recordings in order.
pub open spec fn spec_reset_actions(bufs: Seq<CommandBuffer>) -> Seq<MetalAction>
    decreases bufs.len(),
{
    if bufs.len() == 0 {
        Seq::empty()
    } else {
        spec_close_actions(bufs[0].encoder_state) + seq![
            MetalAction::Release(bufs[0].command_buffer),
        ] + spec_reset_actions(bufs.drop_first())
    }
}

impl CommandPool {
    /// A pool over the given queue, with no recordings yet.
    pub fn from_queue(queue: &CommandQueue) -> (r: CommandPool)
        ensures
            r.queue == queue.queue,
            r.active_buffers@ == Seq::<CommandBuffer>::empty(),
    {
        CommandPool { queue: queue.queue, active_buffers: Vec::new() }
    }

    /// Starts a fresh recording around the native buffer known by `fresh`
    /// and keeps it in the pool; hands back the recording to fill.
    pub fn acquire_command_buffer(&mut self, fresh: u64) -> (r: &mut CommandBuffer)
        ensures
            r.command_buffer == fresh,
            r.encoder_state == EncoderState::Idle,
            r.viewport is None,
            r.scissors is None,
            r.pipeline_state is None,
            r.vertex_buffers@ == Seq::<(u64, u64)>::empty(),
            r.descriptor_sets@ == Seq::<Option<DescriptorSetContents>>::empty(),
            final(self).queue == old(self).queue,
            final(self).active_buffers@ == old(self).active_buffers@.push(*final(r)),
    {
        self.active_buffers.push(CommandBuffer::new(fresh));
        let idx = self.active_buffers.len() - 1;
        &mut self.active_buffers[idx]
    }

    /// Drops every recording the pool keeps, closing and releasing each in
    /// order.
    pub fn reset(&mut self) -> (actions: Vec<MetalAction>)
        ensures
            actions@ == spec_reset_actions(old(self).active_buffers@),
            final(self).queue == old(self).queue,
            final(self).active_buffers@ == Seq::<CommandBuffer>::empty(),
    {
        let mut actions: Vec<MetalAction> = Vec::new();
        let ghost all = self.active_buffers@;
        while self.active_buffers.len() > 0
            invariant
                self.queue == old(self).queue,
                actions@ + spec_reset_actions(self.active_buffers@) =~= spec_reset_actions(all),
            decreases self.active_buffers@.len(),
        {
            let ghost before = self.active_buffers@;
            let buf = self.active_buffers.remove(0);
            let mut acts = buf.destroy();
            let m = acts.len();
            let ghost base = actions@;
            let mut i: usize = 0;
            while i < m
                invariant
                    i <= m,
                    m == acts@.len(),
                    actions@ =~= base + acts@.subrange(0, i as int),
                decreases m - i,
            {
                actions.push(acts[i]);
                i = i + 1;
            }
            proof {
                assert(actions@ =~= base + acts@);
                assert(before.drop_first() =~= self.active_buffers@);
                assert(base + (spec_close_actions(before[0].encoder_state) + seq![
                    MetalAction::Release(before[0].command_buffer),
                ] + spec_reset_actions(before.drop_first())) =~= spec_reset_actions(all));
                assert(actions@ + spec_reset_actions(self.active_buffers@) =~= spec_reset_actions(
                    all,
                ));
            }
        }
        proof {
            assert(actions@ =~= spec_reset_actions(all));
        }
        actions
    }

    /// The pool reserves nothing ahead of time.
    pub fn reserve(&mut self, additional: usize)
        ensures
            *final(self) == *old(self),
    {
        let _ = additional;
    }
}

/// A clear color of one attachment.
#[derive(Clone, Copy, Debug, PartialEq, Eq, Structural)]
pub enum ClearColor {
    Float(ColorValue),
    Int(i32, i32, i32, i32),
    Uint(u32, u32, u32, u32),
}

/// A clear value of one attachment.
#[derive(Clone, Copy, Debug, PartialEq, Eq, Structural)]
pub enum ClearValue {
    Color(ClearColor),
    DepthStencil(F32Bits, u32),
}

/// Whether any clear value is of a kind this backend shape has not wired:
/// only floating-point color clears are.
pub open spec fn spec_clear_gap(values: Seq<ClearValue>) -> bool {
    exists|i: int|
        0 <= i < values.len() && !((#[trigger] values[i]) matches ClearValue::Color(
            ClearColor::Float(_),
        ))
}

/// The color a clear value stores; meaningful for float color clears, the
/// only kind the gap check lets through.
pub open spec fn spec_clear_color_of(v: ClearValue) -> ColorValue {
    match v {
        ClearValue::Color(ClearColor::Float(c)) => c,
        _ => ColorValue {
            r: F32Bits { bits: 0 },
            g: F32Bits { bits: 0 },
            b: F32Bits { bits: 0 },
            a: F32Bits { bits: 0 },
        },
    }
}

/// The calls that store the clear colors on the pass descriptor, one per
/// attachment index in order.
pub open spec fn spec_clear_actions(fb: u64, values: Seq<ClearValue>) -> Seq<MetalAction> {
    Seq::new(
        values.len(),
        |i: int| MetalAction::SetClearColor(fb, i as usize, spec_clear_color_of(values[i])),
    )
}

/// The shader stages that see a binding number, from the set's layout:
/// the first matching layout entry decides.
pub open spec fn spec_lookup_stage(layout: Seq<StageBinding>, binding: u64) -> Option<u32>
    decreases layout.len(),
{
    if layout.len() == 0 {
        None
    } else if layout[0].binding == binding {
        Some(layout[0].stage_flags)
    } else {
        spec_lookup_stage(layout.drop_first(), binding)
    }
}

/// How many resources one assignment records.
pub open spec fn spec_binding_len(b: DescriptorSetBinding) -> nat {
    match b {
        DescriptorSetBinding::Sampler(v) => v@.len(),
        DescriptorSetBinding::SampledImage(v) => v@.len(),
        DescriptorSetBinding::Buffer(v) => v@.len(),
    }
}

/// A set is replayable when every recorded assignment has a layout entry
/// and at least one recorded resource.
pub open spec fn spec_set_wf(s: DescriptorSetContents) -> bool {
    forall|i: int|
        0 <= i < s.bindings@.len() ==> ((#[trigger] spec_lookup_stage(
            s.layout@,
            s.bindings@[i].0,
        )) is Some && spec_binding_len(s.bindings@[i].1) >= 1)
}

/// Every captured set is replayable.
pub open spec fn spec_sets_wf(sets: Seq<Option<DescriptorSetContents>>) -> bool {
    forall|i: int|
        0 <= i < sets.len() ==> ((#[trigger] sets[i]) matches Some(s) ==> spec_set_wf(s))
}

/// The gap, if any, that replaying one recorded assignment would hit:
/// fragment-stage bindings carry exactly one resource of sampler or
/// sampled-image kind; anything more, another kind, or a vertex-stage
/// binding is unwired.
pub open spec fn spec_binding_gap(layout: Seq<StageBinding>, b: (u64, DescriptorSetBinding)) -> Option<
    Unimplemented,
> {
    match spec_lookup_stage(layout, b.0) {
        Some(st) => {
            let pixel_gap = if st & STAGE_PIXEL != 0 {
                match b.1 {
                    DescriptorSetBinding::Sampler(v) => if v@.len() > 1 {
                        Some(Unimplemented::MultiResourceArrayBinding)
                    } else {
                        None
                    },
                    DescriptorSetBinding::SampledImage(v) => if v@.len() > 1 {
                        Some(Unimplemented::MultiResourceArrayBinding)
                    } else {
                        None
                    },
                    DescriptorSetBinding::Buffer(_) => Some(Unimplemented::BindingKind),
                }
            } else {
                None
            };
            if pixel_gap is Some {
                pixel_gap
            } else if st & STAGE_VERTEX != 0 {
                Some(Unimplemented::VertexStageBinding)
            } else {
                None
            }
        },
        None => None,
    }
}

/// The first gap among a set's assignments, in recording order.
pub open spec fn spec_set_first_gap(
    layout: Seq<StageBinding>,
    bindings: Seq<(u64, DescriptorSetBinding)>,
) -> Option<Unimplemented>
    decreases bindings.len(),
{
    if bindings.len() == 0 {
        None
    } else {
        match spec_binding_gap(layout, bindings[0]) {
            Some(g) => Some(g),
            None => spec_set_first_gap(layout, bindings.drop_first()),
        }
    }
}

/// The first gap among the captured sets, in slot order.
pub open spec fn spec_sets_first_gap(sets: Seq<Option<DescriptorSetContents>>) -> Option<
    Unimplemented,
>
    decreases sets.len(),
{
    if sets.len() == 0 {
        None
    } else {
        let head = match sets[0] {
            Some(s) => spec_set_first_gap(s.layout@, s.bindings@),
            None => None,
        };
        match head {
            Some(g) => Some(g),
            None => spec_sets_first_gap(sets.drop_first()),
        }
    }
}

/// The gap a render-encoder open hits, if any: the clear values are
/// examined first, then the captured sets in slot order.
pub open spec fn spec_begin_gap(
    values: Seq<ClearValue>,
    sets: Seq<Option<DescriptorSetContents>>,
) -> Option<Unimplemented> {
    if spec_clear_gap(values) {
        Some(Unimplemented::ClearValueKind)
    } else {
        spec_sets_first_gap(sets)
    }
}

/// The fragment-stage call of one recorded assignment; assignments no
/// fragment stage sees replay nothing.
pub open spec fn spec_binding_actions(
    enc: u64,
    layout: Seq<StageBinding>,
    b: (u64, DescriptorSetBinding),
) -> Seq<MetalAction> {
    match spec_lookup_stage(layout, b.0) {
        Some(st) => if st & STAGE_PIXEL != 0 {
            match b.1 {
                DescriptorSetBinding::Sampler(v) => seq![
                    MetalAction::SetFragmentSamplerState(enc, b.0, v@[0]),
                ],
                DescriptorSetBinding::SampledImage(v) => seq![
                    MetalAction::SetFragmentTexture(enc, b.0, v@[0].0),
                ],
                DescriptorSetBinding::Buffer(_) => Seq::empty(),
            }
        } else {
            Seq::empty()
        },
        None => Seq::empty(),
    }
}

/// The replay calls of one set's assignments, in recording order.
pub open spec fn spec_set_actions(
    enc: u64,
    layout: Seq<StageBinding>,
    bindings: Seq<(u64, DescriptorSetBinding)>,
) -> Seq<MetalAction>
    decreases bindings.len(),
{
    if bindings.len() == 0 {
        Seq::empty()
    } else {
        spec_binding_actions(enc, layout, bindings[0]) + spec_set_actions(
            enc,
            layout,
            bindings.drop_first(),
        )
    }
}

/// The replay calls of every captured set, in slot order; empty slots
/// replay nothing.
pub open spec fn spec_sets_actions(enc: u64, sets: Seq<Option<DescriptorSetContents>>) -> Seq<
    MetalAction,
>
    decreases sets.len(),
{
    if sets.len() == 0 {
        Seq::empty()
    } else {
        (match sets[0] {
            Some(s) => spec_set_actions(enc, s.layout@, s.bindings@),
            None => Seq::empty(),
        }) + spec_sets_actions(enc, sets.drop_first())
    }
}

/// The calls that re-apply the captured bound state onto a fresh render
/// encoder, which inherits nothing from the buffer wrapper: viewport and
/// scissor where captured, the bound pipeline, the vertex buffers in slot
/// order, then each captured set's fragment-visible assignments.
pub open spec fn spec_replay_actions(cb: CommandBuffer, enc: u64) -> Seq<MetalAction> {
    let vp = match cb.viewport {
        Some(r) => seq![MetalAction::SetViewport(enc, r)],
        None => Seq::empty(),
    };
    let sc = match cb.scissors {
        Some(r) => seq![MetalAction::SetScissorRect(enc, r)],
        None => Seq::empty(),
    };
    let ps = seq![MetalAction::SetRenderPipelineState(enc, cb.pipeline_state.unwrap())];
    let vbs = Seq::new(
        cb.vertex_buffers@.len(),
        |i: int|
            MetalAction::SetVertexBuffer(
                enc,
                i as usize,
                cb.vertex_buffers@[i].1,
                cb.vertex_buffers@[i].0,
            ),
    );
    vp + sc + ps + vbs + spec_sets_actions(enc, cb.descriptor_sets@)
}

/// Every call of a render-encoder open from a non-render state: close the
/// open encoder, store the clear colors on the pass descriptor, create the
/// fresh encoder, replay the captured state onto it.
pub open spec fn spec_begin_actions(
    cb: CommandBuffer,
    fb: u64,
    values: Seq<ClearValue>,
    fresh: u64,
) -> Seq<MetalAction> {
    spec_close_actions(cb.encoder_state) + spec_clear_actions(fb, values) + seq![
        MetalAction::CreateRenderEncoder(cb.command_buffer, fb, fresh),
    ] + spec_replay_actions(cb, fresh)
}

/// A buffer of the retained backend: its native token.
#[derive(Clone, Copy, Debug, PartialEq, Eq, Structural)]
pub struct MtlBuffer {
    pub raw: u64,
}

/// An image of the retained backend: its native texture token and the
/// facts of it that copies read.
#[derive(Clone, Copy, Debug, PartialEq, Eq, Structural)]
pub struct MtlImage {
    pub raw: u64,
    pub bytes_per_pixel: u64,
    pub width: u64,
    pub height: u64,
}

/// One region of a buffer-to-image copy.
#[derive(Clone, Copy, Debug, PartialEq, Eq, Structural)]
pub struct BufferImageCopy {
    pub buffer_offset: u64,
    pub width: u64,
    pub height: u64,
    pub depth: u64,
    pub x: u64,
    pub y: u64,
    pub z: u64,
    pub image_layers: u32,
    pub image_base_layer: u64,
    pub image_mip_level: u64,
}

/// The resolved copy call of one region: rows are tightly packed, so a row
/// spans the image width and an image slice spans the whole height.
pub open spec fn spec_copy_region(enc: u64, src: MtlBuffer, dst: MtlImage, region: BufferImageCopy) -> MetalAction {
    MetalAction::CopyBufferToTexture(
        BufferTextureCopy {
            encoder: enc,
            buffer: src.raw,
            buffer_offset: region.buffer_offset,
            bytes_per_row: (dst.bytes_per_pixel * dst.width) as u64,
            bytes_per_image: (dst.bytes_per_pixel * dst.width * dst.height) as u64,
            width: region.width,
            height: region.height,
            depth: region.depth,
            texture: dst.raw,
            base_layer: region.image_base_layer,
            mip_level: region.image_mip_level,
            x: region.x,
            y: region.y,
            z: region.z,
        },
    )
}

/// The copy calls of all regions, in order.
pub open spec fn spec_copy_regions(
    enc: u64,
    src: MtlBuffer,
    dst: MtlImage,
    regions: Seq<BufferImageCopy>,
) -> Seq<MetalAction> {
    Seq::new(regions.len(), |i: int| spec_copy_region(enc, src, dst, regions[i]))
}

impl CommandBuffer {
    /// Copies buffer regions into an image through the blit encoder,
    /// requesting it first as the encoder machine prescribes.  Copying more
    /// than one layer at a time is an unimplemented gap: such a region
    /// fails loudly and nothing is recorded.
    pub fn copy_buffer_to_image(
        &mut self,
        fresh: u64,
        src: &MtlBuffer,
        dst: &MtlImage,
        regions: &Vec<BufferImageCopy>,
    ) -> (r: Result<Vec<MetalAction>, Unimplemented>)
        requires
            dst.bytes_per_pixel * dst.width <= u64::MAX,
            dst.bytes_per_pixel * dst.width * dst.height <= u64::MAX,
        ensures
            (exists|i: int| 0 <= i < regions@.len() && #[trigger] regions@[i].image_layers != 1)
                ==> r == Err::<Vec<MetalAction>, Unimplemented>(Unimplemented::MultipleLayerCopy)
                && *final(self) == *old(self),
            (forall|i: int| 0 <= i < regions@.len() ==> #[trigger] regions@[i].image_layers == 1)
                ==> ({
                let (state1, enc, request) = spec_request_blit(
                    old(self).command_buffer,
                    old(self).encoder_state,
                    fresh,
                );
                r matches Ok(actions) && actions@ == request + spec_copy_regions(
                    enc,
                    *src,
                    *dst,
                    regions@,
                ) && *final(self) == (CommandBuffer { encoder_state: state1, ..*old(self) })
            }),
    {
        let n = regions.len();
        let mut i: usize = 0;
        while i < n
            invariant
                i <= n,
                n == regions@.len(),
                forall|j: int| 0 <= j < i ==> #[trigger] regions@[j].image_layers == 1,
            decreases n - i,
        {
            if regions[i].image_layers != 1 {
                return Err(Unimplemented::MultipleLayerCopy);
            }
            i = i + 1;
        }
        let (enc, mut actions) = self.encode_blit(fresh);
        let bytes_per_row = dst.bytes_per_pixel * dst.width;
        let bytes_per_image = bytes_per_row * dst.height;
        let ghost base = actions@;
        let mut k: usize = 0;
        while k < n
            invariant
                k <= n,
                n == regions@.len(),
                bytes_per_row == dst.bytes_per_pixel * dst.width,
                bytes_per_image == dst.bytes_per_pixel * dst.width * dst.height,
                actions@ =~= base + spec_copy_regions(enc, *src, *dst, regions@.subrange(0, k as int)),
            decreases n - k,
        {
            let region = regions[k];
            actions.push(MetalAction::CopyBufferToTexture(
                BufferTextureCopy {
                    encoder: enc,
                    buffer: src.raw,
                    buffer_offset: region.buffer_offset,
                    bytes_per_row,
                    bytes_per_image,
                    width: region.width,
                    height: region.height,
                    depth: region.depth,
                    texture: dst.raw,
                    base_layer: region.image_base_layer,
                    mip_level: region.image_mip_level,
                    x: region.x,
                    y: region.y,
                    z: region.z,
                },
            ));
            proof {
                assert(actions@ =~= base + spec_copy_regions(
                    enc,
                    *src,
                    *dst,
                    regions@.subrange(0, k as int + 1),
                ));
            }
            k = k + 1;
        }
        proof {
            assert(regions@.subrange(0, n as int) =~= regions@);
        }
        Ok(actions)
    }

    /// Records a draw of triangle primitives into the open render encoder.
    /// Instanced draws are an unimplemented gap and fail loudly.
    pub fn draw(&self, start: u32, count: u32, instances: Option<(u32, u32)>) -> (r: Result<
        Vec<MetalAction>,
        Unimplemented,
    >)
        requires
            self.encoder_state matches EncoderState::Render(_),
        ensures
            instances is Some ==> r == Err::<Vec<MetalAction>, Unimplemented>(
                Unimplemented::InstancedDraw,
            ),
            instances is None ==> (r matches Ok(actions) && self.encoder_state matches
                EncoderState::Render(h) && actions@ == seq![
                MetalAction::DrawTrianglePrimitives(h, start as u64, count as u64),
            ]),
    {
        if instances.is_some() {
            return Err(Unimplemented::InstancedDraw);
        }
        let h = match self.encoder_state {
            EncoderState::Render(h) => h,
            _ => 0,
        };
        let mut actions: Vec<MetalAction> = Vec::new();
        actions.push(MetalAction::DrawTrianglePrimitives(h, start as u64, count as u64));
        proof {
            assert(actions@ =~= seq![
                MetalAction::DrawTrianglePrimitives(h, start as u64, count as u64),
            ]);
        }
        Ok(actions)
    }
}

/// The retained backend's one queue family.
#[derive(Clone, Copy, Debug, PartialEq, Eq, Structural)]
pub struct QueueFamily;

impl QueueFamily {
    /// Every surface of this backend can be presented to from the family.
    pub fn supports_present(&self, surface: u64) -> (r: bool)
        ensures
            r,
    {
        let _ = surface;
        true
    }

    pub fn num_queues(&self) -> (r: u32)
        ensures
            r == 1,
    {
        1
    }
}

/// The shader stages that see a binding number: the first matching layout
/// entry decides.
fn lookup_stage(layout: &Vec<StageBinding>, binding: u64) -> (r: Option<u32>)
    ensures
        r == spec_lookup_stage(layout@, binding),
{
    let n = layout.len();
    proof {
        assert(layout@.subrange(0, n as int) =~= layout@);
    }
    let mut i: usize = 0;
    while i < n
        invariant
            i <= n,
            n == layout@.len(),
            spec_lookup_stage(layout@, binding) == spec_lookup_stage(
                layout@.subrange(i as int, n as int),
                binding,
            ),
        decreases n - i,
    {
        proof {
            assert(layout@.subrange(i as int, n as int)[0] == layout@[i as int]);
            assert(layout@.subrange(i as int, n as int).drop_first() =~= layout@.subrange(
                i as int + 1,
                n as int,
            ));
        }
        if layout[i].binding == binding {
            return Some(layout[i].stage_flags);
        }
        i = i + 1;
    }
    proof {
        assert(layout@.subrange(n as int, n as int) =~= Seq::<StageBinding>::empty());
    }
    None
}

/// The gap one recorded assignment would hit at replay, if any.
fn binding_gap(layout: &Vec<StageBinding>, binding: u64, values: &DescriptorSetBinding) -> (r:
    Option<Unimplemented>)
    ensures
        r == spec_binding_gap(layout@, (binding, *values)),
{
    match lookup_stage(layout, binding) {
        Some(st) => {
            if st & STAGE_PIXEL != 0 {
                match values {
                    DescriptorSetBinding::Sampler(v) => {
                        if v.len() > 1 {
                            return Some(Unimplemented::MultiResourceArrayBinding);
                        }
                    },
                    DescriptorSetBinding::SampledImage(v) => {
                        if v.len() > 1 {
                            return Some(Unimplemented::MultiResourceArrayBinding);
                        }
                    },
                    DescriptorSetBinding::Buffer(_) => {
                        return Some(Unimplemented::BindingKind);
                    },
                }
            }
            if st & STAGE_VERTEX != 0 {
                return Some(Unimplemented::VertexStageBinding);
            }
            None
        },
        None => None,
    }
}

/// Appends the fragment-stage replay call of one assignment.
fn push_binding_actions(
    actions: &mut Vec<MetalAction>,
    enc: u64,
    layout: &Vec<StageBinding>,
    binding: u64,
    values: &DescriptorSetBinding,
)
    requires
        spec_binding_len(*values) >= 1,
    ensures
        final(actions)@ == old(actions)@ + spec_binding_actions(enc, layout@, (binding, *values)),
{
    match lookup_stage(layout, binding) {
        Some(st) => {
            if st & STAGE_PIXEL != 0 {
                match values {
                    DescriptorSetBinding::Sampler(v) => {
                        actions.push(MetalAction::SetFragmentSamplerState(enc, binding, v[0]));
                    },
                    DescriptorSetBinding::SampledImage(v) => {
                        actions.push(MetalAction::SetFragmentTexture(enc, binding, v[0].0));
                    },
                    DescriptorSetBinding::Buffer(_) => {},
                }
            }
        },
        None => {},
    }
    proof {
        assert(actions@ =~= old(actions)@ + spec_binding_actions(enc, layout@, (binding, *values)));
    }
}

proof fn lemma_set_first_gap_none(layout: Seq<StageBinding>, bindings: Seq<(u64, DescriptorSetBinding)>)
    requires
        forall|i: int| 0 <= i < bindings.len()
            ==> #[trigger] spec_binding_gap(layout, bindings[i]) is None,
    ensures
        spec_set_first_gap(layout, bindings) is None,
    decreases bindings.len(),
{
    if bindings.len() > 0 {
        assert forall|i: int| 0 <= i < bindings.drop_first().len()
            implies #[trigger] spec_binding_gap(layout, bindings.drop_first()[i]) is None by {
            assert(bindings.drop_first()[i] == bindings[i + 1]);
        }
        lemma_set_first_gap_none(layout, bindings.drop_first());
    }
}

proof fn lemma_set_first_gap_at(
    layout: Seq<StageBinding>,
    bindings: Seq<(u64, DescriptorSetBinding)>,
    j: int,
)
    requires
        0 <= j < bindings.len(),
        forall|i: int| 0 <= i < j ==> #[trigger] spec_binding_gap(layout, bindings[i]) is None,
        spec_binding_gap(layout, bindings[j]) is Some,
    ensures
        spec_set_first_gap(layout, bindings) == spec_binding_gap(layout, bindings[j]),
    decreases j,
{
    if j == 0 {
    } else {
        assert(spec_binding_gap(layout, bindings[0]) is None);
        assert forall|i: int| 0 <= i < j - 1
            implies #[trigger] spec_binding_gap(layout, bindings.drop_first()[i]) is None by {
            assert(bindings.drop_first()[i] == bindings[i + 1]);
        }
        assert(bindings.drop_first()[j - 1] == bindings[j]);
        lemma_set_first_gap_at(layout, bindings.drop_first(), j - 1);
    }
}

proof fn lemma_sets_first_gap_none(sets: Seq<Option<DescriptorSetContents>>)
    requires
        forall|i: int| 0 <= i < sets.len()
            ==> ((#[trigger] sets[i]) matches Some(s) ==> spec_set_first_gap(s.layout@, s.bindings@) is None),
    ensures
        spec_sets_first_gap(sets) is None,
    decreases sets.len(),
{
    if sets.len() > 0 {
        assert forall|i: int| 0 <= i < sets.drop_first().len()
            implies ((#[trigger] sets.drop_first()[i]) matches Some(s)
                ==> spec_set_first_gap(s.layout@, s.bindings@) is None) by {
            assert(sets.drop_first()[i] == sets[i + 1]);
        }
        lemma_sets_first_gap_none(sets.drop_first());
    }
}

proof fn lemma_sets_first_gap_at(sets: Seq<Option<DescriptorSetContents>>, j: int)
    requires
        0 <= j < sets.len(),
        forall|i: int| 0 <= i < j
            ==> ((#[trigger] sets[i]) matches Some(s) ==> spec_set_first_gap(s.layout@, s.bindings@) is None),
        sets[j] matches Some(s) && spec_set_first_gap(s.layout@, s.bindings@) is Some,
    ensures
        (sets[j] matches Some(s) && spec_sets_first_gap(sets) == spec_set_first_gap(
            s.layout@,
            s.bindings@,
        )),
    decreases j,
{
    if j == 0 {
    } else {
        assert forall|i: int| 0 <= i < j - 1
            implies ((#[trigger] sets.drop_first()[i]) matches Some(s)
                ==> spec_set_first_gap(s.layout@, s.bindings@) is None) by {
            assert(sets.drop_first()[i] == sets[i + 1]);
        }
        assert(sets.drop_first()[j - 1] == sets[j]);
        assert(sets[0] matches Some(s) ==> spec_set_first_gap(s.layout@, s.bindings@) is None);
        lemma_sets_first_gap_at(sets.drop_first(), j - 1);
    }
}

proof fn lemma_set_actions_snoc(
    enc: u64,
    layout: Seq<StageBinding>,
    prefix: Seq<(u64, DescriptorSetBinding)>,
    b: (u64, DescriptorSetBinding),
)
    ensures
        spec_set_actions(enc, layout, prefix.push(b)) == spec_set_actions(enc, layout, prefix)
            + spec_binding_actions(enc, layout, b),
    decreases prefix.len(),
{
    let whole = prefix.push(b);
    if prefix.len() == 0 {
        assert(whole[0] == b);
        assert(whole.drop_first() =~= Seq::<(u64, DescriptorSetBinding)>::empty());
        assert(spec_set_actions(enc, layout, whole.drop_first()) == Seq::<MetalAction>::empty());
        assert(spec_set_actions(enc, layout, whole) =~= spec_set_actions(enc, layout, prefix)
            + spec_binding_actions(enc, layout, b));
    } else {
        assert(whole.drop_first() =~= prefix.drop_first().push(b));
        assert(whole[0] == prefix[0]);
        lemma_set_actions_snoc(enc, layout, prefix.drop_first(), b);
        assert(spec_set_actions(enc, layout, whole) =~= spec_set_actions(enc, layout, prefix)
            + spec_binding_actions(enc, layout, b));
    }
}

proof fn lemma_sets_actions_snoc(
    enc: u64,
    prefix: Seq<Option<DescriptorSetContents>>,
    s: Option<DescriptorSetContents>,
)
    ensures
        spec_sets_actions(enc, prefix.push(s)) == spec_sets_actions(enc, prefix) + (match s {
            Some(c) => spec_set_actions(enc, c.layout@, c.bindings@),
            None => Seq::<MetalAction>::empty(),
        }),
    decreases prefix.len(),
{
    let whole = prefix.push(s);
    if prefix.len() == 0 {
        assert(whole[0] == s);
        assert(whole.drop_first() =~= Seq::<Option<DescriptorSetContents>>::empty());
        assert(spec_sets_actions(enc, whole.drop_first()) == Seq::<MetalAction>::empty());
        assert(spec_sets_actions(enc, whole) =~= spec_sets_actions(enc, prefix) + (match s {
            Some(c) => spec_set_actions(enc, c.layout@, c.bindings@),
            None => Seq::<MetalAction>::empty(),
        }));
    } else {
        assert(whole.drop_first() =~= prefix.drop_first().push(s));
        assert(whole[0] == prefix[0]);
        lemma_sets_actions_snoc(enc, prefix.drop_first(), s);
        assert(spec_sets_actions(enc, whole) =~= spec_sets_actions(enc, prefix) + (match s {
            Some(c) => spec_set_actions(enc, c.layout@, c.bindings@),
            None => Seq::<MetalAction>::empty(),
        }));
    }
}

/// The first unwired clear-value kind among the given values, if any.
fn clear_values_gap(values: &Vec<ClearValue>) -> (r: Option<Unimplemented>)
    ensures
        r == (if spec_clear_gap(values@) {
            Some(Unimplemented::ClearValueKind)
        } else {
            None::<Unimplemented>
        }),
{
    let n = values.len();
    let mut i: usize = 0;
    while i < n
        invariant
            i <= n,
            n == values@.len(),
            forall|j: int| 0 <= j < i
                ==> ((#[trigger] values@[j]) matches ClearValue::Color(ClearColor::Float(_))),
        decreases n - i,
    {
        match &values[i] {
            ClearValue::Color(ClearColor::Float(_)) => {},
            _ => {
                proof {
                    assert(spec_clear_gap(values@));
                }
                return Some(Unimplemented::ClearValueKind);
            },
        }
        i = i + 1;
    }
    proof {
        assert(!spec_clear_gap(values@));
    }
    None
}

/// The first gap among one set's assignments, if any.
fn set_gap(set: &DescriptorSetContents) -> (r: Option<Unimplemented>)
    ensures
        r == spec_set_first_gap(set.layout@, set.bindings@),
{
    let nb = set.bindings.len();
    let mut bi: usize = 0;
    while bi < nb
        invariant
            bi <= nb,
            nb == set.bindings@.len(),
            forall|k: int| 0 <= k < bi
                ==> #[trigger] spec_binding_gap(set.layout@, set.bindings@[k]) is None,
        decreases nb - bi,
    {
        let entry = &set.bindings[bi];
        proof {
            assert(*entry == set.bindings@[bi as int]);
        }
        match binding_gap(&set.layout, entry.0, &entry.1) {
            Some(g) => {
                proof {
                    lemma_set_first_gap_at(set.layout@, set.bindings@, bi as int);
                }
                return Some(g);
            },
            None => {},
        }
        bi = bi + 1;
    }
    proof {
        lemma_set_first_gap_none(set.layout@, set.bindings@);
    }
    None
}

/// The first gap among the captured sets, in slot order, if any.
fn sets_gap(sets: &Vec<Option<DescriptorSetContents>>) -> (r: Option<Unimplemented>)
    ensures
        r == spec_sets_first_gap(sets@),
{
    let n = sets.len();
    let mut si: usize = 0;
    while si < n
        invariant
            si <= n,
            n == sets@.len(),
            forall|j: int| 0 <= j < si
                ==> ((#[trigger] sets@[j]) matches Some(s) ==> spec_set_first_gap(
                    s.layout@,
                    s.bindings@,
                ) is None),
        decreases n - si,
    {
        let slot = &sets[si];
        proof {
            assert(*slot == sets@[si as int]);
        }
        match slot {
            Some(set) => {
                match set_gap(set) {
                    Some(g) => {
                        proof {
                            lemma_sets_first_gap_at(sets@, si as int);
                        }
                        return Some(g);
                    },
                    None => {},
                }
            },
            None => {},
        }
        si = si + 1;
    }
    proof {
        lemma_sets_first_gap_none(sets@);
    }
    None
}

/// Appends the calls that store the clear colors on the pass descriptor.
fn push_clear_actions(actions: &mut Vec<MetalAction>, fb: u64, values: &Vec<ClearValue>)
    requires
        !spec_clear_gap(values@),
    ensures
        final(actions)@ == old(actions)@ + spec_clear_actions(fb, values@),
{
    let ghost base = actions@;
    let n = values.len();
    let mut i: usize = 0;
    while i < n
        invariant
            i <= n,
            n == values@.len(),
            !spec_clear_gap(values@),
            actions@ =~= base + spec_clear_actions(fb, values@.subrange(0, i as int)),
        decreases n - i,
    {
        match &values[i] {
            ClearValue::Color(ClearColor::Float(c)) => {
                actions.push(MetalAction::SetClearColor(fb, i, *c));
            },
            _ => {
                proof {
                    assert(values@[i as int] == *(&values@[i as int]));
                    assert(spec_clear_gap(values@));
                }
            },
        }
        proof {
            assert(actions@ =~= base + spec_clear_actions(fb, values@.subrange(0, i as int + 1)));
        }
        i = i + 1;
    }
    proof {
        assert(values@.subrange(0, n as int) =~= values@);
    }
}

/// Appends one set's fragment-visible replay calls.
fn push_set_actions(actions: &mut Vec<MetalAction>, enc: u64, set: &DescriptorSetContents)
    requires
        spec_set_wf(*set),
    ensures
        final(actions)@ == old(actions)@ + spec_set_actions(enc, set.layout@, set.bindings@),
{
    let ghost base = actions@;
    let nb = set.bindings.len();
    let mut bi: usize = 0;
    while bi < nb
        invariant
            bi <= nb,
            nb == set.bindings@.len(),
            spec_set_wf(*set),
            actions@ =~= base + spec_set_actions(enc, set.layout@, set.bindings@.subrange(0, bi as int)),
        decreases nb - bi,
    {
        let entry = &set.bindings[bi];
        proof {
            assert(*entry == set.bindings@[bi as int]);
            assert(spec_lookup_stage(set.layout@, set.bindings@[bi as int].0) is Some);
        }
        push_binding_actions(actions, enc, &set.layout, entry.0, &entry.1);
        proof {
            assert(set.bindings@.subrange(0, bi as int).push(set.bindings@[bi as int]) =~= set.bindings@.subrange(
                0,
                bi as int + 1,
            ));
            lemma_set_actions_snoc(
                enc,
                set.layout@,
                set.bindings@.subrange(0, bi as int),
                set.bindings@[bi as int],
            );
        }
        bi = bi + 1;
    }
    proof {
        assert(set.bindings@.subrange(0, nb as int) =~= set.bindings@);
    }
}

impl CommandBuffer {
    /// Appends the calls that re-apply this buffer's captured state onto
    /// the fresh render encoder.
    fn replay_onto(&self, enc: u64, actions: &mut Vec<MetalAction>)
        requires
            self.pipeline_state is Some,
            spec_sets_wf(self.descriptor_sets@),
        ensures
            final(actions)@ == old(actions)@ + spec_replay_actions(*self, enc),
    {
        let ghost base = actions@;
        match self.viewport {
            Some(r) => {
                actions.push(MetalAction::SetViewport(enc, r));
            },
            None => {},
        }
        match self.scissors {
            Some(r) => {
                actions.push(MetalAction::SetScissorRect(enc, r));
            },
            None => {},
        }
        let ps = match self.pipeline_state {
            Some(p) => p,
            None => 0,
        };
        actions.push(MetalAction::SetRenderPipelineState(enc, ps));

        let ghost before_vbs = actions@;
        let nvb = self.vertex_buffers.len();
        let mut vi: usize = 0;
        while vi < nvb
            invariant
                vi <= nvb,
                nvb == self.vertex_buffers@.len(),
                actions@ =~= before_vbs + Seq::new(
                    vi as nat,
                    |i: int|
                        MetalAction::SetVertexBuffer(
                            enc,
                            i as usize,
                            self.vertex_buffers@[i].1,
                            self.vertex_buffers@[i].0,
                        ),
                ),
            decreases nvb - vi,
        {
            let (buffer, offset) = self.vertex_buffers[vi];
            actions.push(MetalAction::SetVertexBuffer(enc, vi, offset, buffer));
            proof {
                assert(actions@ =~= before_vbs + Seq::new(
                    (vi + 1) as nat,
                    |i: int|
                        MetalAction::SetVertexBuffer(
                            enc,
                            i as usize,
                            self.vertex_buffers@[i].1,
                            self.vertex_buffers@[i].0,
                        ),
                ));
            }
            vi = vi + 1;
        }

        let ghost before_sets = actions@;
        let nsets = self.descriptor_sets.len();
        let mut si: usize = 0;
        while si < nsets
            invariant
                si <= nsets,
                nsets == self.descriptor_sets@.len(),
                spec_sets_wf(self.descriptor_sets@),
                actions@ =~= before_sets + spec_sets_actions(
                    enc,
                    self.descriptor_sets@.subrange(0, si as int),
                ),
            decreases nsets - si,
        {
            let ghost prefix = self.descriptor_sets@.subrange(0, si as int);
            let slot = &self.descriptor_sets[si];
            proof {
                assert(*slot == self.descriptor_sets@[si as int]);
            }
            match slot {
                Some(set) => {
                    proof {
                        assert(self.descriptor_sets@[si as int] matches Some(s) && s == *set);
                    }
                    push_set_actions(actions, enc, set);
                },
                None => {},
            }
            proof {
                assert(prefix.push(self.descriptor_sets@[si as int]) =~= self.descriptor_sets@.subrange(
                    0,
                    si as int + 1,
                ));
                lemma_sets_actions_snoc(enc, prefix, self.descriptor_sets@[si as int]);
            }
            si = si + 1;
        }
        proof {
            assert(self.descriptor_sets@.subrange(0, nsets as int) =~= self.descriptor_sets@);
            assert(actions@ =~= base + spec_replay_actions(*self, enc));
        }
    }

    /// Requests the render encoder.  An open render encoder is reused; any
    /// other open encoder is closed exactly once, the clear colors are
    /// stored on the pass descriptor `framebuffer`, the fresh render
    /// encoder known by `fresh` is created, and every piece of previously
    /// captured state — viewport, scissor, bound pipeline, vertex buffers,
    /// descriptor sets filtered by their declared stage visibility — is
    /// re-applied onto it, because a fresh native encoder inherits no
    /// state from the buffer wrapper.
    ///
    /// A draw before a pipeline is bound is a fatal precondition violation
    /// enforced here, at render-encoder-open time: the admitted inputs
    /// carry a bound pipeline.  Non-float clear values, multi-resource
    /// array bindings, non-sampler/texture binding kinds and vertex-stage
    /// resource binding are unimplemented gaps: they fail loudly, first
    /// gap in examination order first, and nothing is recorded.
    pub fn begin_render_pass(
        &mut self,
        framebuffer: u64,
        clear_values: &Vec<ClearValue>,
        fresh: u64,
    ) -> (r: Result<(u64, Vec<MetalAction>), Unimplemented>)
        requires
            old(self).pipeline_state is Some,
            spec_sets_wf(old(self).descriptor_sets@),
        ensures
            old(self).encoder_state matches EncoderState::Render(h) ==> (r matches Ok(p)
                && p.0 == h && p.1@ == Seq::<MetalAction>::empty() && *final(self) == *old(self)),
            !(old(self).encoder_state matches EncoderState::Render(_)) ==> (
            match spec_begin_gap(clear_values@, old(self).descriptor_sets@) {
                Some(g) => r == Err::<(u64, Vec<MetalAction>), Unimplemented>(g) && *final(self)
                    == *old(self),
                None => (r matches Ok(p) && p.0 == fresh && p.1@ == spec_begin_actions(
                    *old(self),
                    framebuffer,
                    clear_values@,
                    fresh,
                ) && *final(self) == (CommandBuffer {
                    encoder_state: EncoderState::Render(fresh),
                    ..*old(self)
                })),
            }),
    {
        match self.encoder_state {
            EncoderState::Render(h) => {
                return Ok((h, Vec::new()));
            },
            _ => {},
        }
        proof {
            assert(!(self.encoder_state matches EncoderState::Render(_)));
        }

        match clear_values_gap(clear_values) {
            Some(g) => {
                return Err(g);
            },
            None => {},
        }
        match sets_gap(&self.descriptor_sets) {
            Some(g) => {
                return Err(g);
            },
            None => {},
        }

        let mut actions: Vec<MetalAction> = Vec::new();
        match self.encoder_state {
            EncoderState::Blit(h) => {
                actions.push(MetalAction::EndEncoding(h));
                actions.push(MetalAction::Release(h));
            },
            _ => {},
        }
        proof {
            assert(actions@ =~= spec_close_actions(self.encoder_state));
        }
        push_clear_actions(&mut actions, framebuffer, clear_values);
        actions.push(MetalAction::CreateRenderEncoder(self.command_buffer, framebuffer, fresh));
        let ghost before_replay = actions@;
        self.replay_onto(fresh, &mut actions);
        proof {
            assert(actions@ =~= spec_begin_actions(*old(self), framebuffer, clear_values@, fresh));
        }
        self.encoder_state = EncoderState::Render(fresh);
        Ok((fresh, actions))
    }
}

} // verus!
