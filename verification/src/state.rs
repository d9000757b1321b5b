//! Fixed-function state applier for the immediate-mode backend.
//!
//! That backend has no pipeline-state object: binding a pipeline must
//! re-apply every relevant fixed-function facet as discrete state-machine
//! calls before each draw.  Each function here translates one facet of a
//! captured pipeline state into the exact sequence of native calls the shim
//! must perform, and is idempotent: replaying the same descriptor yields
//! the same sequence.

use vstd::prelude::*;

use crate::glenum::{
    GL_NEVER, GL_LESS, GL_LEQUAL, GL_EQUAL, GL_GEQUAL, GL_GREATER, GL_NOTEQUAL, GL_ALWAYS,
    GL_KEEP, GL_ZERO, GL_ONE, GL_REPLACE, GL_INCR, GL_INCR_WRAP, GL_DECR, GL_DECR_WRAP, GL_INVERT,
    GL_SRC_COLOR, GL_ONE_MINUS_SRC_COLOR, GL_DST_COLOR, GL_ONE_MINUS_DST_COLOR, GL_SRC_ALPHA,
    GL_ONE_MINUS_SRC_ALPHA, GL_DST_ALPHA, GL_ONE_MINUS_DST_ALPHA, GL_CONSTANT_COLOR,
    GL_ONE_MINUS_CONSTANT_COLOR, GL_CONSTANT_ALPHA, GL_ONE_MINUS_CONSTANT_ALPHA,
    GL_SRC_ALPHA_SATURATE, GL_SRC1_COLOR, GL_ONE_MINUS_SRC1_COLOR, GL_SRC1_ALPHA,
    GL_ONE_MINUS_SRC1_ALPHA, GL_FUNC_ADD, GL_FUNC_SUBTRACT, GL_FUNC_REVERSE_SUBTRACT, GL_MIN,
    GL_MAX, GL_POINT, GL_LINE, GL_FILL, GL_POLYGON_OFFSET_POINT, GL_POLYGON_OFFSET_LINE,
    GL_POLYGON_OFFSET_FILL, GL_FRONT, GL_BACK, GL_FRONT_AND_BACK, GL_CW, GL_CCW, GL_CULL_FACE,
    GL_MULTISAMPLE, GL_DEPTH_TEST, GL_STENCIL_TEST, GL_BLEND, GL_COLOR_ATTACHMENT0,
};
use crate::pso::{
    F32Bits, Comparison, StencilOp, Factor, BlendOp, PolygonMode, FrontFace, Face, ColorMask,
    PsoState, DepthBias, DepthTest, StencilFace, StencilTest, BlendState, ColorBlendDesc,
    Rasterizer, ColorValue, FACE_FRONT, FACE_BACK, COLOR_MASK_RED, COLOR_MASK_GREEN,
    COLOR_MASK_BLUE, COLOR_MASK_ALPHA,
};

verus! {

/// One native state-machine call of the immediate-mode backend.  The state
/// applier emits these; the native shim performs them in order.
#[derive(Clone, Debug, PartialEq, Eq)]
pub enum GlCommand {
    Enable(u32),
    Disable(u32),
    EnableIndexed(u32, u32),
    DisableIndexed(u32, u32),
    LineWidth(F32Bits),
    PolygonMode(u32, u32),
    PolygonOffset(F32Bits, F32Bits),
    FrontFace(u32),
    CullFace(u32),
    DepthFunc(u32),
    DepthMask(bool),
    StencilFuncSeparate(u32, u32, u32, u32),
    StencilMaskSeparate(u32, u32),
    StencilOpSeparate(u32, u32, u32, u32),
    BlendEquationSeparate(u32, u32),
    BlendFuncSeparate(u32, u32, u32, u32),
    BlendEquationSeparateIndexed(u32, u32, u32),
    BlendFuncSeparateIndexed(u32, u32, u32, u32, u32),
    ColorMaskAll(bool, bool, bool, bool),
    ColorMaskIndexed(u32, bool, bool, bool, bool),
    BlendColor(F32Bits, F32Bits, F32Bits, F32Bits),
    DrawBuffers(Vec<u32>),
    PixelStorei(u32, i32),
    CreateVertexArray(u32),
    BindVertexArray(u32),
}

/// Native comparison enumerant of a portable comparison function.
pub open spec fn spec_map_comparison(cmp: Comparison) -> u32 {
    match cmp {
        Comparison::Never => GL_NEVER,
        Comparison::Less => GL_LESS,
        Comparison::LessEqual => GL_LEQUAL,
        Comparison::Equal => GL_EQUAL,
        Comparison::GreaterEqual => GL_GEQUAL,
        Comparison::Greater => GL_GREATER,
        Comparison::NotEqual => GL_NOTEQUAL,
        Comparison::Always => GL_ALWAYS,
    }
}

pub fn map_comparison(cmp: Comparison) -> (r: u32)
    ensures
        r == spec_map_comparison(cmp),
{
    match cmp {
        Comparison::Never => GL_NEVER,
        Comparison::Less => GL_LESS,
        Comparison::LessEqual => GL_LEQUAL,
        Comparison::Equal => GL_EQUAL,
        Comparison::GreaterEqual => GL_GEQUAL,
        Comparison::Greater => GL_GREATER,
        Comparison::NotEqual => GL_NOTEQUAL,
        Comparison::Always => GL_ALWAYS,
    }
}

/// Native enumerant of a stencil operation.
pub open spec fn spec_map_operation(op: StencilOp) -> u32 {
    match op {
        StencilOp::Keep => GL_KEEP,
        StencilOp::Zero => GL_ZERO,
        StencilOp::Replace => GL_REPLACE,
        StencilOp::IncrementClamp => GL_INCR,
        StencilOp::IncrementWrap => GL_INCR_WRAP,
        StencilOp::DecrementClamp => GL_DECR,
        StencilOp::DecrementWrap => GL_DECR_WRAP,
        StencilOp::Invert => GL_INVERT,
    }
}

pub fn map_operation(op: StencilOp) -> (r: u32)
    ensures
        r == spec_map_operation(op),
{
    match op {
        StencilOp::Keep => GL_KEEP,
        StencilOp::Zero => GL_ZERO,
        StencilOp::Replace => GL_REPLACE,
        StencilOp::IncrementClamp => GL_INCR,
        StencilOp::IncrementWrap => GL_INCR_WRAP,
        StencilOp::DecrementClamp => GL_DECR,
        StencilOp::DecrementWrap => GL_DECR_WRAP,
        StencilOp::Invert => GL_INVERT,
    }
}

/// Native enumerant of a blend factor.
pub open spec fn spec_map_factor(factor: Factor) -> u32 {
    match factor {
        Factor::Zero => GL_ZERO,
        Factor::One => GL_ONE,
        Factor::SrcColor => GL_SRC_COLOR,
        Factor::OneMinusSrcColor => GL_ONE_MINUS_SRC_COLOR,
        Factor::DstColor => GL_DST_COLOR,
        Factor::OneMinusDstColor => GL_ONE_MINUS_DST_COLOR,
        Factor::SrcAlpha => GL_SRC_ALPHA,
        Factor::OneMinusSrcAlpha => GL_ONE_MINUS_SRC_ALPHA,
        Factor::DstAlpha => GL_DST_ALPHA,
        Factor::OneMinusDstAlpha => GL_ONE_MINUS_DST_ALPHA,
        Factor::ConstColor => GL_CONSTANT_COLOR,
        Factor::OneMinusConstColor => GL_ONE_MINUS_CONSTANT_COLOR,
        Factor::ConstAlpha => GL_CONSTANT_ALPHA,
        Factor::OneMinusConstAlpha => GL_ONE_MINUS_CONSTANT_ALPHA,
        Factor::SrcAlphaSaturate => GL_SRC_ALPHA_SATURATE,
        Factor::Src1Color => GL_SRC1_COLOR,
        Factor::OneMinusSrc1Color => GL_ONE_MINUS_SRC1_COLOR,
        Factor::Src1Alpha => GL_SRC1_ALPHA,
        Factor::OneMinusSrc1Alpha => GL_ONE_MINUS_SRC1_ALPHA,
    }
}

pub fn map_factor(factor: Factor) -> (r: u32)
    ensures
        r == spec_map_factor(factor),
{
    match factor {
        Factor::Zero => GL_ZERO,
        Factor::One => GL_ONE,
        Factor::SrcColor => GL_SRC_COLOR,
        Factor::OneMinusSrcColor => GL_ONE_MINUS_SRC_COLOR,
        Factor::DstColor => GL_DST_COLOR,
        Factor::OneMinusDstColor => GL_ONE_MINUS_DST_COLOR,
        Factor::SrcAlpha => GL_SRC_ALPHA,
        Factor::OneMinusSrcAlpha => GL_ONE_MINUS_SRC_ALPHA,
        Factor::DstAlpha => GL_DST_ALPHA,
        Factor::OneMinusDstAlpha => GL_ONE_MINUS_DST_ALPHA,
        Factor::ConstColor => GL_CONSTANT_COLOR,
        Factor::OneMinusConstColor => GL_ONE_MINUS_CONSTANT_COLOR,
        Factor::ConstAlpha => GL_CONSTANT_ALPHA,
        Factor::OneMinusConstAlpha => GL_ONE_MINUS_CONSTANT_ALPHA,
        Factor::SrcAlphaSaturate => GL_SRC_ALPHA_SATURATE,
        Factor::Src1Color => GL_SRC1_COLOR,
        Factor::OneMinusSrc1Color => GL_ONE_MINUS_SRC1_COLOR,
        Factor::Src1Alpha => GL_SRC1_ALPHA,
        Factor::OneMinusSrc1Alpha => GL_ONE_MINUS_SRC1_ALPHA,
    }
}

/// The native (equation, source factor, destination factor) triple of a
/// blend operation.  `Min` and `Max` ignore any supplied factors and always
/// resolve to the zero factors.
pub open spec fn spec_map_blend_op(operation: BlendOp) -> (u32, u32, u32) {
    match operation {
        BlendOp::Add { src, dst } => (GL_FUNC_ADD, spec_map_factor(src), spec_map_factor(dst)),
        BlendOp::Sub { src, dst } => (GL_FUNC_SUBTRACT, spec_map_factor(src), spec_map_factor(dst)),
        BlendOp::RevSub { src, dst } => (
            GL_FUNC_REVERSE_SUBTRACT,
            spec_map_factor(src),
            spec_map_factor(dst),
        ),
        BlendOp::Min => (GL_MIN, GL_ZERO, GL_ZERO),
        BlendOp::Max => (GL_MAX, GL_ZERO, GL_ZERO),
    }
}

pub fn map_blend_op(operation: BlendOp) -> (r: (u32, u32, u32))
    ensures
        r == spec_map_blend_op(operation),
{
    match operation {
        BlendOp::Add { src, dst } => (GL_FUNC_ADD, map_factor(src), map_factor(dst)),
        BlendOp::Sub { src, dst } => (GL_FUNC_SUBTRACT, map_factor(src), map_factor(dst)),
        BlendOp::RevSub { src, dst } => (
            GL_FUNC_REVERSE_SUBTRACT,
            map_factor(src),
            map_factor(dst),
        ),
        BlendOp::Min => (GL_MIN, GL_ZERO, GL_ZERO),
        BlendOp::Max => (GL_MAX, GL_ZERO, GL_ZERO),
    }
}

/// Each blend operation maps to exactly one native triple, given by
/// `spec_map_blend_op`; in particular `Min` and `Max` resolve to the
/// min/max equations with both factors zero, whatever factors a descriptor
/// supplied alongside them.
pub proof fn lemma_blend_op_triples()
    ensures
        spec_map_blend_op(BlendOp::Min) == (GL_MIN, GL_ZERO, GL_ZERO),
        spec_map_blend_op(BlendOp::Max) == (GL_MAX, GL_ZERO, GL_ZERO),
        forall|src: Factor, dst: Factor| #[trigger] spec_map_blend_op(BlendOp::Add { src, dst })
            == (GL_FUNC_ADD, spec_map_factor(src), spec_map_factor(dst)),
        forall|src: Factor, dst: Factor| #[trigger] spec_map_blend_op(BlendOp::Sub { src, dst })
            == (GL_FUNC_SUBTRACT, spec_map_factor(src), spec_map_factor(dst)),
        forall|src: Factor, dst: Factor| #[trigger] spec_map_blend_op(BlendOp::RevSub { src, dst })
            == (GL_FUNC_REVERSE_SUBTRACT, spec_map_factor(src), spec_map_factor(dst)),
{
}

/// Native fill enumerant and matching polygon-offset flag of a fill mode:
/// point, line and fill each map to a distinct offset flag.
pub open spec fn spec_polygon_mode_pair(mode: PolygonMode) -> (u32, u32) {
    match mode {
        PolygonMode::Point => (GL_POINT, GL_POLYGON_OFFSET_POINT),
        PolygonMode::Line(_) => (GL_LINE, GL_POLYGON_OFFSET_LINE),
        PolygonMode::Fill => (GL_FILL, GL_POLYGON_OFFSET_FILL),
    }
}

/// Calls that apply a fill mode and an optional static depth bias: the line
/// width is set only for line fill; the offset flag matching the fill mode
/// is enabled with its slope and constant factors only when a static bias
/// is present, otherwise disabled.
pub open spec fn spec_bind_polygon_mode(mode: PolygonMode, bias: Option<PsoState<DepthBias>>) -> Seq<GlCommand> {
    let (gl_draw, gl_offset) = spec_polygon_mode_pair(mode);
    let width = match mode {
        PolygonMode::Line(w) => seq![GlCommand::LineWidth(w)],
        _ => Seq::empty(),
    };
    let offset = match bias {
        Some(PsoState::Static(b)) => seq![
            GlCommand::Enable(gl_offset),
            GlCommand::PolygonOffset(b.slope_factor, b.const_factor),
        ],
        _ => seq![GlCommand::Disable(gl_offset)],
    };
    width + seq![GlCommand::PolygonMode(GL_FRONT_AND_BACK, gl_draw)] + offset
}

fn push_polygon_mode(r: &mut Vec<GlCommand>, mode: PolygonMode, bias: Option<PsoState<DepthBias>>)
    ensures
        final(r)@ == old(r)@ + spec_bind_polygon_mode(mode, bias),
{
    let (gl_draw, gl_offset) = match mode {
        PolygonMode::Point => (GL_POINT, GL_POLYGON_OFFSET_POINT),
        PolygonMode::Line(width) => {
            r.push(GlCommand::LineWidth(width));
            (GL_LINE, GL_POLYGON_OFFSET_LINE)
        },
        PolygonMode::Fill => (GL_FILL, GL_POLYGON_OFFSET_FILL),
    };
    r.push(GlCommand::PolygonMode(GL_FRONT_AND_BACK, gl_draw));
    match bias {
        Some(PsoState::Static(b)) => {
            r.push(GlCommand::Enable(gl_offset));
            r.push(GlCommand::PolygonOffset(b.slope_factor, b.const_factor));
        },
        _ => {
            r.push(GlCommand::Disable(gl_offset));
        },
    }
    proof {
        assert(r@ =~= old(r)@ + spec_bind_polygon_mode(mode, bias));
    }
}

pub fn bind_polygon_mode(mode: PolygonMode, bias: Option<PsoState<DepthBias>>) -> (r: Vec<GlCommand>)
    ensures
        r@ == spec_bind_polygon_mode(mode, bias),
{
    let mut r: Vec<GlCommand> = Vec::new();
    push_polygon_mode(&mut r, mode, bias);
    proof {
        assert(r@ =~= spec_bind_polygon_mode(mode, bias));
    }
    r
}

/// The native cull face of a non-empty face selection.
pub open spec fn spec_cull_enum(cull: Face) -> u32 {
    if cull.bits == FACE_FRONT {
        GL_FRONT
    } else if cull.bits == FACE_BACK {
        GL_BACK
    } else {
        GL_FRONT_AND_BACK
    }
}

/// Calls that apply a whole rasterizer descriptor: front-face winding, then
/// culling enabled with its face direction or disabled, and on non-embedded
/// targets the fill mode, depth bias and a multisample toggle.
pub open spec fn spec_bind_rasterizer(r: Rasterizer, is_embedded: bool) -> Seq<GlCommand> {
    let front = match r.front_face {
        FrontFace::Clockwise => GL_CW,
        FrontFace::CounterClockwise => GL_CCW,
    };
    let cull = if !r.cull_face.spec_is_empty() {
        seq![GlCommand::Enable(GL_CULL_FACE), GlCommand::CullFace(spec_cull_enum(r.cull_face))]
    } else {
        seq![GlCommand::Disable(GL_CULL_FACE)]
    };
    let extra = if !is_embedded {
        spec_bind_polygon_mode(r.polygon_mode, r.depth_bias) + seq![GlCommand::Disable(GL_MULTISAMPLE)]
    } else {
        Seq::empty()
    };
    seq![GlCommand::FrontFace(front)] + cull + extra
}

pub fn bind_rasterizer(r: &Rasterizer, is_embedded: bool) -> (cmds: Vec<GlCommand>)
    ensures
        cmds@ == spec_bind_rasterizer(*r, is_embedded),
{
    let mut cmds: Vec<GlCommand> = Vec::new();
    let front = match r.front_face {
        FrontFace::Clockwise => GL_CW,
        FrontFace::CounterClockwise => GL_CCW,
    };
    cmds.push(GlCommand::FrontFace(front));
    if !r.cull_face.is_empty() {
        cmds.push(GlCommand::Enable(GL_CULL_FACE));
        let face = if r.cull_face.bits == FACE_FRONT {
            GL_FRONT
        } else if r.cull_face.bits == FACE_BACK {
            GL_BACK
        } else {
            GL_FRONT_AND_BACK
        };
        cmds.push(GlCommand::CullFace(face));
    } else {
        cmds.push(GlCommand::Disable(GL_CULL_FACE));
    }
    if !is_embedded {
        push_polygon_mode(&mut cmds, r.polygon_mode, r.depth_bias);
        cmds.push(GlCommand::Disable(GL_MULTISAMPLE));
    }
    proof {
        assert(cmds@ =~= spec_bind_rasterizer(*r, is_embedded));
    }
    cmds
}

/// Calls that apply a depth-test descriptor: on enables the test and sets
/// the comparison function and write mask; off disables it.
pub open spec fn spec_bind_depth(depth: DepthTest) -> Seq<GlCommand> {
    match depth {
        DepthTest::On { fun, write } => seq![
            GlCommand::Enable(GL_DEPTH_TEST),
            GlCommand::DepthFunc(spec_map_comparison(fun)),
            GlCommand::DepthMask(write),
        ],
        DepthTest::Off => seq![GlCommand::Disable(GL_DEPTH_TEST)],
    }
}

pub fn bind_depth(depth: &DepthTest) -> (r: Vec<GlCommand>)
    ensures
        r@ == spec_bind_depth(*depth),
{
    let mut r: Vec<GlCommand> = Vec::new();
    match *depth {
        DepthTest::On { fun, write } => {
            r.push(GlCommand::Enable(GL_DEPTH_TEST));
            r.push(GlCommand::DepthFunc(map_comparison(fun)));
            r.push(GlCommand::DepthMask(write));
        },
        DepthTest::Off => {
            r.push(GlCommand::Disable(GL_DEPTH_TEST));
        },
    }
    proof {
        assert(r@ =~= spec_bind_depth(*depth));
    }
    r
}

/// A static stencil mask resolves to itself, a dynamic one to all bits set.
pub open spec fn spec_resolve_mask(m: PsoState<u32>) -> u32 {
    match m {
        PsoState::Static(v) => v,
        PsoState::Dynamic => 0xFFFF_FFFF,
    }
}

/// Calls that configure one stencil face: comparison function with its
/// reference and read mask, then write mask, then the three operations.
pub open spec fn spec_stencil_side(face: u32, side: StencilFace, ref_value: u32) -> Seq<GlCommand> {
    seq![
        GlCommand::StencilFuncSeparate(
            face,
            spec_map_comparison(side.fun),
            ref_value,
            spec_resolve_mask(side.mask_read),
        ),
        GlCommand::StencilMaskSeparate(face, spec_resolve_mask(side.mask_write)),
        GlCommand::StencilOpSeparate(
            face,
            spec_map_operation(side.op_fail),
            spec_map_operation(side.op_depth_fail),
            spec_map_operation(side.op_pass),
        ),
    ]
}

fn push_stencil_side(r: &mut Vec<GlCommand>, face: u32, side: &StencilFace, ref_value: u32)
    ensures
        final(r)@ == old(r)@ + spec_stencil_side(face, *side, ref_value),
{
    let mr = match side.mask_read {
        PsoState::Static(v) => v,
        PsoState::Dynamic => 0xFFFF_FFFF,
    };
    let mw = match side.mask_write {
        PsoState::Static(v) => v,
        PsoState::Dynamic => 0xFFFF_FFFF,
    };
    r.push(GlCommand::StencilFuncSeparate(face, map_comparison(side.fun), ref_value, mr));
    r.push(GlCommand::StencilMaskSeparate(face, mw));
    r.push(GlCommand::StencilOpSeparate(
        face,
        map_operation(side.op_fail),
        map_operation(side.op_depth_fail),
        map_operation(side.op_pass),
    ));
    proof {
        assert(r@ =~= old(r)@ + spec_stencil_side(face, *side, ref_value));
    }
}

/// Calls that apply a stencil-test descriptor.  On enables the test, then
/// configures each face the active cull mode does not exclude — with no
/// cull mode nothing is excluded, so both faces are configured; off
/// disables the test.
pub open spec fn spec_bind_stencil(
    stencil: StencilTest,
    ref_front: u32,
    ref_back: u32,
    cull: Option<Face>,
) -> Seq<GlCommand> {
    match stencil {
        StencilTest::On { front, back } => {
            let f = if !spec_cull_excludes(cull, FACE_FRONT) {
                spec_stencil_side(GL_FRONT, front, ref_front)
            } else {
                Seq::empty()
            };
            let b = if !spec_cull_excludes(cull, FACE_BACK) {
                spec_stencil_side(GL_BACK, back, ref_back)
            } else {
                Seq::empty()
            };
            seq![GlCommand::Enable(GL_STENCIL_TEST)] + f + b
        },
        StencilTest::Off => seq![GlCommand::Disable(GL_STENCIL_TEST)],
    }
}

/// Whether the active cull mode excludes a face from stencil
/// configuration: only a present cull mode that covers the face does.
pub open spec fn spec_cull_excludes(cull: Option<Face>, face_bits: u32) -> bool {
    match cull {
        Some(cf) => cf.spec_contains(face_bits),
        None => false,
    }
}

pub fn bind_stencil(stencil: &StencilTest, ref_values: (u32, u32), cull: Option<Face>) -> (r: Vec<GlCommand>)
    ensures
        r@ == spec_bind_stencil(*stencil, ref_values.0, ref_values.1, cull),
{
    let (ref_front, ref_back) = ref_values;
    let mut r: Vec<GlCommand> = Vec::new();
    match stencil {
        StencilTest::On { front, back } => {
            r.push(GlCommand::Enable(GL_STENCIL_TEST));
            let front_excluded = match cull {
                Some(cf) => cf.contains(FACE_FRONT),
                None => false,
            };
            let back_excluded = match cull {
                Some(cf) => cf.contains(FACE_BACK),
                None => false,
            };
            if !front_excluded {
                push_stencil_side(&mut r, GL_FRONT, front, ref_front);
            }
            if !back_excluded {
                push_stencil_side(&mut r, GL_BACK, back, ref_back);
            }
        },
        StencilTest::Off => {
            r.push(GlCommand::Disable(GL_STENCIL_TEST));
        },
    }
    proof {
        assert(r@ =~= spec_bind_stencil(*stencil, ref_front, ref_back, cull));
    }
    r
}

/// Calls that enable or disable blending for all targets at once.
pub open spec fn spec_blend_commands(blend: BlendState) -> Seq<GlCommand> {
    match blend {
        BlendState::On { color, alpha } => {
            let (color_eq, color_src, color_dst) = spec_map_blend_op(color);
            let (alpha_eq, alpha_src, alpha_dst) = spec_map_blend_op(alpha);
            seq![
                GlCommand::Enable(GL_BLEND),
                GlCommand::BlendEquationSeparate(color_eq, alpha_eq),
                GlCommand::BlendFuncSeparate(color_src, color_dst, alpha_src, alpha_dst),
            ]
        },
        BlendState::Off => seq![GlCommand::Disable(GL_BLEND)],
    }
}

/// The four channel-enable flags of a color write mask.
pub open spec fn spec_mask_channels(mask: ColorMask) -> (bool, bool, bool, bool) {
    (
        mask.spec_contains(COLOR_MASK_RED),
        mask.spec_contains(COLOR_MASK_GREEN),
        mask.spec_contains(COLOR_MASK_BLUE),
        mask.spec_contains(COLOR_MASK_ALPHA),
    )
}

/// Calls that apply one color-blend descriptor to every target: the blend
/// state, then — regardless of blend enablement — the color write mask.
pub open spec fn spec_bind_blend(desc: ColorBlendDesc) -> Seq<GlCommand> {
    let (red, green, blue, alpha) = spec_mask_channels(desc.0);
    spec_blend_commands(desc.1) + seq![GlCommand::ColorMaskAll(red, green, blue, alpha)]
}

pub fn bind_blend(desc: &ColorBlendDesc) -> (r: Vec<GlCommand>)
    ensures
        r@ == spec_bind_blend(*desc),
{
    let mut r: Vec<GlCommand> = Vec::new();
    match desc.1 {
        BlendState::On { color, alpha } => {
            let (color_eq, color_src, color_dst) = map_blend_op(color);
            let (alpha_eq, alpha_src, alpha_dst) = map_blend_op(alpha);
            r.push(GlCommand::Enable(GL_BLEND));
            r.push(GlCommand::BlendEquationSeparate(color_eq, alpha_eq));
            r.push(GlCommand::BlendFuncSeparate(color_src, color_dst, alpha_src, alpha_dst));
        },
        BlendState::Off => {
            r.push(GlCommand::Disable(GL_BLEND));
        },
    }
    r.push(GlCommand::ColorMaskAll(
        desc.0.contains(COLOR_MASK_RED),
        desc.0.contains(COLOR_MASK_GREEN),
        desc.0.contains(COLOR_MASK_BLUE),
        desc.0.contains(COLOR_MASK_ALPHA),
    ));
    proof {
        assert(r@ =~= spec_bind_blend(*desc));
    }
    r
}

/// Calls that apply one color-blend descriptor to a single color slot, for
/// independent per-attachment blending.
pub open spec fn spec_bind_blend_slot(slot: u8, desc: ColorBlendDesc) -> Seq<GlCommand> {
    let (red, green, blue, alpha) = spec_mask_channels(desc.0);
    let blend = match desc.1 {
        BlendState::On { color, alpha } => {
            let (color_eq, color_src, color_dst) = spec_map_blend_op(color);
            let (alpha_eq, alpha_src, alpha_dst) = spec_map_blend_op(alpha);
            seq![
                GlCommand::EnableIndexed(GL_BLEND, slot as u32),
                GlCommand::BlendEquationSeparateIndexed(slot as u32, color_eq, alpha_eq),
                GlCommand::BlendFuncSeparateIndexed(
                    slot as u32,
                    color_src,
                    color_dst,
                    alpha_src,
                    alpha_dst,
                ),
            ]
        },
        BlendState::Off => seq![GlCommand::DisableIndexed(GL_BLEND, slot as u32)],
    };
    blend + seq![GlCommand::ColorMaskIndexed(slot as u32, red, green, blue, alpha)]
}

pub fn bind_blend_slot(slot: u8, desc: &ColorBlendDesc) -> (r: Vec<GlCommand>)
    ensures
        r@ == spec_bind_blend_slot(slot, *desc),
{
    let mut r: Vec<GlCommand> = Vec::new();
    match desc.1 {
        BlendState::On { color, alpha } => {
            let (color_eq, color_src, color_dst) = map_blend_op(color);
            let (alpha_eq, alpha_src, alpha_dst) = map_blend_op(alpha);
            r.push(GlCommand::EnableIndexed(GL_BLEND, slot as u32));
            r.push(GlCommand::BlendEquationSeparateIndexed(slot as u32, color_eq, alpha_eq));
            r.push(GlCommand::BlendFuncSeparateIndexed(
                slot as u32,
                color_src,
                color_dst,
                alpha_src,
                alpha_dst,
            ));
        },
        BlendState::Off => {
            r.push(GlCommand::DisableIndexed(GL_BLEND, slot as u32));
        },
    }
    r.push(GlCommand::ColorMaskIndexed(
        slot as u32,
        desc.0.contains(COLOR_MASK_RED),
        desc.0.contains(COLOR_MASK_GREEN),
        desc.0.contains(COLOR_MASK_BLUE),
        desc.0.contains(COLOR_MASK_ALPHA),
    ));
    proof {
        assert(r@ =~= spec_bind_blend_slot(slot, *desc));
    }
    r
}

/// The call that re-enables every color channel.
pub open spec fn spec_unlock_color_mask() -> Seq<GlCommand> {
    seq![GlCommand::ColorMaskAll(true, true, true, true)]
}

pub fn unlock_color_mask() -> (r: Vec<GlCommand>)
    ensures
        r@ == spec_unlock_color_mask(),
{
    let mut r: Vec<GlCommand> = Vec::new();
    r.push(GlCommand::ColorMaskAll(true, true, true, true));
    proof {
        assert(r@ =~= spec_unlock_color_mask());
    }
    r
}

/// The call that sets the blend-constant color.
pub open spec fn spec_set_blend_color(color: ColorValue) -> Seq<GlCommand> {
    seq![GlCommand::BlendColor(color.r, color.g, color.b, color.a)]
}

pub fn set_blend_color(color: ColorValue) -> (r: Vec<GlCommand>)
    ensures
        r@ == spec_set_blend_color(color),
{
    let mut r: Vec<GlCommand> = Vec::new();
    r.push(GlCommand::BlendColor(color.r, color.g, color.b, color.a));
    proof {
        assert(r@ =~= spec_set_blend_color(color));
    }
    r
}

/// The attachment list handed to the draw-buffers call: attachment `i` of
/// the bound framebuffer for each of the first `num` color buffers.
pub open spec fn spec_color_attachments(num: nat) -> Seq<u32> {
    Seq::new(num, |i: int| (GL_COLOR_ATTACHMENT0 + i) as u32)
}

/// Selects the first `num` color attachments for drawing.  The count is
/// bounded only by the attachment enumerant arithmetic staying within its
/// native integer width.
pub fn bind_draw_color_buffers(num: usize) -> (r: Vec<GlCommand>)
    requires
        num + GL_COLOR_ATTACHMENT0 <= u32::MAX + 1,
    ensures
        r@.len() == 1,
        r@[0] matches GlCommand::DrawBuffers(atts) && atts@ == spec_color_attachments(num as nat),
{
    let mut attachments: Vec<u32> = Vec::new();
    let mut i: usize = 0;
    while i < num
        invariant
            i <= num,
            num + GL_COLOR_ATTACHMENT0 <= u32::MAX + 1,
            attachments@ =~= spec_color_attachments(i as nat),
        decreases num - i,
    {
        attachments.push(GL_COLOR_ATTACHMENT0 + (i as u32));
        proof {
            assert(attachments@ =~= spec_color_attachments((i + 1) as nat));
        }
        i = i + 1;
    }
    let mut r: Vec<GlCommand> = Vec::new();
    r.push(GlCommand::DrawBuffers(attachments));
    r
}

} // verus!
