use gfx_backend::pso::BlendOp;
use gfx_backend::pso::BlendState;
use gfx_backend::pso::ColorBlendDesc;
use gfx_backend::pso::ColorMask;
use gfx_backend::pso::ColorValue;
use gfx_backend::pso::Comparison;
use gfx_backend::pso::DepthBias;
use gfx_backend::pso::DepthTest;
use gfx_backend::pso::F32Bits;
use gfx_backend::pso::Face;
use gfx_backend::pso::Factor;
use gfx_backend::pso::FrontFace;
use gfx_backend::pso::PolygonMode;
use gfx_backend::pso::PsoState;
use gfx_backend::pso::Rasterizer;
use gfx_backend::pso::StencilFace;
use gfx_backend::pso::StencilOp;
use gfx_backend::pso::StencilTest;
use gfx_backend::pso::FACE_BACK;
use gfx_backend::pso::FACE_FRONT;
use gfx_backend::pso::FACE_NONE;
use gfx_backend::state::bind_blend;
use gfx_backend::state::bind_blend_slot;
use gfx_backend::state::bind_depth;
use gfx_backend::state::bind_draw_color_buffers;
use gfx_backend::state::bind_polygon_mode;
use gfx_backend::state::bind_rasterizer;
use gfx_backend::state::bind_stencil;
use gfx_backend::state::map_blend_op;
use gfx_backend::state::map_comparison;
use gfx_backend::state::map_factor;
use gfx_backend::state::map_operation;
use gfx_backend::state::set_blend_color;
use gfx_backend::state::unlock_color_mask;
use gfx_backend::state::GlCommand;

fn bits(v: f32) -> F32Bits {
    F32Bits { bits: v.to_bits() }
}

#[test]
fn comparisons_map_to_native_functions() {
    assert_eq!(map_comparison(Comparison::Never), 0x0200);
    assert_eq!(map_comparison(Comparison::Less), 0x0201);
    assert_eq!(map_comparison(Comparison::LessEqual), 0x0203);
    assert_eq!(map_comparison(Comparison::Equal), 0x0202);
    assert_eq!(map_comparison(Comparison::GreaterEqual), 0x0206);
    assert_eq!(map_comparison(Comparison::Greater), 0x0204);
    assert_eq!(map_comparison(Comparison::NotEqual), 0x0205);
    assert_eq!(map_comparison(Comparison::Always), 0x0207);
}

#[test]
fn stencil_operations_map_to_native_operations() {
    assert_eq!(map_operation(StencilOp::Keep), 0x1E00);
    assert_eq!(map_operation(StencilOp::Zero), 0);
    assert_eq!(map_operation(StencilOp::Replace), 0x1E01);
    assert_eq!(map_operation(StencilOp::IncrementClamp), 0x1E02);
    assert_eq!(map_operation(StencilOp::IncrementWrap), 0x8507);
    assert_eq!(map_operation(StencilOp::DecrementClamp), 0x1E03);
    assert_eq!(map_operation(StencilOp::DecrementWrap), 0x8508);
    assert_eq!(map_operation(StencilOp::Invert), 0x150A);
}

#[test]
fn factors_map_to_native_factors() {
    assert_eq!(map_factor(Factor::Zero), 0);
    assert_eq!(map_factor(Factor::One), 1);
    assert_eq!(map_factor(Factor::SrcAlpha), 0x0302);
    assert_eq!(map_factor(Factor::OneMinusSrcAlpha), 0x0303);
    assert_eq!(map_factor(Factor::ConstColor), 0x8001);
    assert_eq!(map_factor(Factor::Src1Alpha), 0x8589);
    assert_eq!(map_factor(Factor::OneMinusSrc1Alpha), 0x88FB);
}

#[test]
fn blend_ops_resolve_to_exactly_one_triple() {
    assert_eq!(
        map_blend_op(BlendOp::Add { src: Factor::SrcAlpha, dst: Factor::OneMinusSrcAlpha }),
        (0x8006, 0x0302, 0x0303)
    );
    assert_eq!(
        map_blend_op(BlendOp::Sub { src: Factor::One, dst: Factor::Zero }),
        (0x800A, 1, 0)
    );
    assert_eq!(
        map_blend_op(BlendOp::RevSub { src: Factor::DstColor, dst: Factor::DstAlpha }),
        (0x800B, 0x0306, 0x0304)
    );
}

#[test]
fn blend_min_max_ignore_factors_and_use_zero() {
    assert_eq!(map_blend_op(BlendOp::Min), (0x8007, 0, 0));
    assert_eq!(map_blend_op(BlendOp::Max), (0x8008, 0, 0));
}

#[test]
fn polygon_mode_line_sets_width_and_line_offset_flag() {
    let w = bits(2.0);
    let cmds = bind_polygon_mode(PolygonMode::Line(w), None);
    assert_eq!(
        cmds,
        vec![
            GlCommand::LineWidth(w),
            GlCommand::PolygonMode(0x0408, 0x1B01),
            GlCommand::Disable(0x2A02),
        ]
    );
}

#[test]
fn polygon_mode_fill_with_static_bias_enables_offset() {
    let bias = DepthBias { const_factor: bits(1.0), clamp: bits(0.0), slope_factor: bits(0.5) };
    let cmds = bind_polygon_mode(PolygonMode::Fill, Some(PsoState::Static(bias)));
    assert_eq!(
        cmds,
        vec![
            GlCommand::PolygonMode(0x0408, 0x1B02),
            GlCommand::Enable(0x8037),
            GlCommand::PolygonOffset(bits(0.5), bits(1.0)),
        ]
    );
}

#[test]
fn polygon_mode_point_with_dynamic_bias_disables_point_offset() {
    let cmds = bind_polygon_mode(PolygonMode::Point, Some(PsoState::Dynamic));
    assert_eq!(
        cmds,
        vec![GlCommand::PolygonMode(0x0408, 0x1B00), GlCommand::Disable(0x2A01)]
    );
}

#[test]
fn rasterizer_applies_winding_cull_and_polygon_state() {
    let r = Rasterizer {
        polygon_mode: PolygonMode::Fill,
        cull_face: Face { bits: FACE_BACK },
        front_face: FrontFace::CounterClockwise,
        depth_bias: None,
    };
    let cmds = bind_rasterizer(&r, false);
    assert_eq!(
        cmds,
        vec![
            GlCommand::FrontFace(0x0901),
            GlCommand::Enable(0x0B44),
            GlCommand::CullFace(0x0405),
            GlCommand::PolygonMode(0x0408, 0x1B02),
            GlCommand::Disable(0x8037),
            GlCommand::Disable(0x809D),
        ]
    );
}

#[test]
fn rasterizer_embedded_skips_polygon_and_multisample_state() {
    let r = Rasterizer {
        polygon_mode: PolygonMode::Fill,
        cull_face: Face { bits: FACE_NONE },
        front_face: FrontFace::Clockwise,
        depth_bias: None,
    };
    let cmds = bind_rasterizer(&r, true);
    assert_eq!(cmds, vec![GlCommand::FrontFace(0x0900), GlCommand::Disable(0x0B44)]);
}

#[test]
fn depth_test_on_enables_function_and_write_mask() {
    let cmds = bind_depth(&DepthTest::On { fun: Comparison::LessEqual, write: true });
    assert_eq!(
        cmds,
        vec![
            GlCommand::Enable(0x0B71),
            GlCommand::DepthFunc(0x0203),
            GlCommand::DepthMask(true),
        ]
    );
}

#[test]
fn depth_test_off_disables() {
    assert_eq!(bind_depth(&DepthTest::Off), vec![GlCommand::Disable(0x0B71)]);
}

fn stencil_face(fun: Comparison) -> StencilFace {
    StencilFace {
        fun,
        mask_read: PsoState::Static(0xFF),
        mask_write: PsoState::Dynamic,
        op_fail: StencilOp::Keep,
        op_depth_fail: StencilOp::IncrementClamp,
        op_pass: StencilOp::Replace,
    }
}

#[test]
fn stencil_on_binds_faces_not_excluded_by_cull() {
    let st = StencilTest::On {
        front: stencil_face(Comparison::Always),
        back: stencil_face(Comparison::Never),
    };
    let cmds = bind_stencil(&st, (1, 2), Some(Face { bits: FACE_FRONT }));
    // The front face is culled, so only the back face is configured; the
    // dynamic write mask resolves to all bits set.
    assert_eq!(
        cmds,
        vec![
            GlCommand::Enable(0x0B90),
            GlCommand::StencilFuncSeparate(0x0405, 0x0200, 2, 0xFF),
            GlCommand::StencilMaskSeparate(0x0405, 0xFFFF_FFFF),
            GlCommand::StencilOpSeparate(0x0405, 0x1E00, 0x1E02, 0x1E01),
        ]
    );
}

#[test]
fn stencil_on_without_cull_configures_both_faces() {
    let st = StencilTest::On {
        front: stencil_face(Comparison::Always),
        back: stencil_face(Comparison::Never),
    };
    // With no active cull mode nothing is excluded: both faces get their
    // function, masks and operations after the enable.
    let cmds = bind_stencil(&st, (1, 2), None);
    assert_eq!(
        cmds,
        vec![
            GlCommand::Enable(0x0B90),
            GlCommand::StencilFuncSeparate(0x0404, 0x0207, 1, 0xFF),
            GlCommand::StencilMaskSeparate(0x0404, 0xFFFF_FFFF),
            GlCommand::StencilOpSeparate(0x0404, 0x1E00, 0x1E02, 0x1E01),
            GlCommand::StencilFuncSeparate(0x0405, 0x0200, 2, 0xFF),
            GlCommand::StencilMaskSeparate(0x0405, 0xFFFF_FFFF),
            GlCommand::StencilOpSeparate(0x0405, 0x1E00, 0x1E02, 0x1E01),
        ]
    );
}

#[test]
fn stencil_off_disables() {
    let cmds = bind_stencil(&StencilTest::Off, (0, 0), None);
    assert_eq!(cmds, vec![GlCommand::Disable(0x0B90)]);
}

#[test]
fn blend_on_applies_equations_functions_and_mask() {
    let desc = ColorBlendDesc(
        ColorMask { bits: 0xF },
        BlendState::On {
            color: BlendOp::Add { src: Factor::SrcAlpha, dst: Factor::OneMinusSrcAlpha },
            alpha: BlendOp::Max,
        },
    );
    let cmds = bind_blend(&desc);
    assert_eq!(
        cmds,
        vec![
            GlCommand::Enable(0x0BE2),
            GlCommand::BlendEquationSeparate(0x8006, 0x8008),
            GlCommand::BlendFuncSeparate(0x0302, 0x0303, 0, 0),
            GlCommand::ColorMaskAll(true, true, true, true),
        ]
    );
}

#[test]
fn blend_off_still_applies_color_mask() {
    let desc = ColorBlendDesc(ColorMask { bits: 0x5 }, BlendState::Off);
    let cmds = bind_blend(&desc);
    assert_eq!(
        cmds,
        vec![GlCommand::Disable(0x0BE2), GlCommand::ColorMaskAll(true, false, true, false)]
    );
}

#[test]
fn blend_slot_uses_indexed_calls() {
    let desc = ColorBlendDesc(
        ColorMask { bits: 0xF },
        BlendState::On { color: BlendOp::Min, alpha: BlendOp::Min },
    );
    let cmds = bind_blend_slot(2, &desc);
    assert_eq!(
        cmds,
        vec![
            GlCommand::EnableIndexed(0x0BE2, 2),
            GlCommand::BlendEquationSeparateIndexed(2, 0x8007, 0x8007),
            GlCommand::BlendFuncSeparateIndexed(2, 0, 0, 0, 0),
            GlCommand::ColorMaskIndexed(2, true, true, true, true),
        ]
    );
}

#[test]
fn unlock_color_mask_enables_all_channels() {
    assert_eq!(unlock_color_mask(), vec![GlCommand::ColorMaskAll(true, true, true, true)]);
}

#[test]
fn blend_color_carries_all_channels() {
    let color = ColorValue { r: bits(0.1), g: bits(0.2), b: bits(0.3), a: bits(1.0) };
    assert_eq!(
        set_blend_color(color),
        vec![GlCommand::BlendColor(bits(0.1), bits(0.2), bits(0.3), bits(1.0))]
    );
}

#[test]
fn draw_color_buffers_lists_attachments_in_order() {
    let cmds = bind_draw_color_buffers(3);
    assert_eq!(cmds, vec![GlCommand::DrawBuffers(vec![0x8CE0, 0x8CE1, 0x8CE2])]);
}

#[test]
fn draw_color_buffers_zero_is_empty_list() {
    assert_eq!(bind_draw_color_buffers(0), vec![GlCommand::DrawBuffers(vec![])]);
}

#[test]
fn draw_color_buffers_accepts_large_counts() {
    let cmds = bind_draw_color_buffers(20);
    match &cmds[0] {
        GlCommand::DrawBuffers(atts) => {
            assert_eq!(atts.len(), 20);
            assert_eq!(atts[0], 0x8CE0);
            assert_eq!(atts[19], 0x8CE0 + 19);
        }
        other => panic!("unexpected command {:?}", other),
    }
}
