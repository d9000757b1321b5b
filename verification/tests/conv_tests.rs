use gfx_backend::conv::AaMode;
use gfx_backend::conv::BufferUsage;
use gfx_backend::conv::FilterMethod;
use gfx_backend::conv::Kind;
use gfx_backend::conv::Primitive;
use gfx_backend::conv::WrapMode;
use gfx_backend::conv::_image_kind_to_gl;
use gfx_backend::conv::buffer_usage_to_gl_target;
use gfx_backend::conv::filter_to_gl;
use gfx_backend::conv::primitive_to_gl_primitive;
use gfx_backend::conv::wrap_to_gl;
use gfx_backend::conv::USAGE_INDEX;
use gfx_backend::conv::USAGE_TRANSFER_SRC;
use gfx_backend::conv::USAGE_UNIFORM;
use gfx_backend::conv::USAGE_VERTEX;

#[test]
fn image_kinds_map_to_texture_targets() {
    assert_eq!(_image_kind_to_gl(Kind::D1(64)), 0x0DE0);
    assert_eq!(_image_kind_to_gl(Kind::D2(64, 64, AaMode::Single)), 0x0DE1);
    assert_eq!(_image_kind_to_gl(Kind::D2(64, 64, AaMode::Multi(4))), 0x9100);
    assert_eq!(_image_kind_to_gl(Kind::D2Array(64, 64, 6, AaMode::Single)), 0x8C1A);
    assert_eq!(_image_kind_to_gl(Kind::D3(8, 8, 8)), 0x806F);
    assert_eq!(_image_kind_to_gl(Kind::Cube(32)), 0x8513);
    assert_eq!(_image_kind_to_gl(Kind::CubeArray(32, 2)), 0x9009);
}

#[test]
fn filters_map_to_min_mag_pairs() {
    assert_eq!(filter_to_gl(FilterMethod::Scale), (0x2600, 0x2600));
    assert_eq!(filter_to_gl(FilterMethod::Mipmap), (0x2700, 0x2600));
    assert_eq!(filter_to_gl(FilterMethod::Bilinear), (0x2601, 0x2601));
    assert_eq!(filter_to_gl(FilterMethod::Trilinear), (0x2703, 0x2601));
    assert_eq!(filter_to_gl(FilterMethod::Anisotropic(16)), (0x2703, 0x2601));
}

#[test]
fn wrap_modes_map_to_wrap_enumerants() {
    assert_eq!(wrap_to_gl(WrapMode::Tile), 0x2901);
    assert_eq!(wrap_to_gl(WrapMode::Mirror), 0x8370);
    assert_eq!(wrap_to_gl(WrapMode::Clamp), 0x812F);
    assert_eq!(wrap_to_gl(WrapMode::Border), 0x812D);
}

#[test]
fn buffer_usage_selects_a_single_target() {
    assert_eq!(
        buffer_usage_to_gl_target(BufferUsage { bits: USAGE_UNIFORM }),
        Some(0x8A11)
    );
    assert_eq!(
        buffer_usage_to_gl_target(BufferUsage { bits: USAGE_INDEX | USAGE_TRANSFER_SRC }),
        Some(0x8893)
    );
    assert_eq!(
        buffer_usage_to_gl_target(BufferUsage { bits: USAGE_VERTEX }),
        Some(0x8892)
    );
    assert_eq!(
        buffer_usage_to_gl_target(BufferUsage { bits: USAGE_UNIFORM | USAGE_VERTEX }),
        None
    );
    assert_eq!(
        buffer_usage_to_gl_target(BufferUsage { bits: USAGE_TRANSFER_SRC }),
        None
    );
}

#[test]
fn primitives_map_to_topology_enumerants() {
    assert_eq!(primitive_to_gl_primitive(Primitive::PointList), 0x0000);
    assert_eq!(primitive_to_gl_primitive(Primitive::LineList), 0x0001);
    assert_eq!(primitive_to_gl_primitive(Primitive::LineStrip), 0x0003);
    assert_eq!(primitive_to_gl_primitive(Primitive::TriangleList), 0x0004);
    assert_eq!(primitive_to_gl_primitive(Primitive::TriangleStrip), 0x0005);
    assert_eq!(primitive_to_gl_primitive(Primitive::TriangleStripAdjacency), 0x000D);
    assert_eq!(primitive_to_gl_primitive(Primitive::PatchList(3)), 0x000E);
}
