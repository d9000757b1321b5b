//! Enum translation tables for the immediate-mode backend.
//!
//! Mechanical maps from portable image, buffer and primitive descriptors to
//! native enumerant values.  Every table is total over the inputs its
//! contract admits, and each result is pinned to exactly one enumerant.

use vstd::prelude::*;

use crate::glenum::{
    GL_TEXTURE_1D, GL_TEXTURE_1D_ARRAY, GL_TEXTURE_2D, GL_TEXTURE_2D_MULTISAMPLE,
    GL_TEXTURE_2D_ARRAY, GL_TEXTURE_2D_MULTISAMPLE_ARRAY, GL_TEXTURE_3D, GL_TEXTURE_CUBE_MAP,
    GL_TEXTURE_CUBE_MAP_ARRAY, GL_NEAREST, GL_LINEAR, GL_NEAREST_MIPMAP_NEAREST,
    GL_LINEAR_MIPMAP_LINEAR, GL_REPEAT, GL_MIRRORED_REPEAT, GL_CLAMP_TO_EDGE, GL_CLAMP_TO_BORDER,
    GL_UNIFORM_BUFFER, GL_ELEMENT_ARRAY_BUFFER, GL_ARRAY_BUFFER, GL_POINTS, GL_LINES,
    GL_LINE_STRIP, GL_TRIANGLES, GL_TRIANGLE_STRIP, GL_LINES_ADJACENCY, GL_LINE_STRIP_ADJACENCY,
    GL_TRIANGLES_ADJACENCY, GL_TRIANGLE_STRIP_ADJACENCY, GL_PATCHES,
};

verus! {

/// Anti-aliasing mode of an image.
#[derive(Clone, Copy, Debug, PartialEq, Eq, Structural)]
pub enum AaMode {
    Single,
    Multi(u8),
}

/// Dimensionality of an image.
#[derive(Clone, Copy, Debug, PartialEq, Eq, Structural)]
pub enum Kind {
    D1(u16),
    D1Array(u16, u16),
    D2(u16, u16, AaMode),
    D2Array(u16, u16, u16, AaMode),
    D3(u16, u16, u16),
    Cube(u16),
    CubeArray(u16, u16),
}

/// Texture filtering method.
#[derive(Clone, Copy, Debug, PartialEq, Eq, Structural)]
pub enum FilterMethod {
    Scale,
    Mipmap,
    Bilinear,
    Trilinear,
    Anisotropic(u8),
}

/// Texture coordinate wrap mode.
#[derive(Clone, Copy, Debug, PartialEq, Eq, Structural)]
pub enum WrapMode {
    Tile,
    Mirror,
    Clamp,
    Border,
}

/// Buffer usage bitmask.
#[derive(Clone, Copy, Debug, PartialEq, Eq, Structural)]
pub struct BufferUsage {
    pub bits: u32,
}

pub const USAGE_TRANSFER_SRC: u32 = 0x1;

pub const USAGE_TRANSFER_DST: u32 = 0x2;

pub const USAGE_UNIFORM_TEXEL: u32 = 0x4;

pub const USAGE_STORAGE_TEXEL: u32 = 0x8;

pub const USAGE_UNIFORM: u32 = 0x10;

pub const USAGE_STORAGE: u32 = 0x20;

pub const USAGE_INDEX: u32 = 0x40;

pub const USAGE_VERTEX: u32 = 0x80;

pub const USAGE_INDIRECT: u32 = 0x100;

/// Primitive topology.
#[derive(Clone, Copy, Debug, PartialEq, Eq, Structural)]
pub enum Primitive {
    PointList,
    LineList,
    LineStrip,
    TriangleList,
    TriangleStrip,
    LineListAdjacency,
    LineStripAdjacency,
    TriangleListAdjacency,
    TriangleStripAdjacency,
    PatchList(u8),
}

/// Native texture target of an image kind.
pub open spec fn spec_image_kind_to_gl(kind: Kind) -> u32 {
    match kind {
        Kind::D1(_) => GL_TEXTURE_1D,
        Kind::D1Array(_, _) => GL_TEXTURE_1D_ARRAY,
        Kind::D2(_, _, AaMode::Single) => GL_TEXTURE_2D,
        Kind::D2(_, _, _) => GL_TEXTURE_2D_MULTISAMPLE,
        Kind::D2Array(_, _, _, AaMode::Single) => GL_TEXTURE_2D_ARRAY,
        Kind::D2Array(_, _, _, _) => GL_TEXTURE_2D_MULTISAMPLE_ARRAY,
        Kind::D3(_, _, _) => GL_TEXTURE_3D,
        Kind::Cube(_) => GL_TEXTURE_CUBE_MAP,
        Kind::CubeArray(_, _) => GL_TEXTURE_CUBE_MAP_ARRAY,
    }
}

pub fn _image_kind_to_gl(kind: Kind) -> (r: u32)
    ensures
        r == spec_image_kind_to_gl(kind),
{
    match kind {
        Kind::D1(_) => GL_TEXTURE_1D,
        Kind::D1Array(_, _) => GL_TEXTURE_1D_ARRAY,
        Kind::D2(_, _, AaMode::Single) => GL_TEXTURE_2D,
        Kind::D2(_, _, _) => GL_TEXTURE_2D_MULTISAMPLE,
        Kind::D2Array(_, _, _, AaMode::Single) => GL_TEXTURE_2D_ARRAY,
        Kind::D2Array(_, _, _, _) => GL_TEXTURE_2D_MULTISAMPLE_ARRAY,
        Kind::D3(_, _, _) => GL_TEXTURE_3D,
        Kind::Cube(_) => GL_TEXTURE_CUBE_MAP,
        Kind::CubeArray(_, _) => GL_TEXTURE_CUBE_MAP_ARRAY,
    }
}

/// Native (minification, magnification) filter pair of a filter method.
pub open spec fn spec_filter_to_gl(f: FilterMethod) -> (u32, u32) {
    match f {
        FilterMethod::Scale => (GL_NEAREST, GL_NEAREST),
        FilterMethod::Mipmap => (GL_NEAREST_MIPMAP_NEAREST, GL_NEAREST),
        FilterMethod::Bilinear => (GL_LINEAR, GL_LINEAR),
        FilterMethod::Trilinear => (GL_LINEAR_MIPMAP_LINEAR, GL_LINEAR),
        FilterMethod::Anisotropic(_) => (GL_LINEAR_MIPMAP_LINEAR, GL_LINEAR),
    }
}

pub fn filter_to_gl(f: FilterMethod) -> (r: (u32, u32))
    ensures
        r == spec_filter_to_gl(f),
{
    match f {
        FilterMethod::Scale => (GL_NEAREST, GL_NEAREST),
        FilterMethod::Mipmap => (GL_NEAREST_MIPMAP_NEAREST, GL_NEAREST),
        FilterMethod::Bilinear => (GL_LINEAR, GL_LINEAR),
        FilterMethod::Trilinear => (GL_LINEAR_MIPMAP_LINEAR, GL_LINEAR),
        FilterMethod::Anisotropic(_) => (GL_LINEAR_MIPMAP_LINEAR, GL_LINEAR),
    }
}

/// Native wrap enumerant of a wrap mode.
pub open spec fn spec_wrap_to_gl(w: WrapMode) -> u32 {
    match w {
        WrapMode::Tile => GL_REPEAT,
        WrapMode::Mirror => GL_MIRRORED_REPEAT,
        WrapMode::Clamp => GL_CLAMP_TO_EDGE,
        WrapMode::Border => GL_CLAMP_TO_BORDER,
    }
}

pub fn wrap_to_gl(w: WrapMode) -> (r: u32)
    ensures
        r == spec_wrap_to_gl(w),
{
    match w {
        WrapMode::Tile => GL_REPEAT,
        WrapMode::Mirror => GL_MIRRORED_REPEAT,
        WrapMode::Clamp => GL_CLAMP_TO_EDGE,
        WrapMode::Border => GL_CLAMP_TO_BORDER,
    }
}

/// Native buffer target of a usage mask, decided by the binding-relevant
/// bits alone: exactly one of the uniform, index or vertex bits selects its
/// target, any other combination has none.
pub open spec fn spec_buffer_usage_to_gl_target(usage: BufferUsage) -> Option<u32> {
    let masked = usage.bits & (USAGE_UNIFORM | USAGE_INDEX | USAGE_VERTEX | USAGE_INDIRECT);
    if masked == USAGE_UNIFORM {
        Some(GL_UNIFORM_BUFFER)
    } else if masked == USAGE_INDEX {
        Some(GL_ELEMENT_ARRAY_BUFFER)
    } else if masked == USAGE_VERTEX {
        Some(GL_ARRAY_BUFFER)
    } else {
        None
    }
}

/// The indirect-only case is an unimplemented gap of this backend, left out
/// of the admitted inputs.
pub fn buffer_usage_to_gl_target(usage: BufferUsage) -> (r: Option<u32>)
    requires
        usage.bits & (USAGE_UNIFORM | USAGE_INDEX | USAGE_VERTEX | USAGE_INDIRECT) != USAGE_INDIRECT,
    ensures
        r == spec_buffer_usage_to_gl_target(usage),
{
    let masked = usage.bits & (USAGE_UNIFORM | USAGE_INDEX | USAGE_VERTEX | USAGE_INDIRECT);
    if masked == USAGE_UNIFORM {
        Some(GL_UNIFORM_BUFFER)
    } else if masked == USAGE_INDEX {
        Some(GL_ELEMENT_ARRAY_BUFFER)
    } else if masked == USAGE_VERTEX {
        Some(GL_ARRAY_BUFFER)
    } else {
        None
    }
}

/// Native primitive topology of a portable one.
pub open spec fn spec_primitive_to_gl_primitive(primitive: Primitive) -> u32 {
    match primitive {
        Primitive::PointList => GL_POINTS,
        Primitive::LineList => GL_LINES,
        Primitive::LineStrip => GL_LINE_STRIP,
        Primitive::TriangleList => GL_TRIANGLES,
        Primitive::TriangleStrip => GL_TRIANGLE_STRIP,
        Primitive::LineListAdjacency => GL_LINES_ADJACENCY,
        Primitive::LineStripAdjacency => GL_LINE_STRIP_ADJACENCY,
        Primitive::TriangleListAdjacency => GL_TRIANGLES_ADJACENCY,
        Primitive::TriangleStripAdjacency => GL_TRIANGLE_STRIP_ADJACENCY,
        Primitive::PatchList(_) => GL_PATCHES,
    }
}

pub fn primitive_to_gl_primitive(primitive: Primitive) -> (r: u32)
    ensures
        r == spec_primitive_to_gl_primitive(primitive),
{
    match primitive {
        Primitive::PointList => GL_POINTS,
        Primitive::LineList => GL_LINES,
        Primitive::LineStrip => GL_LINE_STRIP,
        Primitive::TriangleList => GL_TRIANGLES,
        Primitive::TriangleStrip => GL_TRIANGLE_STRIP,
        Primitive::LineListAdjacency => GL_LINES_ADJACENCY,
        Primitive::LineStripAdjacency => GL_LINE_STRIP_ADJACENCY,
        Primitive::TriangleListAdjacency => GL_TRIANGLES_ADJACENCY,
        Primitive::TriangleStripAdjacency => GL_TRIANGLE_STRIP_ADJACENCY,
        Primitive::PatchList(_) => GL_PATCHES,
    }
}

} // verus!
