//! Native enumerant values of the immediate-mode backend.
//!
//! The values are fixed by the graphics standard's headers; the translation
//! tables and the state applier emit them, and the native shim passes them
//! to the resolved function-pointer table unchanged.

use vstd::prelude::*;

verus! {

// Texture targets.
pub const GL_TEXTURE_1D: u32 = 0x0DE0;

pub const GL_TEXTURE_1D_ARRAY: u32 = 0x8C18;

pub const GL_TEXTURE_2D: u32 = 0x0DE1;

pub const GL_TEXTURE_2D_MULTISAMPLE: u32 = 0x9100;

pub const GL_TEXTURE_2D_ARRAY: u32 = 0x8C1A;

pub const GL_TEXTURE_2D_MULTISAMPLE_ARRAY: u32 = 0x9102;

pub const GL_TEXTURE_3D: u32 = 0x806F;

pub const GL_TEXTURE_CUBE_MAP: u32 = 0x8513;

pub const GL_TEXTURE_CUBE_MAP_ARRAY: u32 = 0x9009;

// Filters.
pub const GL_NEAREST: u32 = 0x2600;

pub const GL_LINEAR: u32 = 0x2601;

pub const GL_NEAREST_MIPMAP_NEAREST: u32 = 0x2700;

pub const GL_LINEAR_MIPMAP_LINEAR: u32 = 0x2703;

// Wrap modes.
pub const GL_REPEAT: u32 = 0x2901;

pub const GL_MIRRORED_REPEAT: u32 = 0x8370;

pub const GL_CLAMP_TO_EDGE: u32 = 0x812F;

pub const GL_CLAMP_TO_BORDER: u32 = 0x812D;

// Buffer targets.
pub const GL_UNIFORM_BUFFER: u32 = 0x8A11;

pub const GL_ELEMENT_ARRAY_BUFFER: u32 = 0x8893;

pub const GL_ARRAY_BUFFER: u32 = 0x8892;

// Primitive topologies.
pub const GL_POINTS: u32 = 0x0000;

pub const GL_LINES: u32 = 0x0001;

pub const GL_LINE_STRIP: u32 = 0x0003;

pub const GL_TRIANGLES: u32 = 0x0004;

pub const GL_TRIANGLE_STRIP: u32 = 0x0005;

pub const GL_LINES_ADJACENCY: u32 = 0x000A;

pub const GL_LINE_STRIP_ADJACENCY: u32 = 0x000B;

pub const GL_TRIANGLES_ADJACENCY: u32 = 0x000C;

pub const GL_TRIANGLE_STRIP_ADJACENCY: u32 = 0x000D;

pub const GL_PATCHES: u32 = 0x000E;

// Comparison functions.
pub const GL_NEVER: u32 = 0x0200;

pub const GL_LESS: u32 = 0x0201;

pub const GL_EQUAL: u32 = 0x0202;

pub const GL_LEQUAL: u32 = 0x0203;

pub const GL_GREATER: u32 = 0x0204;

pub const GL_NOTEQUAL: u32 = 0x0205;

pub const GL_GEQUAL: u32 = 0x0206;

pub const GL_ALWAYS: u32 = 0x0207;

// Stencil operations.
pub const GL_ZERO: u32 = 0;

pub const GL_ONE: u32 = 1;

pub const GL_KEEP: u32 = 0x1E00;

pub const GL_REPLACE: u32 = 0x1E01;

pub const GL_INCR: u32 = 0x1E02;

pub const GL_DECR: u32 = 0x1E03;

pub const GL_INCR_WRAP: u32 = 0x8507;

pub const GL_DECR_WRAP: u32 = 0x8508;

pub const GL_INVERT: u32 = 0x150A;

// Blend equations.
pub const GL_FUNC_ADD: u32 = 0x8006;

pub const GL_FUNC_SUBTRACT: u32 = 0x800A;

pub const GL_FUNC_REVERSE_SUBTRACT: u32 = 0x800B;

pub const GL_MIN: u32 = 0x8007;

pub const GL_MAX: u32 = 0x8008;

// Blend factors.
pub const GL_SRC_COLOR: u32 = 0x0300;

pub const GL_ONE_MINUS_SRC_COLOR: u32 = 0x0301;

pub const GL_SRC_ALPHA: u32 = 0x0302;

pub const GL_ONE_MINUS_SRC_ALPHA: u32 = 0x0303;

pub const GL_DST_ALPHA: u32 = 0x0304;

pub const GL_ONE_MINUS_DST_ALPHA: u32 = 0x0305;

pub const GL_DST_COLOR: u32 = 0x0306;

pub const GL_ONE_MINUS_DST_COLOR: u32 = 0x0307;

pub const GL_SRC_ALPHA_SATURATE: u32 = 0x0308;

pub const GL_CONSTANT_COLOR: u32 = 0x8001;

pub const GL_ONE_MINUS_CONSTANT_COLOR: u32 = 0x8002;

pub const GL_CONSTANT_ALPHA: u32 = 0x8003;

pub const GL_ONE_MINUS_CONSTANT_ALPHA: u32 = 0x8004;

pub const GL_SRC1_COLOR: u32 = 0x88F9;

pub const GL_ONE_MINUS_SRC1_COLOR: u32 = 0x88FA;

pub const GL_SRC1_ALPHA: u32 = 0x8589;

pub const GL_ONE_MINUS_SRC1_ALPHA: u32 = 0x88FB;

// Faces and winding.
pub const GL_CW: u32 = 0x0900;

pub const GL_CCW: u32 = 0x0901;

pub const GL_FRONT: u32 = 0x0404;

pub const GL_BACK: u32 = 0x0405;

pub const GL_FRONT_AND_BACK: u32 = 0x0408;

// Polygon modes and offsets.
pub const GL_POINT: u32 = 0x1B00;

pub const GL_LINE: u32 = 0x1B01;

pub const GL_FILL: u32 = 0x1B02;

pub const GL_POLYGON_OFFSET_POINT: u32 = 0x2A01;

pub const GL_POLYGON_OFFSET_LINE: u32 = 0x2A02;

pub const GL_POLYGON_OFFSET_FILL: u32 = 0x8037;

// Capabilities.
pub const GL_CULL_FACE: u32 = 0x0B44;

pub const GL_MULTISAMPLE: u32 = 0x809D;

pub const GL_DEPTH_TEST: u32 = 0x0B71;

pub const GL_STENCIL_TEST: u32 = 0x0B90;

pub const GL_BLEND: u32 = 0x0BE2;

pub const GL_FRAMEBUFFER_SRGB: u32 = 0x8DB9;

pub const GL_PROGRAM_POINT_SIZE: u32 = 0x8642;

// Pixel store parameters.
pub const GL_UNPACK_ALIGNMENT: u32 = 0x0CF5;

// Framebuffer attachments.
pub const GL_COLOR_ATTACHMENT0: u32 = 0x8CE0;

// Error codes.
pub const GL_NO_ERROR: u32 = 0;

pub const GL_INVALID_ENUM: u32 = 0x0500;

pub const GL_INVALID_VALUE: u32 = 0x0501;

pub const GL_INVALID_OPERATION: u32 = 0x0502;

pub const GL_OUT_OF_MEMORY: u32 = 0x0505;

pub const GL_INVALID_FRAMEBUFFER_OPERATION: u32 = 0x0506;

// Memory mapping access bits.
pub const GL_MAP_READ_BIT: u32 = 0x0001;

pub const GL_MAP_WRITE_BIT: u32 = 0x0002;

} // verus!
