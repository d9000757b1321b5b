//! Pipeline-state data model.
//!
//! Plain-value forms of the portable API's fixed-function state descriptors:
//! comparison functions, stencil operations, blend factors and operations,
//! rasterizer and depth/stencil/blend descriptors.  Floating-point payloads
//! (line widths, depth-bias factors, blend-constant channels) never enter
//! any decision made here, so they are carried as raw IEEE-754 bit patterns;
//! the native shim turns them back into floats when it performs a call.

use vstd::prelude::*;

verus! {

/// An `f32` payload carried as its bit pattern.
#[derive(Clone, Copy, Debug, PartialEq, Eq, Structural)]
pub struct F32Bits {
    pub bits: u32,
}

/// Comparison function used by depth and stencil tests.
#[derive(Clone, Copy, Debug, PartialEq, Eq, Structural)]
pub enum Comparison {
    Never,
    Less,
    LessEqual,
    Equal,
    GreaterEqual,
    Greater,
    NotEqual,
    Always,
}

/// Operation applied to a stencil value.
#[derive(Clone, Copy, Debug, PartialEq, Eq, Structural)]
pub enum StencilOp {
    Keep,
    Zero,
    Replace,
    IncrementClamp,
    IncrementWrap,
    DecrementClamp,
    DecrementWrap,
    Invert,
}

/// Source or destination blend factor.
#[derive(Clone, Copy, Debug, PartialEq, Eq, Structural)]
pub enum Factor {
    Zero,
    One,
    SrcColor,
    OneMinusSrcColor,
    DstColor,
    OneMinusDstColor,
    SrcAlpha,
    OneMinusSrcAlpha,
    DstAlpha,
    OneMinusDstAlpha,
    ConstColor,
    OneMinusConstColor,
    ConstAlpha,
    OneMinusConstAlpha,
    SrcAlphaSaturate,
    Src1Color,
    OneMinusSrc1Color,
    Src1Alpha,
    OneMinusSrc1Alpha,
}

/// Abstract blend operation.  `Min` and `Max` take no factors: whatever the
/// rest of a descriptor says, they resolve to the zero factors.
#[derive(Clone, Copy, Debug, PartialEq, Eq, Structural)]
pub enum BlendOp {
    Add { src: Factor, dst: Factor },
    Sub { src: Factor, dst: Factor },
    RevSub { src: Factor, dst: Factor },
    Min,
    Max,
}

/// How polygons are rasterized; the line width rides along as bits.
#[derive(Clone, Copy, Debug, PartialEq, Eq, Structural)]
pub enum PolygonMode {
    Point,
    Line(F32Bits),
    Fill,
}

/// Winding order that counts as front-facing.
#[derive(Clone, Copy, Debug, PartialEq, Eq, Structural)]
pub enum FrontFace {
    Clockwise,
    CounterClockwise,
}

/// Face selection bitmask.
#[derive(Clone, Copy, Debug, PartialEq, Eq, Structural)]
pub struct Face {
    pub bits: u32,
}

pub const FACE_NONE: u32 = 0;

pub const FACE_FRONT: u32 = 1;

pub const FACE_BACK: u32 = 2;

pub const FACE_FRONT_AND_BACK: u32 = 3;

impl Face {
    pub open spec fn spec_is_empty(self) -> bool {
        self.bits == FACE_NONE
    }

    pub open spec fn spec_contains(self, bits: u32) -> bool {
        self.bits & bits == bits
    }

    pub fn is_empty(&self) -> (r: bool)
        ensures
            r == self.spec_is_empty(),
    {
        self.bits == FACE_NONE
    }

    pub fn contains(&self, bits: u32) -> (r: bool)
        ensures
            r == self.spec_contains(bits),
    {
        self.bits & bits == bits
    }
}

/// Color channel write mask.
#[derive(Clone, Copy, Debug, PartialEq, Eq, Structural)]
pub struct ColorMask {
    pub bits: u32,
}

pub const COLOR_MASK_RED: u32 = 1;

pub const COLOR_MASK_GREEN: u32 = 2;

pub const COLOR_MASK_BLUE: u32 = 4;

pub const COLOR_MASK_ALPHA: u32 = 8;

impl ColorMask {
    pub open spec fn spec_contains(self, bits: u32) -> bool {
        self.bits & bits == bits
    }

    pub fn contains(&self, bits: u32) -> (r: bool)
        ensures
            r == self.spec_contains(bits),
    {
        self.bits & bits == bits
    }
}

/// A piece of pipeline state that is either baked in at creation or left
/// dynamic, to be supplied at record time.
#[derive(Clone, Copy, Debug, PartialEq, Eq, Structural)]
pub enum PsoState<T> {
    Static(T),
    Dynamic,
}

/// Static depth-bias parameters, carried as bit patterns.
#[derive(Clone, Copy, Debug, PartialEq, Eq, Structural)]
pub struct DepthBias {
    pub const_factor: F32Bits,
    pub clamp: F32Bits,
    pub slope_factor: F32Bits,
}

/// Depth test descriptor.
#[derive(Clone, Copy, Debug, PartialEq, Eq, Structural)]
pub enum DepthTest {
    On { fun: Comparison, write: bool },
    Off,
}

/// Per-face stencil descriptor.
#[derive(Clone, Copy, Debug, PartialEq, Eq, Structural)]
pub struct StencilFace {
    pub fun: Comparison,
    pub mask_read: PsoState<u32>,
    pub mask_write: PsoState<u32>,
    pub op_fail: StencilOp,
    pub op_depth_fail: StencilOp,
    pub op_pass: StencilOp,
}

/// Stencil test descriptor.
#[derive(Clone, Copy, Debug, PartialEq, Eq, Structural)]
pub enum StencilTest {
    On { front: StencilFace, back: StencilFace },
    Off,
}

/// Per-target blend descriptor.
#[derive(Clone, Copy, Debug, PartialEq, Eq, Structural)]
pub enum BlendState {
    On { color: BlendOp, alpha: BlendOp },
    Off,
}

/// Color write mask plus blend state of one color target.
#[derive(Clone, Copy, Debug, PartialEq, Eq, Structural)]
pub struct ColorBlendDesc(pub ColorMask, pub BlendState);

/// Rasterizer descriptor, as the state applier reads it.
#[derive(Clone, Copy, Debug, PartialEq, Eq, Structural)]
pub struct Rasterizer {
    pub polygon_mode: PolygonMode,
    pub cull_face: Face,
    pub front_face: FrontFace,
    pub depth_bias: Option<PsoState<DepthBias>>,
}

/// Blend-constant color, one bit pattern per channel.
#[derive(Clone, Copy, Debug, PartialEq, Eq, Structural)]
pub struct ColorValue {
    pub r: F32Bits,
    pub g: F32Bits,
    pub b: F32Bits,
    pub a: F32Bits,
}

} // verus!
