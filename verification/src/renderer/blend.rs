//! Blend equations for the four Spine blend modes, with and without
//! premultiplied alpha.

use vstd::prelude::*;

verus! {

/// Compositing equation named by the skeleton data for one slot.
#[derive(Clone, Copy, Debug, PartialEq, Eq, Structural)]
pub enum BlendMode {
    Normal,
    Additive,
    Multiply,
    Screen,
}

/// Multiplier applied to the source or destination term of a blend equation.
#[derive(Clone, Copy, Debug, PartialEq, Eq, Structural)]
pub enum BlendFactor {
    Zero,
    One,
    Src,
    OneMinusSrc,
    SrcAlpha,
    OneMinusSrcAlpha,
    Dst,
    OneMinusDst,
    DstAlpha,
    OneMinusDstAlpha,
    SrcAlphaSaturated,
    Constant,
    OneMinusConstant,
}

/// How the weighted source and destination terms are combined.
#[derive(Clone, Copy, Debug, PartialEq, Eq, Structural)]
pub enum BlendOperation {
    Add,
    Subtract,
    ReverseSubtract,
    Min,
    Max,
}

/// One blend equation: `operation(src_factor * src, dst_factor * dst)`.
#[derive(Clone, Copy, Debug, PartialEq, Eq, Structural)]
pub struct BlendComponent {
    pub operation: BlendOperation,
    pub src_factor: BlendFactor,
    pub dst_factor: BlendFactor,
}

/// The pair of equations a pipeline blends with: one for the colour
/// channels, one for alpha.
#[derive(Clone, Copy, Debug, PartialEq, Eq, Structural)]
pub struct BlendState {
    pub color: BlendComponent,
    pub alpha: BlendComponent,
}

/// Source factor of the colour equation. Straight-alpha content still has to
/// be scaled by its alpha in the modes that composite "over" or add; content
/// with premultiplied alpha already is.
pub open spec fn color_source(mode: BlendMode, premultiplied_alpha: bool) -> BlendFactor {
    match mode {
        BlendMode::Normal | BlendMode::Additive => if premultiplied_alpha {
            BlendFactor::One
        } else {
            BlendFactor::SrcAlpha
        },
        BlendMode::Multiply => BlendFactor::Dst,
        BlendMode::Screen => BlendFactor::One,
    }
}

/// Source factor of the alpha equation.
pub open spec fn alpha_source(mode: BlendMode) -> BlendFactor {
    match mode {
        BlendMode::Normal | BlendMode::Additive => BlendFactor::One,
        BlendMode::Multiply => BlendFactor::OneMinusSrcAlpha,
        BlendMode::Screen => BlendFactor::OneMinusSrc,
    }
}

/// Destination factor, shared by the colour and the alpha equation: additive
/// blending keeps the destination whole, every other mode lets the source
/// cover it.
pub open spec fn destination(mode: BlendMode) -> BlendFactor {
    match mode {
        BlendMode::Additive => BlendFactor::One,
        _ => BlendFactor::OneMinusSrcAlpha,
    }
}

/// An additive equation with the given factors.
pub open spec fn adding(src_factor: BlendFactor, dst_factor: BlendFactor) -> BlendComponent {
    BlendComponent { operation: BlendOperation::Add, src_factor, dst_factor }
}

/// The blend state of a batch drawn with `mode`, whose texture has
/// premultiplied alpha or not.
pub open spec fn resolve(mode: BlendMode, premultiplied_alpha: bool) -> BlendState {
    BlendState {
        color: adding(color_source(mode, premultiplied_alpha), destination(mode)),
        alpha: adding(alpha_source(mode), destination(mode)),
    }
}

/// A blend mode as the renderer consumes it.
#[derive(Clone, Copy, Debug, PartialEq, Eq, Structural)]
pub struct SpineBlendMode(pub BlendMode);

impl SpineBlendMode {
    /// The blend state for this mode under the given alpha convention.
    pub fn into_blend_state(self, premultiplied_alpha: bool) -> (state: BlendState)
        ensures
            state == resolve(self.0, premultiplied_alpha),
    {
        match self.0 {
            BlendMode::Additive => match premultiplied_alpha {
                false => BlendState {
                    alpha: BlendComponent {
                        operation: BlendOperation::Add,
                        src_factor: BlendFactor::One,
                        dst_factor: BlendFactor::One,
                    },
                    color: BlendComponent {
                        operation: BlendOperation::Add,
                        src_factor: BlendFactor::SrcAlpha,
                        dst_factor: BlendFactor::One,
                    },
                },
                true => BlendState {
                    alpha: BlendComponent {
                        operation: BlendOperation::Add,
                        src_factor: BlendFactor::One,
                        dst_factor: BlendFactor::One,
                    },
                    color: BlendComponent {
                        operation: BlendOperation::Add,
                        src_factor: BlendFactor::One,
                        dst_factor: BlendFactor::One,
                    },
                },
            },
            BlendMode::Multiply => BlendState {
                alpha: BlendComponent {
                    operation: BlendOperation::Add,
                    src_factor: BlendFactor::OneMinusSrcAlpha,
                    dst_factor: BlendFactor::OneMinusSrcAlpha,
                },
                color: BlendComponent {
                    operation: BlendOperation::Add,
                    src_factor: BlendFactor::Dst,
                    dst_factor: BlendFactor::OneMinusSrcAlpha,
                },
            },
            BlendMode::Normal => match premultiplied_alpha {
                false => BlendState {
                    alpha: BlendComponent {
                        operation: BlendOperation::Add,
                        src_factor: BlendFactor::One,
                        dst_factor: BlendFactor::OneMinusSrcAlpha,
                    },
                    color: BlendComponent {
                        operation: BlendOperation::Add,
                        src_factor: BlendFactor::SrcAlpha,
                        dst_factor: BlendFactor::OneMinusSrcAlpha,
                    },
                },
                true => BlendState {
                    alpha: BlendComponent {
                        operation: BlendOperation::Add,
                        src_factor: BlendFactor::One,
                        dst_factor: BlendFactor::OneMinusSrcAlpha,
                    },
                    color: BlendComponent {
                        operation: BlendOperation::Add,
                        src_factor: BlendFactor::One,
                        dst_factor: BlendFactor::OneMinusSrcAlpha,
                    },
                },
            },
            BlendMode::Screen => BlendState {
                alpha: BlendComponent {
                    operation: BlendOperation::Add,
                    src_factor: BlendFactor::OneMinusSrc,
                    dst_factor: BlendFactor::OneMinusSrcAlpha,
                },
                color: BlendComponent {
                    operation: BlendOperation::Add,
                    src_factor: BlendFactor::One,
                    dst_factor: BlendFactor::OneMinusSrcAlpha,
                },
            },
        }
    }
}

/// Every resolved equation adds its two terms.
pub proof fn lemma_resolve_always_adds(mode: BlendMode, premultiplied_alpha: bool)
    ensures
        resolve(mode, premultiplied_alpha).color.operation == BlendOperation::Add,
        resolve(mode, premultiplied_alpha).alpha.operation == BlendOperation::Add,
{
}

/// Multiply and screen blending do not depend on the alpha convention.
pub proof fn lemma_multiply_and_screen_ignore_alpha_convention(mode: BlendMode)
    requires
        mode == BlendMode::Multiply || mode == BlendMode::Screen,
    ensures
        resolve(mode, true) == resolve(mode, false),
{
}

/// The alpha convention changes nothing but the source factor of the colour
/// equation, and that only for normal and additive blending, where
/// premultiplied content is taken whole and straight content is scaled by its
/// alpha.
pub proof fn lemma_alpha_convention_only_moves_color_source(mode: BlendMode)
    ensures
        resolve(mode, true).alpha == resolve(mode, false).alpha,
        resolve(mode, true).color.dst_factor == resolve(mode, false).color.dst_factor,
        resolve(mode, true).color.operation == resolve(mode, false).color.operation,
        mode == BlendMode::Normal || mode == BlendMode::Additive ==> {
            &&& resolve(mode, true).color.src_factor == BlendFactor::One
            &&& resolve(mode, false).color.src_factor == BlendFactor::SrcAlpha
        },
{
}

} // verus!
