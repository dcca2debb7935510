//! Blend modes: how a new fragment's color merges with the framebuffer.

use vstd::prelude::*;

verus! {

/// The combining function of a blend equation.
#[derive(Debug, Copy, Clone, PartialEq, Eq, Hash, Structural)]
pub enum BlendFunc {
    /// `result = source_factor * source_color + dest_factor * dest_color`
    Add,
    /// `result = source_factor * source_color - dest_factor * dest_color`
    Subtract,
    /// `result = dest_factor * dest_color - source_factor * source_color`
    ReverseSubtract,
}

/// A blend factor applied to the source or destination color.
#[derive(Debug, Copy, Clone, PartialEq, Eq, Hash, Structural)]
pub enum BlendParam {
    Zero,
    One,
    SrcAlpha,
    DstAlpha,
    OneMinusSrcAlpha,
    OneMinusDstAlpha,
    SrcColor,
    DstColor,
    OneMinusSrcColor,
    OneMinusDstColor,
}

/// A complete blend state: the combine functions for the color and alpha
/// channels and the four blend factors.
#[derive(Debug, Copy, Clone, PartialEq, Eq, Structural)]
pub struct BlendMode {
    pub func_rgb: BlendFunc,
    pub func_alpha: BlendFunc,
    pub src_rgb: BlendParam,
    pub src_alpha: BlendParam,
    pub dst_rgb: BlendParam,
    pub dst_alpha: BlendParam,
}

impl BlendMode {
    /// A blend mode using one function and one pair of factors for both
    /// the color and the alpha channel.
    pub fn new(func: BlendFunc, src: BlendParam, dst: BlendParam) -> (r: BlendMode)
        ensures
            r == (BlendMode {
                func_rgb: func,
                func_alpha: func,
                src_rgb: src,
                src_alpha: src,
                dst_rgb: dst,
                dst_alpha: dst,
            }),
    {
        BlendMode {
            func_rgb: func,
            func_alpha: func,
            src_alpha: src,
            src_rgb: src,
            dst_alpha: dst,
            dst_rgb: dst,
        }
    }

    /// Standard alpha blending.
    pub fn alpha() -> (r: BlendMode)
        ensures
            r == (BlendMode {
                func_rgb: BlendFunc::Add,
                func_alpha: BlendFunc::Add,
                src_rgb: BlendParam::SrcAlpha,
                src_alpha: BlendParam::One,
                dst_rgb: BlendParam::OneMinusSrcAlpha,
                dst_alpha: BlendParam::Zero,
            }),
    {
        BlendMode {
            func_rgb: BlendFunc::Add,
            func_alpha: BlendFunc::Add,
            src_rgb: BlendParam::SrcAlpha,
            dst_rgb: BlendParam::OneMinusSrcAlpha,
            src_alpha: BlendParam::One,
            dst_alpha: BlendParam::Zero,
        }
    }

    /// Additive blending: source and destination colors are summed.
    pub fn additive() -> (r: BlendMode)
        ensures
            r == (BlendMode {
                func_rgb: BlendFunc::Add,
                func_alpha: BlendFunc::Add,
                src_rgb: BlendParam::One,
                src_alpha: BlendParam::One,
                dst_rgb: BlendParam::One,
                dst_alpha: BlendParam::One,
            }),
    {
        BlendMode {
            func_rgb: BlendFunc::Add,
            func_alpha: BlendFunc::Add,
            src_rgb: BlendParam::One,
            dst_rgb: BlendParam::One,
            src_alpha: BlendParam::One,
            dst_alpha: BlendParam::One,
        }
    }

    /// Multiplicative blending: the destination color is scaled by the
    /// source color.
    pub fn multiplicative() -> (r: BlendMode)
        ensures
            r == (BlendMode {
                func_rgb: BlendFunc::Add,
                func_alpha: BlendFunc::Add,
                src_rgb: BlendParam::DstColor,
                src_alpha: BlendParam::DstAlpha,
                dst_rgb: BlendParam::Zero,
                dst_alpha: BlendParam::Zero,
            }),
    {
        BlendMode {
            func_rgb: BlendFunc::Add,
            func_alpha: BlendFunc::Add,
            src_rgb: BlendParam::DstColor,
            dst_rgb: BlendParam::Zero,
            src_alpha: BlendParam::DstAlpha,
            dst_alpha: BlendParam::Zero,
        }
    }
}

impl Default for BlendMode {
    /// The default blend mode is alpha blending.
    fn default() -> (r: BlendMode)
        ensures
            r == (BlendMode {
                func_rgb: BlendFunc::Add,
                func_alpha: BlendFunc::Add,
                src_rgb: BlendParam::SrcAlpha,
                src_alpha: BlendParam::One,
                dst_rgb: BlendParam::OneMinusSrcAlpha,
                dst_alpha: BlendParam::Zero,
            }),
    {
        BlendMode::alpha()
    }
}

/// Compares two optional blend modes for equality.
pub fn opt_blend_eq(a: &Option<BlendMode>, b: &Option<BlendMode>) -> (r: bool)
    ensures
        r == (a == b),
{
    match (a, b) {
        (Option::None, Option::None) => true,
        (Option::Some(x), Option::Some(y)) => *x == *y,
        _ => false,
    }
}

} // verus!
