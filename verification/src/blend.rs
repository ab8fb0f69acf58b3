use vstd::prelude::*;
use crate::constants::{
    ALLEGRO_ZERO, ALLEGRO_ONE, ALLEGRO_ALPHA, ALLEGRO_INVERSE_ALPHA, ALLEGRO_SRC_COLOR,
    ALLEGRO_DEST_COLOR, ALLEGRO_INVERSE_SRC_COLOR, ALLEGRO_INVERSE_DEST_COLOR, ALLEGRO_CONST_COLOR,
    ALLEGRO_INVERSE_CONST_COLOR, ALLEGRO_ADD, ALLEGRO_SRC_MINUS_DEST, ALLEGRO_DEST_MINUS_SRC,
};

verus! {

/// A blending factor for `set_blender`.
#[derive(Clone, Copy, Debug, PartialEq, Eq, Structural)]
pub enum BlendMode {
    Zero,
    One,
    Alpha,
    InverseAlpha,
    SrcColor,
    DestColor,
    InverseSrcColor,
    InverseDestColor,
    ConstColor,
    InverseConstColor,
}

/// The Allegro constant that a blending factor stands for.
pub open spec fn blend_mode_code(m: BlendMode) -> i32 {
    match m {
        BlendMode::Zero => ALLEGRO_ZERO,
        BlendMode::One => ALLEGRO_ONE,
        BlendMode::Alpha => ALLEGRO_ALPHA,
        BlendMode::InverseAlpha => ALLEGRO_INVERSE_ALPHA,
        BlendMode::SrcColor => ALLEGRO_SRC_COLOR,
        BlendMode::DestColor => ALLEGRO_DEST_COLOR,
        BlendMode::InverseSrcColor => ALLEGRO_INVERSE_SRC_COLOR,
        BlendMode::InverseDestColor => ALLEGRO_INVERSE_DEST_COLOR,
        BlendMode::ConstColor => ALLEGRO_CONST_COLOR,
        BlendMode::InverseConstColor => ALLEGRO_INVERSE_CONST_COLOR,
    }
}

impl BlendMode {
    /// The C `int` that Allegro receives for this factor.
    pub fn to_allegro(&self) -> (r: i32)
        ensures
            r == blend_mode_code(*self),
    {
        match self {
            BlendMode::Zero => ALLEGRO_ZERO,
            BlendMode::One => ALLEGRO_ONE,
            BlendMode::Alpha => ALLEGRO_ALPHA,
            BlendMode::InverseAlpha => ALLEGRO_INVERSE_ALPHA,
            BlendMode::SrcColor => ALLEGRO_SRC_COLOR,
            BlendMode::DestColor => ALLEGRO_DEST_COLOR,
            BlendMode::InverseSrcColor => ALLEGRO_INVERSE_SRC_COLOR,
            BlendMode::InverseDestColor => ALLEGRO_INVERSE_DEST_COLOR,
            BlendMode::ConstColor => ALLEGRO_CONST_COLOR,
            BlendMode::InverseConstColor => ALLEGRO_INVERSE_CONST_COLOR,
        }
    }
}

/// A blending operation for `set_blender`.
#[derive(Clone, Copy, Debug, PartialEq, Eq, Structural)]
pub enum BlendOperation {
    Add,
    SrcMinusDest,
    DestMinusSrc,
}

/// The Allegro constant that a blending operation stands for.
pub open spec fn blend_operation_code(op: BlendOperation) -> i32 {
    match op {
        BlendOperation::Add => ALLEGRO_ADD,
        BlendOperation::SrcMinusDest => ALLEGRO_SRC_MINUS_DEST,
        BlendOperation::DestMinusSrc => ALLEGRO_DEST_MINUS_SRC,
    }
}

impl BlendOperation {
    /// The C `int` that Allegro receives for this operation.
    pub fn to_allegro(&self) -> (r: i32)
        ensures
            r == blend_operation_code(*self),
    {
        match self {
            BlendOperation::Add => ALLEGRO_ADD,
            BlendOperation::SrcMinusDest => ALLEGRO_SRC_MINUS_DEST,
            BlendOperation::DestMinusSrc => ALLEGRO_DEST_MINUS_SRC,
        }
    }
}

/// Distinct blending factors reach Allegro as distinct constants, so no
/// choice of factor is lost on the way.
pub proof fn lemma_blend_mode_codes_distinct(a: BlendMode, b: BlendMode)
    ensures
        blend_mode_code(a) == blend_mode_code(b) ==> a == b,
        0 <= blend_mode_code(a) <= 9,
{
}

/// Distinct blending operations reach Allegro as distinct constants.
pub proof fn lemma_blend_operation_codes_distinct(a: BlendOperation, b: BlendOperation)
    ensures
        blend_operation_code(a) == blend_operation_code(b) ==> a == b,
        0 <= blend_operation_code(a) <= 2,
{
}

} // verus!
