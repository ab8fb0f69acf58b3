use vstd::prelude::*;

verus! {

/// Major version of the Allegro headers this binding is written against.
pub const ALLEGRO_VERSION: u32 = 5;

/// Minor version of the Allegro headers this binding is written against.
pub const ALLEGRO_SUB_VERSION: u32 = 2;

/// Work-in-progress version of the Allegro headers this binding is written against.
pub const ALLEGRO_WIP_VERSION: u32 = 0;

/// Release number of the Allegro headers this binding is written against.
pub const ALLEGRO_RELEASE_NUMBER: u32 = 1;

/// `ALLEGRO_MEMORY_BITMAP`: the new-bitmap flag that asks for a bitmap in system memory.
pub const ALLEGRO_MEMORY_BITMAP: i32 = 0x0001;

/// `ALLEGRO_FLIP_HORIZONTAL` drawing flag.
pub const ALLEGRO_FLIP_HORIZONTAL: u32 = 0x00001;

/// `ALLEGRO_FLIP_VERTICAL` drawing flag.
pub const ALLEGRO_FLIP_VERTICAL: u32 = 0x00002;

/// `ALLEGRO_ALIGN_LEFT` text alignment flag.
pub const ALLEGRO_ALIGN_LEFT: i32 = 0;

/// `ALLEGRO_ALIGN_CENTRE` text alignment flag.
pub const ALLEGRO_ALIGN_CENTRE: i32 = 1;

/// `ALLEGRO_ALIGN_RIGHT` text alignment flag.
pub const ALLEGRO_ALIGN_RIGHT: i32 = 2;

/// Blending factors of `ALLEGRO_BLEND_MODE`.
pub const ALLEGRO_ZERO: i32 = 0;
/// Blending factor `ALLEGRO_ONE`.
pub const ALLEGRO_ONE: i32 = 1;
/// Blending factor `ALLEGRO_ALPHA`.
pub const ALLEGRO_ALPHA: i32 = 2;
/// Blending factor `ALLEGRO_INVERSE_ALPHA`.
pub const ALLEGRO_INVERSE_ALPHA: i32 = 3;
/// Blending factor `ALLEGRO_SRC_COLOR`.
pub const ALLEGRO_SRC_COLOR: i32 = 4;
/// Blending factor `ALLEGRO_DEST_COLOR`.
pub const ALLEGRO_DEST_COLOR: i32 = 5;
/// Blending factor `ALLEGRO_INVERSE_SRC_COLOR`.
pub const ALLEGRO_INVERSE_SRC_COLOR: i32 = 6;
/// Blending factor `ALLEGRO_INVERSE_DEST_COLOR`.
pub const ALLEGRO_INVERSE_DEST_COLOR: i32 = 7;
/// Blending factor `ALLEGRO_CONST_COLOR`.
pub const ALLEGRO_CONST_COLOR: i32 = 8;
/// Blending factor `ALLEGRO_INVERSE_CONST_COLOR`.
pub const ALLEGRO_INVERSE_CONST_COLOR: i32 = 9;

/// Blending operation `ALLEGRO_ADD`.
pub const ALLEGRO_ADD: i32 = 0;
/// Blending operation `ALLEGRO_SRC_MINUS_DEST`.
pub const ALLEGRO_SRC_MINUS_DEST: i32 = 1;
/// Blending operation `ALLEGRO_DEST_MINUS_SRC`.
pub const ALLEGRO_DEST_MINUS_SRC: i32 = 2;

/// Display option importance `ALLEGRO_DONTCARE`.
pub const ALLEGRO_DONTCARE: i32 = 0;
/// Display option importance `ALLEGRO_REQUIRE`.
pub const ALLEGRO_REQUIRE: i32 = 1;
/// Display option importance `ALLEGRO_SUGGEST`.
pub const ALLEGRO_SUGGEST: i32 = 2;

} // verus!
