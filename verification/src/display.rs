use vstd::prelude::*;
use crate::constants::{ALLEGRO_DONTCARE, ALLEGRO_REQUIRE, ALLEGRO_SUGGEST};

verus! {

/// How much a display option set with `set_new_display_option` matters.
#[derive(Clone, Copy, Debug, PartialEq, Eq, Structural)]
pub enum DisplayOptionImportance {
    DontCare,
    Require,
    Suggest,
}

/// The Allegro constant of an importance.
pub open spec fn importance_code(i: DisplayOptionImportance) -> i32 {
    match i {
        DisplayOptionImportance::DontCare => ALLEGRO_DONTCARE,
        DisplayOptionImportance::Require => ALLEGRO_REQUIRE,
        DisplayOptionImportance::Suggest => ALLEGRO_SUGGEST,
    }
}

impl DisplayOptionImportance {
    /// The C `int` that `al_set_new_display_option` receives.
    pub fn to_allegro(&self) -> (r: i32)
        ensures
            r == importance_code(*self),
    {
        match self {
            DisplayOptionImportance::DontCare => ALLEGRO_DONTCARE,
            DisplayOptionImportance::Require => ALLEGRO_REQUIRE,
            DisplayOptionImportance::Suggest => ALLEGRO_SUGGEST,
        }
    }

    /// The importance that `al_get_new_display_option` reports as `code`;
    /// `None` for a code that is no Allegro importance.
    pub fn from_allegro(code: i32) -> (r: Option<DisplayOptionImportance>)
        ensures
            r matches Some(i) ==> importance_code(i) == code,
            r is None <==> !(0 <= code <= 2),
    {
        if code == ALLEGRO_DONTCARE {
            Some(DisplayOptionImportance::DontCare)
        } else if code == ALLEGRO_REQUIRE {
            Some(DisplayOptionImportance::Require)
        } else if code == ALLEGRO_SUGGEST {
            Some(DisplayOptionImportance::Suggest)
        } else {
            None
        }
    }
}

/// Reading back the code of an importance gives that importance, and
/// distinct importances have distinct codes.
pub proof fn lemma_importance_codes(a: DisplayOptionImportance, b: DisplayOptionImportance)
    ensures
        0 <= importance_code(a) <= 2,
        importance_code(a) == importance_code(b) ==> a == b,
{
}

} // verus!
