use vstd::prelude::*;
use crate::constants::{ALLEGRO_ALIGN_LEFT, ALLEGRO_ALIGN_CENTRE, ALLEGRO_ALIGN_RIGHT};

verus! {

/// How text is placed relative to the position it is drawn at.
#[derive(Clone, Copy, Debug, PartialEq, Eq, Structural)]
pub enum FontAlignment {
    AlignLeft,
    AlignCentre,
    AlignRight,
}

/// The Allegro alignment flag of an alignment.
pub open spec fn alignment_flags(align: FontAlignment) -> i32 {
    match align {
        FontAlignment::AlignLeft => ALLEGRO_ALIGN_LEFT,
        FontAlignment::AlignRight => ALLEGRO_ALIGN_RIGHT,
        FontAlignment::AlignCentre => ALLEGRO_ALIGN_CENTRE,
    }
}

impl FontAlignment {
    /// The `flags` argument that the text drawing calls hand to Allegro.
    pub fn get_allegro_flags(&self) -> (r: i32)
        ensures
            r == alignment_flags(*self),
    {
        match *self {
            FontAlignment::AlignLeft => ALLEGRO_ALIGN_LEFT,
            FontAlignment::AlignRight => ALLEGRO_ALIGN_RIGHT,
            FontAlignment::AlignCentre => ALLEGRO_ALIGN_CENTRE,
        }
    }
}

/// Decides a text drawing call (`draw_text`, `draw_justified_text`): empty
/// text draws nothing, other text is drawn with the alignment's flags.
pub fn text_draw_flags(align: FontAlignment, text: &str) -> (r: Option<i32>)
    ensures
        r is None <==> text@.len() == 0,
        r is Some ==> r == Some(alignment_flags(align)),
{
    if text.is_empty() {
        None
    } else {
        Some(align.get_allegro_flags())
    }
}

/// A loaded font, known by the address of its `ALLEGRO_FONT`, which is
/// never null.
pub struct Font {
    allegro_font: usize,
}

impl Font {
    /// The address of the Allegro font.
    pub closed spec fn spec_font(self) -> usize {
        self.allegro_font
    }

    /// Every font refers to an actual Allegro font.
    #[verifier::type_invariant]
    closed spec fn wf(self) -> bool {
        self.allegro_font != 0
    }

    /// Takes over the Allegro font at address `font`; a null address is refused.
    pub fn wrap_allegro_font(font: usize) -> (r: Result<Font, ()>)
        ensures
            r is Err <==> font == 0,
            r matches Ok(f) ==> f.spec_font() == font && f.spec_font() != 0,
    {
        Font::new(font)
    }

    fn new(font: usize) -> (r: Result<Font, ()>)
        ensures
            r is Err <==> font == 0,
            r matches Ok(f) ==> f.spec_font() == font && f.spec_font() != 0,
    {
        if font == 0 {
            Err(())
        } else {
            Ok(Font { allegro_font: font })
        }
    }

    /// The address of the Allegro font.
    pub fn get_font(&self) -> (r: usize)
        ensures
            r == self.spec_font(),
            r != 0,
    {
        proof {
            use_type_invariant(self);
        }
        self.allegro_font
    }
}

/// The arguments that `grab_font_from_bitmap` hands to
/// `al_grab_font_from_bitmap`: the count it passes (twice the number of
/// ranges, converted to a C `int` as Rust's `as` converts) and the ranges
/// laid out as consecutive `begin, end` integers.
pub fn font_ranges(ranges: &[(i32, i32)]) -> (r: (i32, Vec<i32>))
    ensures
        r.0 == (ranges@.len() * 2) as i32,
        r.1@.len() == ranges@.len() * 2,
        forall|i: int|
            0 <= i < ranges@.len() ==> r.1@[2 * i] == ranges@[i].0 && r.1@[2 * i + 1]
                == ranges@[i].1,
{
    let mut flat: Vec<i32> = Vec::new();
    let mut k: usize = 0;
    while k < ranges.len()
        invariant
            k <= ranges@.len(),
            flat@.len() == 2 * k,
            forall|i: int|
                0 <= i < k ==> flat@[2 * i] == ranges@[i].0 && flat@[2 * i + 1] == ranges@[i].1,
        decreases ranges@.len() - k,
    {
        let (begin, end) = ranges[k];
        flat.push(begin);
        flat.push(end);
        k = k + 1;
    }
    let len: usize = ranges.len();
    let low: usize = len % 0x8000_0000;
    let doubled: u32 = (low * 2) as u32;
    let count: i32 = doubled as i32;
    assert(count == (len * 2) as i32) by (bit_vector)
        requires
            low == len % 0x8000_0000,
            doubled == (low * 2) as u32,
            count == doubled as i32;
    (count, flat)
}

} // verus!
