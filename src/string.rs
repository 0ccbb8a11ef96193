//! On-screen labels: alignment, how their size follows the zoom, and the
//! colours derived for them.

use vstd::prelude::*;

use vstd::arithmetic::div_mod::lemma_fundamental_div_mod_converse;

use crate::constants::POINT_NAME_DARKEN;

verus! {

/// Where a label stands horizontally relative to its anchor.
#[derive(Clone, Copy, Debug, PartialEq, Eq, Structural)]
pub enum Alignment {
    Left,
    Right,
    Center,
}

/// How a label's font size reacts to the zoom factor.
#[derive(Clone, Copy, Debug, PartialEq, Eq, Structural)]
pub enum AutoSizeMode {
    /// Constant on-screen size at every zoom.
    Full,
    /// Constant on-screen size when zoomed out; grows with the zoom past 1x.
    OnlySmaller,
    /// Grows and shrinks with the zoom, like the glyph.
    Off,
}

/// Which side of its anchor a label's text sits on vertically.
#[derive(Clone, Copy, Debug, PartialEq, Eq, Structural)]
pub enum VerticalAlignment {
    Top,
    Bottom,
}

/// Whether a label's font size is multiplied by the zoom factor, given
/// whether the view is zoomed in past 1x.
pub open spec fn size_follows_zoom_spec(mode: AutoSizeMode, zoomed_in: bool) -> bool {
    match mode {
        AutoSizeMode::Full => false,
        AutoSizeMode::OnlySmaller => zoomed_in,
        AutoSizeMode::Off => true,
    }
}

/// Decides whether a label's font size is multiplied by the zoom factor;
/// `zoomed_in` says whether the factor exceeds one.
pub fn size_follows_zoom(mode: AutoSizeMode, zoomed_in: bool) -> (r: bool)
    ensures
        r == size_follows_zoom_spec(mode, zoomed_in),
{
    match mode {
        AutoSizeMode::Full => false,
        AutoSizeMode::OnlySmaller => zoomed_in,
        AutoSizeMode::Off => true,
    }
}

/// How far a label's text is shifted left of its anchor, in halves of the
/// text's width: none when left-aligned, half of it when centred, all of it
/// when right-aligned.
pub fn alignment_shift_halves(alignment: Alignment) -> (r: u32)
    ensures
        alignment is Left ==> r == 0,
        alignment is Center ==> r == 1,
        alignment is Right ==> r == 2,
{
    match alignment {
        Alignment::Left => 0,
        Alignment::Center => 1,
        Alignment::Right => 2,
    }
}

/// Byte `i` of a packed ARGB colour, counted from the lowest (blue is 0,
/// alpha is 3).
pub open spec fn channel(color: u32, i: int) -> int {
    (color as int / pow256(i)) % 256
}

/// 256 to the power `i`, for the four channels.
pub open spec fn pow256(i: int) -> int {
    if i <= 0 {
        1
    } else if i == 1 {
        0x100
    } else if i == 2 {
        0x1_0000
    } else {
        0x100_0000
    }
}

proof fn lemma_channels_of_packed(a: int, x: int, y: int, z: int)
    requires
        0 <= a < 256,
        0 <= x < 256,
        0 <= y < 256,
        0 <= z < 256,
    ensures
        ({
            let r = a * 0x100_0000 + x * 0x1_0000 + y * 0x100 + z;
            &&& (r / 1) % 256 == z
            &&& (r / 0x100) % 256 == y
            &&& (r / 0x1_0000) % 256 == x
            &&& (r / 0x100_0000) % 256 == a
        }),
{
    let r = a * 0x100_0000 + x * 0x1_0000 + y * 0x100 + z;
    assert(r / 1 == r);
    lemma_fundamental_div_mod_converse(r, 256, a * 0x1_0000 + x * 0x100 + y, z);
    lemma_fundamental_div_mod_converse(r / 0x100, 256, a * 0x100 + x, y);
    lemma_fundamental_div_mod_converse(r, 0x1_0000, a * 0x100 + x, y * 0x100 + z);
    lemma_fundamental_div_mod_converse(a * 0x100 + x, 256, a, x);
    lemma_fundamental_div_mod_converse(r, 0x100_0000, a, x * 0x1_0000 + y * 0x100 + z);
    lemma_fundamental_div_mod_converse(a, 256, 0, a);
}

/// The colour of a point's name label, derived from its marker colour: the
/// alpha is kept and each of red, green and blue is divided by the darkening
/// factor.
pub fn darken_label_color(fill: u32) -> (r: u32)
    ensures
        channel(r, 3) == channel(fill, 3),
        forall|i: int| 0 <= i < 3 ==> #[trigger] channel(r, i) == channel(fill, i) / POINT_NAME_DARKEN as int,
{
    let a = fill / 0x100_0000;
    let red = (fill / 0x1_0000) % 0x100;
    let green = (fill / 0x100) % 0x100;
    let blue = fill % 0x100;
    let d = POINT_NAME_DARKEN;
    proof {
        lemma_channels_of_packed(a as int, (red / d) as int, (green / d) as int, (blue / d) as int);
        assert(fill as int / 1 == fill as int);
        assert(a < 256);
    }
    a * 0x100_0000 + (red / d) * 0x1_0000 + (green / d) * 0x100 + blue / d
}

} // verus!
