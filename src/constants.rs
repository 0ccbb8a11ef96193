//! Colours of the renderer, as packed ARGB words.

use vstd::prelude::*;

verus! {

pub const OUTLINE_FILL: u32 = 0xff_606060;
pub const OUTLINE_STROKE: u32 = 0xff_101010;
pub const POINT_SQUARE_FILL: u32 = 0xff_00E040;
pub const POINT_SQUARE_STROKE: u32 = 0xff_00B050;
pub const DIRECTION_FILL: u32 = 0xff_00E040;
pub const DIRECTION_STROKE: u32 = 0xff_00B050;
// "One" and "two" refer to the number of Bezier handles.
pub const POINT_ONE_FILL: u32 = 0xff_0000A0;
pub const POINT_ONE_STROKE: u32 = 0xff_2040FF;
pub const POINT_TWO_FILL: u32 = 0xff_579aff;
pub const POINT_TWO_STROKE: u32 = 0xff_2040FF;
pub const HANDLE_FILL: u32 = 0xff_FF10EE;
pub const HANDLE_STROKE: u32 = 0xff_7010FF;
pub const HANDLEBAR_STROKE: u32 = 0xff_707070;
pub const RIB_STROKE: u32 = 0xaa_ff7e7e;

pub const SELECTED_FILL: u32 = 0xff_FF8030;
pub const SELECTED_STROKE: u32 = 0xff_FF6000;
pub const SELECTED_TERTIARY: u32 = 0xff_FF8080;

pub const SELECTED_POINT_SQUARE_FILL: u32 = SELECTED_FILL;
pub const SELECTED_POINT_SQUARE_STROKE: u32 = SELECTED_TERTIARY;
pub const SELECTED_DIRECTION_FILL: u32 = SELECTED_FILL;
pub const SELECTED_DIRECTION_STROKE: u32 = SELECTED_TERTIARY;
pub const SELECTED_POINT_ONE_FILL: u32 = SELECTED_FILL;
pub const SELECTED_POINT_ONE_STROKE: u32 = SELECTED_STROKE;
pub const SELECTED_POINT_TWO_FILL: u32 = SELECTED_STROKE;
pub const SELECTED_POINT_TWO_STROKE: u32 = SELECTED_TERTIARY;
pub const SELECTED_HANDLE_FILL: u32 = 0xff_FFD040;
pub const SELECTED_HANDLE_STROKE: u32 = 0xff_FFC040;
pub const SELECTED_HANDLEBAR_STROKE: u32 = SELECTED_HANDLE_STROKE;

pub const MEASURE_STROKE: u32 = 0xff_FF5050;

pub const GUIDELINE_STROKE: u32 = 0xff_7d7d7d;
pub const LBEARING_STROKE: u32 = 0xff_000000;
pub const RBEARING_STROKE: u32 = LBEARING_STROKE;
pub const BASELINE_STROKE: u32 = LBEARING_STROKE;
pub const GRID_STROKE: u32 = 0x99_007d7d;

pub const UFO_GUIDELINE_STROKE: u32 = 0xaa_7d0000;

pub const BACKGROUND_COLOR: u32 = 0xff_D0D0D0;
// "Paper" is the preview mode.
pub const PAPER_BGCOLOR: u32 = 0xff_F0F0F0;
// The automatic fill of the paper preview.
pub const PAPER_FILL: u32 = 0xff_101010;

pub const ANCHOR_FILL: u32 = 0xff_4080FF;
pub const ANCHOR_STROKE: u32 = 0xff_2040FF;

/// Each colour channel of a point name's label is divided by this.
pub const POINT_NAME_DARKEN: u32 = 2;

pub const COMPONENT_NAME_COLOR: u32 = 0xff_444444;
pub const COMPONENT_NAME_BGCOLOR: u32 = 0x00_ffffff;
pub const DEFAULT_STRING_COLOR: u32 = 0xff_ff0000;
pub const DEFAULT_STRING_BGCOLOR: u32 = 0xaa_ffffff;
pub const ANCHOR_NAME_COLOR: u32 = 0xff_0000BB;
pub const ANCHOR_NAME_BGCOLOR: u32 = 0x00_ffffff;
pub const SELECTED_ANCHOR_COLOR: u32 = 0xff_00ffff;

} // verus!
