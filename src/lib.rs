//! Rendering decisions for a glyph editor: palettes, point classification and
//! numbering, grid tiling, guideline clipping choices and the layer-compositing
//! plan. Everything here is integer or symbolic logic with proved contracts; the
//! floating-point geometry and the canvas calls live with the caller.

pub mod cache;
pub mod constants;
pub mod glyph;
pub mod grid;
pub mod guidelines;
pub mod points;
pub mod string;
pub mod toggles;
