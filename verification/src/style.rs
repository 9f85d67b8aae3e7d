//! The flat style constants widgets draw with.

use vstd::prelude::*;

use crate::colors::Col;
use crate::types::{LclSz, Sz2D};

verus! {

pub type FontId = u32;

/// Paddings, the font and its size, and the palette.
#[derive(Clone, Copy, Debug, PartialEq)]
pub struct Style {
    pub pad: LclSz,
    pub font: FontId,
    pub font_sz: i64,
    pub dark_col: Col,
    pub light_col: Col,
    pub acc1_col: Col,
    pub acc2_col: Col,
    pub acc3_col: Col,
}

impl Style {
    pub fn new() -> (s: Self)
        ensures
            s.pad.w == 8 && s.pad.h == 8,
            s.font == 0,
            s.font_sz == 12,
            s.dark_col == (Col { r: 7, g: 7, b: 7, a: 255 }),
            s.light_col == (Col { r: 233, g: 241, b: 247, a: 255 }),
            s.acc1_col == (Col { r: 249, g: 220, b: 92, a: 255 }),
            s.acc2_col == (Col { r: 250, g: 130, b: 76, a: 255 }),
            s.acc3_col == (Col { r: 60, g: 145, b: 230, a: 255 }),
    {
        Self {
            pad: Sz2D::new(8, 8),
            font: 0,
            font_sz: 12,
            dark_col: Col::new(7, 7, 7, 255),
            light_col: Col::new(233, 241, 247, 255),
            acc1_col: Col::new(249, 220, 92, 255),
            acc2_col: Col::new(250, 130, 76, 255),
            acc3_col: Col::new(60, 145, 230, 255),
        }
    }
}

impl Default for Style {
    fn default() -> (s: Self)
        ensures
            s.font == 0,
            s.font_sz == 12,
    {
        Self::new()
    }
}

} // verus!
