//! Text fragments.
//!
//! A fragment is a run of text at a size and position, with a gravity
//! per axis; given its measured size (from the embedding text
//! service) it lays out as a layer whose origin backs off by none,
//! half or all of the extent, per the gravity.

use vstd::prelude::*;

use crate::hint::Grav;
use crate::layer::{Layer, LclLayer};
use crate::types::{fits, LclPt, Pt2D, Rt2D, ZOrder};
use crate::types::LclSz;

verus! {

/// A run of text: its content, gravity, size in logical units, and
/// anchor point in local space.
#[derive(Debug, PartialEq)]
pub struct Frag {
    pub text: String,
    pub grav: (Grav, Grav),
    pub sz: i64,
    pub p: LclPt,
}

/// How far a gravity backs an origin off along an extent: not at all,
/// half of it, or all of it.
pub open spec fn grav_off(g: Grav, extent: int) -> int {
    match g {
        Grav::Begin => 0,
        Grav::Center => extent / 2,
        Grav::End => extent,
    }
}

/// The layer a fragment of measured size `m` occupies.
pub open spec fn frag_layer_spec(f: Frag, m: LclSz) -> LclLayer {
    Layer {
        r: Rt2D {
            x: (f.p.x - grav_off(f.grav.0, m.w as int)) as i64,
            y: (f.p.y - grav_off(f.grav.1, m.h as int)) as i64,
            w: m.w,
            h: m.h,
            _u: core::marker::PhantomData,
        },
        z: ZOrder { z: 0, _u: core::marker::PhantomData },
    }
}

impl Clone for Frag {
    fn clone(&self) -> (r: Self)
        ensures
            r == *self,
    {
        Frag { text: self.text.clone(), grav: self.grav, sz: self.sz, p: self.p }
    }
}

impl Frag {
    pub fn new(text: &str, sz: i64, p: LclPt) -> (f: Self)
        ensures
            f.text@ == text@,
            f.grav.0 == Grav::Begin && f.grav.1 == Grav::Begin,
            f.sz == sz,
            f.p == p,
    {
        Self { text: crate::ident::id_owned(text), grav: (Grav::Begin, Grav::Begin), sz, p }
    }

    pub fn pt(self, p: LclPt) -> (f: Self)
        ensures
            f == (Frag { p, ..self }),
    {
        Self { p, ..self }
    }

    pub fn hgrav(self, g: Grav) -> (f: Self)
        ensures
            f.grav.0 == g && f.grav.1 == self.grav.1,
            f.text == self.text && f.sz == self.sz && f.p == self.p,
    {
        Self { grav: (g, self.grav.1), ..self }
    }

    pub fn vgrav(self, g: Grav) -> (f: Self)
        ensures
            f.grav.0 == self.grav.0 && f.grav.1 == g,
            f.text == self.text && f.sz == self.sz && f.p == self.p,
    {
        Self { grav: (self.grav.0, g), ..self }
    }

    /// The layer this fragment occupies, given its measured size: the
    /// anchor backed off by the gravity's share of each extent.
    pub fn layout(&self, measured: LclSz) -> (l: LclLayer)
        requires
            measured.w >= 0,
            measured.h >= 0,
            fits(self.p.x - measured.w),
            fits(self.p.y - measured.h),
        ensures
            l == frag_layer_spec(*self, measured),
    {
        let xoff: i64 = match self.grav.0 {
            Grav::Begin => 0,
            Grav::Center => measured.w / 2,
            Grav::End => measured.w,
        };
        let yoff: i64 = match self.grav.1 {
            Grav::Begin => 0,
            Grav::Center => measured.h / 2,
            Grav::End => measured.h,
        };
        Layer::new(
            Rt2D::ptsz(Pt2D::new(self.p.x - xoff, self.p.y - yoff), measured),
            ZOrder::new(0),
        )
    }
}

} // verus!
