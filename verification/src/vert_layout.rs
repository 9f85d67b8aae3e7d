//! The vertical-stack layout strategy.
//!
//! Children are offered the space below a running cursor, one z level
//! above the stack; after each placement the cursor advances by the
//! child's height, the tracked width grows to the widest child, and
//! the stack's own minimum hint grows to the accumulated size, so a
//! stack nested in another stack reports a correct natural size.

use vstd::prelude::*;

use crate::hint::Hint;
use crate::layer::LclLayer;
use crate::layout::{child_hint_spec, child_info_ok, compute_child_info, LayoutInfo};
use crate::types::{fits, lz_of, LclPt, LclSz, Pt2D, Sz2D, ZOrder};

verus! {

/// A vertical stack: its layout snapshot, the cursor where the next
/// child goes, and the size accumulated so far.
#[derive(Clone, Copy, Debug, PartialEq)]
pub struct VertLayout {
    pub info: LayoutInfo,
    pub loc: LclPt,
    pub sz: LclSz,
}

impl VertLayout {
    pub fn new(info: LayoutInfo) -> (v: Self)
        ensures
            v.info == info,
            v.loc.x == 0 && v.loc.y == 0,
            v.sz.w == 0 && v.sz.h == 0,
    {
        Self { info, loc: LclPt::zero(), sz: LclSz::zero() }
    }

    /// The stack after a child of layer `l` was placed: the cursor
    /// moves below it, the accumulated size takes it in, and the
    /// minimum hint grows to the accumulated size.
    pub open spec fn advance_spec(self, l: LclLayer) -> VertLayout {
        let nsz = Sz2D {
            w: if self.sz.w > l.r.w {
                self.sz.w
            } else {
                l.r.w
            },
            h: (self.sz.h + l.r.h) as i64,
            ..self.sz
        };
        let nmin = match self.info.hint.min {
            Some(m) => Sz2D {
                w: if m.w > nsz.w {
                    m.w
                } else {
                    nsz.w
                },
                h: if m.h > nsz.h {
                    m.h
                } else {
                    nsz.h
                },
                ..m
            },
            None => nsz,
        };
        VertLayout {
            info: LayoutInfo {
                hint: Hint { min: Some(nmin), ..self.info.hint },
                ..self.info
            },
            loc: Pt2D { y: (self.loc.y + l.r.h) as i64, ..self.loc },
            sz: nsz,
        }
    }

    /// True when advancing past a child of layer `l` stays
    /// representable.
    pub open spec fn advance_ok(self, l: LclLayer) -> bool {
        &&& fits(self.loc.y + l.r.h)
        &&& fits(self.sz.h + l.r.h)
    }

    /// Compute where and how large the next child may be: the space
    /// at the cursor, one z level up.
    pub fn child_info(&mut self, hint: &Hint) -> (r: LayoutInfo)
        requires
            child_info_ok(old(self).info, old(self).loc, lz_of(1)),
        ensures
            *final(self) == *old(self),
            r.ptf.off.x == old(self).loc.x,
            r.ptf.off.y == old(self).loc.y,
            r.ptf.z.z == 1,
            r.gtf.off.x == old(self).loc.x + old(self).info.gtf.off.x,
            r.gtf.off.y == old(self).loc.y + old(self).info.gtf.off.y,
            r.gtf.z.z == 1 + old(self).info.gtf.z.z,
            r.hint == child_hint_spec(old(self).info, old(self).loc, *hint),
            r == crate::layout::child_info_result(old(self).info, old(self).loc, lz_of(1), *hint),
    {
        compute_child_info(&self.info, self.loc, ZOrder::new(1), hint)
    }

    /// Record a placed child and advance the cursor past it.
    pub fn place_layer(&mut self, l: &LclLayer)
        requires
            old(self).advance_ok(*l),
        ensures
            *final(self) == old(self).advance_spec(*l),
    {
        self.loc = LclPt::new(self.loc.x, self.loc.y + l.r.h);
        self.sz = LclSz::new(
            if self.sz.w > l.r.w {
                self.sz.w
            } else {
                l.r.w
            },
            self.sz.h + l.r.h,
        );
        let nmin = match self.info.hint.min {
            Some(m) => m.max(self.sz),
            None => self.sz,
        };
        self.info.hint.min = Some(nmin);
    }
}

} // verus!
