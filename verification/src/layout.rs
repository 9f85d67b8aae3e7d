//! The size-negotiation protocol.
//!
//! `compute_child_info` turns a parent's resolved hint plus a child
//! slot (offset and z) and the child's own hint into the child's
//! `LayoutInfo`: the transforms into parent and global space and a hint
//! whose requested size is resolved in the child's local space.
//! `natural_layer` gives the size a hint takes with no parent-imposed
//! constraint.

use vstd::prelude::*;

use crate::hint::{Hint, SzOpt};
use crate::layer::{GblTf, LclLayer, PrtLayer, PrtTf};
use crate::types::{fits, LclPt, LclRt, LclSz, LclZ, Sz2D};

verus! {

/// The layout snapshot passed down one level of the widget tree: the
/// transform from this widget's local space to the global space, the
/// transform to its parent's space, and the size hint in force.
#[derive(Clone, Copy, Debug, PartialEq)]
pub struct LayoutInfo {
    pub gtf: GblTf,
    pub ptf: PrtTf,
    pub hint: Hint,
}

impl LayoutInfo {
    /// Identity transforms and a neutral hint.
    pub fn zero() -> (r: Self)
        ensures
            r.gtf.is_identity(),
            r.ptf.is_identity(),
            r.hint.opt.0 == SzOpt::Wrap,
            r.hint.opt.1 == SzOpt::Wrap,
            r.hint.min is None,
            r.hint.max is None,
            r.hint.req is None,
    {
        LayoutInfo { gtf: GblTf::new(LclPt::zero().coerce(), LclZ::zero().coerce()), ptf: PrtTf::new(LclPt::zero().coerce(), LclZ::zero().coerce()), hint: Hint::new() }
    }

    /// Replace the hint, keeping the transforms.
    pub fn hint(self, hint: Hint) -> (r: Self)
        ensures
            r.gtf == self.gtf,
            r.ptf == self.ptf,
            r.hint == hint,
    {
        LayoutInfo { hint, ..self }
    }
}

/// `sz` forced into `[min, max]` for whichever bounds are present, on
/// each axis independently; the lower bound wins over the upper.
pub open spec fn clamp_spec(sz: LclSz, min: Option<LclSz>, max: Option<LclSz>) -> LclSz {
    let lo = match min {
        Some(m) => Sz2D { w: if sz.w > m.w { sz.w } else { m.w }, h: if sz.h > m.h { sz.h } else { m.h }, ..sz },
        None => sz,
    };
    match max {
        Some(m) => Sz2D { w: if lo.w < m.w { lo.w } else { m.w }, h: if lo.h < m.h { lo.h } else { m.h }, ..sz },
        None => lo,
    }
}

fn clamp(sz: LclSz, min: Option<LclSz>, max: Option<LclSz>) -> (r: LclSz)
    ensures
        r == clamp_spec(sz, min, max),
{
    let mut sz = sz;
    if let Some(min) = min {
        sz = min.max(sz);
    }
    if let Some(max) = max {
        sz = max.min(sz);
    }
    sz
}

/// The first of `a`, `b` that is present.
pub open spec fn first_of(a: Option<LclSz>, b: Option<LclSz>) -> Option<LclSz> {
    match a {
        Some(v) => Some(v),
        None => b,
    }
}

/// One axis-independent selection step: the candidate order depends on
/// the sizing option, and whatever is chosen is clamped into
/// `[min, max]`.
pub open spec fn select_sz_spec(
    min: Option<LclSz>,
    max: Option<LclSz>,
    parent_req: Option<LclSz>,
    child_req: Option<LclSz>,
    opt: SzOpt,
) -> Option<LclSz> {
    let sz = match opt {
        SzOpt::Wrap => first_of(min, first_of(child_req, first_of(parent_req, max))),
        SzOpt::Fill => first_of(parent_req, first_of(max, first_of(child_req, min))),
        SzOpt::Exact => first_of(child_req, first_of(min, max)),
    };
    match sz {
        Some(v) => Some(clamp_spec(v, min, max)),
        None => None,
    }
}

/// The first of `a`, `b` that is present.
fn or_sz(a: Option<LclSz>, b: Option<LclSz>) -> (r: Option<LclSz>)
    ensures
        r == first_of(a, b),
{
    match a {
        Some(v) => Some(v),
        None => b,
    }
}

fn select_sz(
    min: Option<LclSz>,
    max: Option<LclSz>,
    parent_req: Option<LclSz>,
    child_req: Option<LclSz>,
    opt: SzOpt,
) -> (r: Option<LclSz>)
    ensures
        r == select_sz_spec(min, max, parent_req, child_req, opt),
{
    let sz = match opt {
        SzOpt::Wrap => or_sz(min, or_sz(child_req, or_sz(parent_req, max))),
        SzOpt::Fill => or_sz(parent_req, or_sz(max, or_sz(child_req, min))),
        SzOpt::Exact => or_sz(child_req, or_sz(min, max)),
    };
    match sz {
        Some(v) => Some(clamp(v, min, max)),
        None => None,
    }
}

/// The two per-axis selections combined: a request exists only when
/// both axes resolved; its width comes from the selection under the
/// horizontal option and its height from the one under the vertical.
pub open spec fn select_sz_2d_spec(
    min: Option<LclSz>,
    max: Option<LclSz>,
    parent_req: Option<LclSz>,
    child_req: Option<LclSz>,
    opt: (SzOpt, SzOpt),
) -> Option<LclSz> {
    let w_sz = select_sz_spec(min, max, parent_req, child_req, opt.0);
    let h_sz = select_sz_spec(min, max, parent_req, child_req, opt.1);
    match (w_sz, h_sz) {
        (Some(w), Some(h)) => Some(Sz2D { w: w.w, h: h.h, ..w }),
        _ => None,
    }
}

fn select_sz_2d(
    min: Option<LclSz>,
    max: Option<LclSz>,
    parent_req: Option<LclSz>,
    child_req: Option<LclSz>,
    opt: (SzOpt, SzOpt),
) -> (r: Option<LclSz>)
    ensures
        r == select_sz_2d_spec(min, max, parent_req, child_req, opt),
{
    let w_sz = select_sz(min, max, parent_req, child_req, opt.0);
    let h_sz = select_sz(min, max, parent_req, child_req, opt.1);
    if let Some(w_sz) = w_sz {
        if let Some(h_sz) = h_sz {
            return Some(LclSz::new(w_sz.w, h_sz.h));
        }
    }
    None
}

/// The parent's maximum size mapped into the child's local units:
/// what is left of it past the child's offset.
pub open spec fn parent_max_in_child(info: LayoutInfo, offset: LclPt) -> Option<LclSz> {
    match info.hint.max {
        Some(v) => Some(Sz2D { w: (v.w - offset.x) as i64, h: (v.h - offset.y) as i64, ..v }),
        None => None,
    }
}

/// The parent's requested size mapped into the child's local units.
pub open spec fn parent_req_in_child(info: LayoutInfo, offset: LclPt) -> Option<LclSz> {
    match info.hint.req {
        Some(v) => Some(Sz2D { w: (v.w - offset.x) as i64, h: (v.h - offset.y) as i64, ..v }),
        None => None,
    }
}

/// The smaller of the child's own maximum and the parent-derived one,
/// component-wise, when both are present.
pub open spec fn combined_max(child_max: Option<LclSz>, pmax: Option<LclSz>) -> Option<LclSz> {
    match (child_max, pmax) {
        (Some(a), Some(b)) => Some(
            Sz2D { w: if a.w < b.w { a.w } else { b.w }, h: if a.h < b.h { a.h } else { b.h }, ..a },
        ),
        (Some(a), None) => Some(a),
        (None, Some(b)) => Some(b),
        (None, None) => None,
    }
}

/// The hint of the child `LayoutInfo` computed by `compute_child_info`.
pub open spec fn child_hint_spec(info: LayoutInfo, offset: LclPt, child: Hint) -> Hint {
    let max = combined_max(child.max, parent_max_in_child(info, offset));
    let parent_req = parent_req_in_child(info, offset);
    Hint {
        opt: child.opt,
        grav: child.grav,
        min: child.min,
        max,
        req: select_sz_2d_spec(child.min, max, parent_req, child.req, child.opt),
    }
}

/// The full `LayoutInfo` value `compute_child_info` returns.
pub open spec fn child_info_result(info: LayoutInfo, offset: LclPt, z: LclZ, child: Hint) -> LayoutInfo {
    LayoutInfo {
        ptf: crate::layer::LayerTf {
            off: crate::types::Pt2D { x: offset.x, y: offset.y, _u: core::marker::PhantomData },
            z: crate::types::ZOrder { z: z.z, _u: core::marker::PhantomData },
            _s: core::marker::PhantomData,
        },
        gtf: crate::layer::LayerTf {
            off: crate::types::Pt2D {
                x: (offset.x + info.gtf.off.x) as i64,
                y: (offset.y + info.gtf.off.y) as i64,
                _u: core::marker::PhantomData,
            },
            z: crate::types::ZOrder { z: (z.z + info.gtf.z.z) as i64, _u: core::marker::PhantomData },
            _s: core::marker::PhantomData,
        },
        hint: child_hint_spec(info, offset, child),
    }
}

/// The conditions under which `compute_child_info` is free of overflow:
/// the slot offset is invertible, the composed global transform stays
/// representable and so do the parent sizes mapped past the offset.
pub open spec fn child_info_ok(info: LayoutInfo, offset: LclPt, z: LclZ) -> bool {
    &&& fits(-offset.x)
    &&& fits(-offset.y)
    &&& fits(-z.z)
    &&& fits(offset.x + info.gtf.off.x)
    &&& fits(offset.y + info.gtf.off.y)
    &&& fits(z.z + info.gtf.z.z)
    &&& match info.hint.max {
        Some(v) => fits(v.w - offset.x) && fits(v.h - offset.y),
        None => true,
    }
    &&& match info.hint.req {
        Some(v) => fits(v.w - offset.x) && fits(v.h - offset.y),
        None => true,
    }
}

/// Compute the `LayoutInfo` for a child placed at `offset` with z shift
/// `z` inside the layout described by `info`, honouring the child's own
/// hint: the parent-to-child transform is built from the slot, the
/// global transform is the composition with the parent's, the available
/// maximum is the tighter of the child's and what is left of the
/// parent's, and the requested size is resolved per axis.
pub fn compute_child_info(info: &LayoutInfo, offset: LclPt, z: LclZ, child: &Hint) -> (r:
    LayoutInfo)
    requires
        child_info_ok(*info, offset, z),
    ensures
        r.ptf.off.x == offset.x,
        r.ptf.off.y == offset.y,
        r.ptf.z.z == z.z,
        r.gtf.off.x == offset.x + info.gtf.off.x,
        r.gtf.off.y == offset.y + info.gtf.off.y,
        r.gtf.z.z == z.z + info.gtf.z.z,
        r.hint == child_hint_spec(*info, offset, *child),
        r == child_info_result(*info, offset, z, *child),
{
    let ptf = PrtTf::new(offset.coerce(), z.coerce());
    let gtf = ptf.concat(&info.gtf.coerce());

    let h = info.hint;
    // What is left of the parent's maximum, as a rectangle at the slot
    // offset, mapped into child-local units (sizes pass through the
    // inverse transform unchanged).
    let pmax = match h.max {
        Some(v) => {
            let rt = LclRt::ptsz(offset, v.sub(offset.to_sz()));
            Some(ptf.inv().rt(rt.coerce()).sz())
        },
        None => None,
    };

    // The tighter of the child's own maximum and the parent-derived one.
    let max = match (child.max, pmax) {
        (Some(a), Some(b)) => Some(a.min(b)),
        (Some(a), None) => Some(a),
        (None, Some(b)) => Some(b),
        (None, None) => None,
    };

    let parent_req = match h.req {
        Some(v) => Some(ptf.inv().sz(v.sub(offset.to_sz()).coerce())),
        None => None,
    };
    let req = select_sz_2d(child.min, max, parent_req, child.req, child.opt);
    LayoutInfo {
        ptf,
        gtf,
        hint: Hint { opt: child.opt, grav: child.grav, min: child.min, max, req },
    }
}

/// The size a hint resolves to with no parent-imposed constraint.
pub open spec fn natural_sz_spec(h: Hint) -> Option<LclSz> {
    select_sz_2d_spec(h.min, h.max, None, h.req, h.opt)
}

fn natural_sz(h: &Hint) -> (r: Option<LclSz>)
    ensures
        r == natural_sz_spec(*h),
{
    select_sz_2d(h.min, h.max, None, h.req, h.opt)
}

/// The natural layer of `h`: its natural size at the local origin with
/// z zero; a hint that resolves to no size gives a zero-sized layer.
pub open spec fn natural_layer_spec(h: Hint) -> LclLayer {
    let sz = match natural_sz_spec(h) {
        Some(sz) => sz,
        None => Sz2D { w: 0, h: 0, _u: core::marker::PhantomData },
    };
    LclLayer {
        r: crate::types::Rt2D { x: 0, y: 0, w: sz.w, h: sz.h, _u: core::marker::PhantomData },
        z: crate::types::ZOrder { z: 0, _u: core::marker::PhantomData },
    }
}

pub fn natural_layer(h: &Hint) -> (r: LclLayer)
    ensures
        r == natural_layer_spec(*h),
{
    match natural_sz(h) {
        Some(sz) => LclLayer::from_sz(sz),
        None => LclLayer::from_sz(LclSz::zero()),
    }
}

/// The natural layer of `info`'s hint, placed into the parent's space
/// through `info.ptf`.
pub fn natural_layer_in_parent(info: &LayoutInfo) -> (r: PrtLayer)
    ensures
        r.r.x == info.ptf.off.x,
        r.r.y == info.ptf.off.y,
        r.r.w == natural_layer_spec(info.hint).r.w,
        r.r.h == natural_layer_spec(info.hint).r.h,
        r.z.z == info.ptf.z.z,
{
    info.ptf.layer(natural_layer(&info.hint))
}

/// With the `Exact` option on both axes and a requested size present,
/// the natural size is exactly that request clamped into the hint's
/// bounds.
pub proof fn lemma_exact_natural_sz(h: Hint)
    requires
        h.opt.0 == SzOpt::Exact,
        h.opt.1 == SzOpt::Exact,
        h.req is Some,
    ensures
        natural_sz_spec(h) == Some(clamp_spec(h.req->Some_0, h.min, h.max)),
{
}

/// With the `Exact` option and no requested size, the natural size
/// falls back to the minimum, else the maximum — the same order `Wrap`
/// uses when nothing but bounds are present.
pub proof fn lemma_exact_fallback(h: Hint)
    requires
        h.opt.0 == SzOpt::Exact,
        h.opt.1 == SzOpt::Exact,
        h.req is None,
    ensures
        natural_sz_spec(h) == select_sz_2d_spec(
            h.min,
            h.max,
            None,
            None,
            (SzOpt::Wrap, SzOpt::Wrap),
        ),
{
}

/// Under the `Wrap` option the candidates rank: minimum beats the
/// hint's own request, which beats the parent-offered size, which
/// beats the maximum — and whichever is chosen is still clamped into
/// the bounds.
pub proof fn lemma_wrap_priority(
    min: Option<LclSz>,
    max: Option<LclSz>,
    parent_req: Option<LclSz>,
    child_req: Option<LclSz>,
)
    ensures
        min is Some ==> select_sz_spec(min, max, parent_req, child_req, SzOpt::Wrap) == Some(
            clamp_spec(min->Some_0, min, max),
        ),
        min is None && child_req is Some ==> select_sz_spec(min, max, parent_req, child_req, SzOpt::Wrap)
            == Some(clamp_spec(child_req->Some_0, min, max)),
        min is None && child_req is None && parent_req is Some ==> select_sz_spec(
            min,
            max,
            parent_req,
            child_req,
            SzOpt::Wrap,
        ) == Some(clamp_spec(parent_req->Some_0, min, max)),
        min is None && child_req is None && parent_req is None && max is Some ==> select_sz_spec(
            min,
            max,
            parent_req,
            child_req,
            SzOpt::Wrap,
        ) == Some(clamp_spec(max->Some_0, min, max)),
        min is None && child_req is None && parent_req is None && max is None ==> select_sz_spec(
            min,
            max,
            parent_req,
            child_req,
            SzOpt::Wrap,
        ) is None,
{
}

} // verus!
