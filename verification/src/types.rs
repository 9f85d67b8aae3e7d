//! Space-tagged geometric primitives.
//!
//! Every point, size, rectangle and z-order value carries a compile-time
//! space tag so that values from different coordinate frames cannot be
//! mixed by accident. A tag holds no data; crossing a space boundary is
//! done only through an explicit `coerce`, which relabels the value and
//! performs no numeric change. Coordinates are logical units in `i64`.

use core::marker::PhantomData;
use vstd::prelude::*;

verus! {

/// Erased space tag for type-agnostic contexts.
#[derive(Clone, Copy, Debug, PartialEq, Eq, PartialOrd, Ord, Hash, Default)]
pub struct Any;

/// Texture (atlas pixel) space.
#[derive(Clone, Copy, Debug, PartialEq, Eq, PartialOrd, Ord, Hash, Default)]
pub struct TexType;

/// Global (screen) space.
#[derive(Clone, Copy, Debug, PartialEq, Eq, PartialOrd, Ord, Hash, Default)]
pub struct GblType;

/// Space local to the current widget.
#[derive(Clone, Copy, Debug, PartialEq, Eq, PartialOrd, Ord, Hash, Default)]
pub struct LclType;

/// Space of the current widget's parent.
#[derive(Clone, Copy, Debug, PartialEq, Eq, PartialOrd, Ord, Hash, Default)]
pub struct PrtType;

/// True when `v` is representable in `i64`.
pub open spec fn fits(v: int) -> bool {
    i64::MIN <= v <= i64::MAX
}

/// Relies on `core::marker::PhantomData`'s derived `Clone`: the type is a
/// unit, so cloning returns the same (only) value. Needed by the derived
/// `Clone` impls of the tagged types below.
pub assume_specification<T>[ <PhantomData<T> as Clone>::clone ](
    v: &PhantomData<T>,
) -> (r: PhantomData<T>)
    where
        T: core::marker::PointeeSized,
    ensures
        r == *v,
;

/// A point in the space tagged by `U`.
#[derive(Debug, PartialEq, Eq, Hash, Default)]
pub struct Pt2D<U> {
    pub x: i64,
    pub y: i64,
    pub _u: PhantomData<U>,
}

impl<U> Pt2D<U> {
    pub fn new(x: i64, y: i64) -> (r: Self)
        ensures
            r.x == x,
            r.y == y,
    {
        Self { x, y, _u: PhantomData }
    }

    pub fn zero() -> (r: Self)
        ensures
            r.x == 0,
            r.y == 0,
    {
        Self::new(0, 0)
    }

    /// Relabel into another space; the coordinates are unchanged.
    pub fn coerce<V>(&self) -> (r: Pt2D<V>)
        ensures
            r.x == self.x,
            r.y == self.y,
    {
        Pt2D::new(self.x, self.y)
    }

    pub fn to_arr(&self) -> (r: [i64; 2])
        ensures
            r[0] == self.x,
            r[1] == self.y,
    {
        [self.x, self.y]
    }

    pub fn to_sz(&self) -> (r: Sz2D<U>)
        ensures
            r.w == self.x,
            r.h == self.y,
    {
        Sz2D::new(self.x, self.y)
    }

    pub fn as_sz(&self) -> (r: Sz2D<U>)
        ensures
            r.w == self.x,
            r.h == self.y,
    {
        Sz2D::new(self.x, self.y)
    }

    pub fn offset(&self, dx: i64, dy: i64) -> (r: Pt2D<U>)
        requires
            fits(self.x + dx),
            fits(self.y + dy),
        ensures
            r.x == self.x + dx,
            r.y == self.y + dy,
    {
        Pt2D::new(self.x + dx, self.y + dy)
    }

    pub fn add(self, o: Pt2D<U>) -> (r: Pt2D<U>)
        requires
            fits(self.x + o.x),
            fits(self.y + o.y),
        ensures
            r.x == self.x + o.x,
            r.y == self.y + o.y,
    {
        Pt2D::new(self.x + o.x, self.y + o.y)
    }

    pub fn sub(self, o: Pt2D<U>) -> (r: Pt2D<U>)
        requires
            fits(self.x - o.x),
            fits(self.y - o.y),
        ensures
            r.x == self.x - o.x,
            r.y == self.y - o.y,
    {
        Pt2D::new(self.x - o.x, self.y - o.y)
    }

    pub fn neg(self) -> (r: Pt2D<U>)
        requires
            fits(-self.x),
            fits(-self.y),
        ensures
            r.x == -self.x,
            r.y == -self.y,
    {
        Pt2D::new(-self.x, -self.y)
    }
}


impl<U> Clone for Pt2D<U> {
    fn clone(&self) -> (r: Self)
        ensures
            r == *self,
    {
        Pt2D { x: self.x, y: self.y, _u: self._u.clone() }
    }
}

impl<U> Copy for Pt2D<U> {

}

/// A size (width and height) in the space tagged by `U`.
#[derive(Debug, PartialEq, Eq, Hash, Default)]
pub struct Sz2D<U> {
    pub w: i64,
    pub h: i64,
    pub _u: PhantomData<U>,
}

impl<U> Sz2D<U> {
    pub fn new(w: i64, h: i64) -> (r: Self)
        ensures
            r.w == w,
            r.h == h,
    {
        Self { w, h, _u: PhantomData }
    }

    pub fn zero() -> (r: Self)
        ensures
            r.w == 0,
            r.h == 0,
    {
        Self::new(0, 0)
    }

    /// Relabel into another space; the extents are unchanged.
    pub fn coerce<V>(&self) -> (r: Sz2D<V>)
        ensures
            r.w == self.w,
            r.h == self.h,
    {
        Sz2D::new(self.w, self.h)
    }

    pub fn area(&self) -> (r: i64)
        requires
            fits(self.w * self.h),
        ensures
            r == self.w * self.h,
    {
        self.w * self.h
    }

    /// Component-wise minimum.
    pub fn min(self, o: Sz2D<U>) -> (r: Self)
        ensures
            r.w == if self.w < o.w { self.w } else { o.w },
            r.h == if self.h < o.h { self.h } else { o.h },
    {
        Self::new(if self.w < o.w { self.w } else { o.w }, if self.h < o.h { self.h } else { o.h })
    }

    /// Component-wise maximum.
    pub fn max(self, o: Sz2D<U>) -> (r: Self)
        ensures
            r.w == if self.w > o.w { self.w } else { o.w },
            r.h == if self.h > o.h { self.h } else { o.h },
    {
        Self::new(if self.w > o.w { self.w } else { o.w }, if self.h > o.h { self.h } else { o.h })
    }

    pub fn add(self, o: Sz2D<U>) -> (r: Sz2D<U>)
        requires
            fits(self.w + o.w),
            fits(self.h + o.h),
        ensures
            r.w == self.w + o.w,
            r.h == self.h + o.h,
    {
        Sz2D::new(self.w + o.w, self.h + o.h)
    }

    pub fn sub(self, o: Sz2D<U>) -> (r: Sz2D<U>)
        requires
            fits(self.w - o.w),
            fits(self.h - o.h),
        ensures
            r.w == self.w - o.w,
            r.h == self.h - o.h,
    {
        Sz2D::new(self.w - o.w, self.h - o.h)
    }
}


impl<U> Clone for Sz2D<U> {
    fn clone(&self) -> (r: Self)
        ensures
            r == *self,
    {
        Sz2D { w: self.w, h: self.h, _u: self._u.clone() }
    }
}

impl<U> Copy for Sz2D<U> {

}

/// A rectangle (top-left corner plus size) in the space tagged by `U`.
#[derive(Debug, PartialEq, Eq, Hash, Default)]
pub struct Rt2D<U> {
    pub x: i64,
    pub y: i64,
    pub w: i64,
    pub h: i64,
    pub _u: PhantomData<U>,
}

impl<U> Rt2D<U> {
    pub fn new(x: i64, y: i64, w: i64, h: i64) -> (r: Self)
        ensures
            r.x == x,
            r.y == y,
            r.w == w,
            r.h == h,
    {
        Self { x, y, w, h, _u: PhantomData }
    }

    pub fn ptsz(p: Pt2D<U>, sz: Sz2D<U>) -> (r: Self)
        ensures
            r.x == p.x,
            r.y == p.y,
            r.w == sz.w,
            r.h == sz.h,
    {
        Self::new(p.x, p.y, sz.w, sz.h)
    }

    pub fn from_sz(sz: Sz2D<U>) -> (r: Self)
        ensures
            r.x == 0,
            r.y == 0,
            r.w == sz.w,
            r.h == sz.h,
    {
        Self::new(0, 0, sz.w, sz.h)
    }

    pub fn zero() -> (r: Self)
        ensures
            r.x == 0,
            r.y == 0,
            r.w == 0,
            r.h == 0,
    {
        Self::new(0, 0, 0, 0)
    }

    /// Relabel into another space; the coordinates are unchanged.
    pub fn coerce<V>(&self) -> (r: Rt2D<V>)
        ensures
            r.x == self.x,
            r.y == self.y,
            r.w == self.w,
            r.h == self.h,
    {
        Rt2D::new(self.x, self.y, self.w, self.h)
    }

    /// Bottom edge.
    pub fn b(&self) -> (r: i64)
        requires
            fits(self.y + self.h),
        ensures
            r == self.y + self.h,
    {
        self.y + self.h
    }

    /// Right edge.
    pub fn r(&self) -> (r: i64)
        requires
            fits(self.x + self.w),
        ensures
            r == self.x + self.w,
    {
        self.x + self.w
    }

    pub fn bl(&self) -> (r: Pt2D<U>)
        requires
            fits(self.y + self.h),
        ensures
            r.x == self.x,
            r.y == self.y + self.h,
    {
        Pt2D::new(self.x, self.b())
    }

    pub fn br(&self) -> (r: Pt2D<U>)
        requires
            fits(self.x + self.w),
            fits(self.y + self.h),
        ensures
            r.x == self.x + self.w,
            r.y == self.y + self.h,
    {
        Pt2D::new(self.r(), self.b())
    }

    pub fn tl(&self) -> (r: Pt2D<U>)
        ensures
            r.x == self.x,
            r.y == self.y,
    {
        Pt2D::new(self.x, self.y)
    }

    pub fn tr(&self) -> (r: Pt2D<U>)
        requires
            fits(self.x + self.w),
        ensures
            r.x == self.x + self.w,
            r.y == self.y,
    {
        Pt2D::new(self.r(), self.y)
    }

    pub fn sz(&self) -> (r: Sz2D<U>)
        ensures
            r.w == self.w,
            r.h == self.h,
    {
        Sz2D::new(self.w, self.h)
    }

    pub fn center(&self) -> (r: Pt2D<U>)
        requires
            self.w >= 0,
            self.h >= 0,
            fits(self.x + self.w / 2),
            fits(self.y + self.h / 2),
        ensures
            r.x == self.x + self.w / 2,
            r.y == self.y + self.h / 2,
    {
        Pt2D::new(self.x + self.w / 2, self.y + self.h / 2)
    }

    pub fn with_sz(&self, sz: Sz2D<U>) -> (r: Rt2D<U>)
        ensures
            r.x == self.x,
            r.y == self.y,
            r.w == sz.w,
            r.h == sz.h,
    {
        Rt2D::ptsz(self.tl(), sz)
    }

    /// The conditions under which `inset_xy` by `(dx, dy)` is meaningful
    /// and free of overflow: the moved origin and the grown or shrunk
    /// extents stay representable, and an extent that is consumed whole
    /// was not negative to begin with.
    pub open spec fn inset_ok(self, dx: int, dy: int) -> bool {
        &&& fits(2 * dx)
        &&& fits(2 * dy)
        &&& fits(self.x + self.w)
        &&& fits(self.y + self.h)
        &&& 2 * dx < self.w ==> fits(self.x + dx) && fits(self.w - 2 * dx)
        &&& 2 * dy < self.h ==> fits(self.y + dy) && fits(self.h - 2 * dy)
        &&& 2 * dx >= self.w ==> self.w >= 0
        &&& 2 * dy >= self.h ==> self.h >= 0
    }

    /// Shrink symmetrically by `d` per side (grow, for a negative `d`),
    /// but never below a zero extent.
    pub fn inset(&self, d: Sz2D<U>) -> (r: Rt2D<U>)
        requires
            self.inset_ok(d.w as int, d.h as int),
        ensures
            r == self.inset_xy_spec(d.w as int, d.h as int),
    {
        self.inset_xy(d.w, d.h)
    }

    /// The result of `inset_xy`: each extent loses `2 * d` units, clamped
    /// so that it cannot become negative, and the origin moves by the
    /// half of what was removed.
    pub open spec fn inset_xy_spec(self, dx: int, dy: int) -> Rt2D<U> {
        let wsub = if 2 * dx < self.w { 2 * dx } else { self.w as int };
        let hsub = if 2 * dy < self.h { 2 * dy } else { self.h as int };
        Rt2D {
            x: (self.x + wsub / 2) as i64,
            y: (self.y + hsub / 2) as i64,
            w: (self.w - wsub) as i64,
            h: (self.h - hsub) as i64,
            _u: self._u,
        }
    }

    pub fn inset_xy(&self, dx: i64, dy: i64) -> (r: Rt2D<U>)
        requires
            self.inset_ok(dx as int, dy as int),
        ensures
            r == self.inset_xy_spec(dx as int, dy as int),
    {
        let (nx, nw): (i64, i64) = if 2 * dx < self.w {
            (self.x + dx, self.w - 2 * dx)
        } else {
            (self.x + self.w / 2, 0)
        };
        let (ny, nh): (i64, i64) = if 2 * dy < self.h {
            (self.y + dy, self.h - 2 * dy)
        } else {
            (self.y + self.h / 2, 0)
        };
        Rt2D::new(nx, ny, nw, nh)
    }

    /// True when `p` lies in the closed rectangle, borders included.
    pub open spec fn contains_spec(self, p: Pt2D<U>) -> bool {
        &&& p.x >= self.x
        &&& p.y >= self.y
        &&& p.x <= self.x + self.w
        &&& p.y <= self.y + self.h
    }

    pub fn contains(&self, p: Pt2D<U>) -> (r: bool)
        requires
            fits(self.x + self.w),
            fits(self.y + self.h),
        ensures
            r == self.contains_spec(p),
    {
        p.x >= self.x && p.y >= self.y && p.x <= self.r() && p.y <= self.b()
    }

    pub fn add_pt(self, o: Pt2D<U>) -> (r: Rt2D<U>)
        requires
            fits(self.x + o.x),
            fits(self.y + o.y),
        ensures
            r.x == self.x + o.x,
            r.y == self.y + o.y,
            r.w == self.w,
            r.h == self.h,
    {
        Rt2D::new(self.x + o.x, self.y + o.y, self.w, self.h)
    }

    pub fn add(self, o: Rt2D<U>) -> (r: Rt2D<U>)
        requires
            fits(self.x + o.x),
            fits(self.y + o.y),
            fits(self.w + o.w),
            fits(self.h + o.h),
        ensures
            r.x == self.x + o.x,
            r.y == self.y + o.y,
            r.w == self.w + o.w,
            r.h == self.h + o.h,
    {
        Rt2D::new(self.x + o.x, self.y + o.y, self.w + o.w, self.h + o.h)
    }

    pub fn sub(self, o: Rt2D<U>) -> (r: Rt2D<U>)
        requires
            fits(self.x - o.x),
            fits(self.y - o.y),
            fits(self.w - o.w),
            fits(self.h - o.h),
        ensures
            r.x == self.x - o.x,
            r.y == self.y - o.y,
            r.w == self.w - o.w,
            r.h == self.h - o.h,
    {
        Rt2D::new(self.x - o.x, self.y - o.y, self.w - o.w, self.h - o.h)
    }
}


impl<U> Clone for Rt2D<U> {
    fn clone(&self) -> (r: Self)
        ensures
            r == *self,
    {
        Rt2D { x: self.x, y: self.y, w: self.w, h: self.h, _u: self._u.clone() }
    }
}

impl<U> Copy for Rt2D<U> {

}

/// A signed paint-order value in the space tagged by `U`; composition
/// across spaces is addition.
#[derive(Debug, PartialEq, Eq, Hash, Default)]
pub struct ZOrder<U> {
    pub z: i64,
    pub _u: PhantomData<U>,
}

impl<U> ZOrder<U> {
    pub fn new(z: i64) -> (r: Self)
        ensures
            r.z == z,
    {
        Self { z, _u: PhantomData }
    }

    pub fn zero() -> (r: Self)
        ensures
            r.z == 0,
    {
        Self::new(0)
    }

    /// Relabel into another space; the value is unchanged.
    pub fn coerce<V>(&self) -> (r: ZOrder<V>)
        ensures
            r.z == self.z,
    {
        ZOrder::new(self.z)
    }

    pub fn add(self, o: ZOrder<U>) -> (r: ZOrder<U>)
        requires
            fits(self.z + o.z),
        ensures
            r.z == self.z + o.z,
    {
        ZOrder::new(self.z + o.z)
    }

    pub fn sub(self, o: ZOrder<U>) -> (r: ZOrder<U>)
        requires
            fits(self.z - o.z),
        ensures
            r.z == self.z - o.z,
    {
        ZOrder::new(self.z - o.z)
    }
}


impl<U> Clone for ZOrder<U> {
    fn clone(&self) -> (r: Self)
        ensures
            r == *self,
    {
        ZOrder { z: self.z, _u: self._u.clone() }
    }
}

impl<U> Copy for ZOrder<U> {

}

pub type TexRt = Rt2D<TexType>;

pub type TexPt = Pt2D<TexType>;

pub type TexSz = Sz2D<TexType>;

pub type GblRt = Rt2D<GblType>;

pub type GblPt = Pt2D<GblType>;

pub type GblSz = Sz2D<GblType>;

pub type GblZ = ZOrder<GblType>;

pub type LclRt = Rt2D<LclType>;

pub type LclPt = Pt2D<LclType>;

pub type LclSz = Sz2D<LclType>;

pub type LclZ = ZOrder<LclType>;

pub type PrtRt = Rt2D<PrtType>;

pub type PrtPt = Pt2D<PrtType>;

pub type PrtSz = Sz2D<PrtType>;

pub type PrtZ = ZOrder<PrtType>;

pub type Rt = Rt2D<Any>;

pub type Pt = Pt2D<Any>;

pub type Sz = Sz2D<Any>;


/// A local z-order, as a spec value.
pub open spec fn lz_of(z: int) -> LclZ {
    ZOrder { z: z as i64, _u: PhantomData }
}

pub fn lrt(x: i64, y: i64, w: i64, h: i64) -> (r: LclRt)
    ensures
        r.x == x && r.y == y && r.w == w && r.h == h,
{
    Rt2D::new(x, y, w, h)
}

pub fn lpt(x: i64, y: i64) -> (r: LclPt)
    ensures
        r.x == x && r.y == y,
{
    Pt2D::new(x, y)
}

pub fn lsz(w: i64, h: i64) -> (r: LclSz)
    ensures
        r.w == w && r.h == h,
{
    Sz2D::new(w, h)
}

pub fn lz(z: i64) -> (r: LclZ)
    ensures
        r.z == z,
{
    ZOrder::new(z)
}

pub fn grt(x: i64, y: i64, w: i64, h: i64) -> (r: GblRt)
    ensures
        r.x == x && r.y == y && r.w == w && r.h == h,
{
    Rt2D::new(x, y, w, h)
}

pub fn gpt(x: i64, y: i64) -> (r: GblPt)
    ensures
        r.x == x && r.y == y,
{
    Pt2D::new(x, y)
}

pub fn gsz(w: i64, h: i64) -> (r: GblSz)
    ensures
        r.w == w && r.h == h,
{
    Sz2D::new(w, h)
}

pub fn trt(x: i64, y: i64, w: i64, h: i64) -> (r: TexRt)
    ensures
        r.x == x && r.y == y && r.w == w && r.h == h,
{
    Rt2D::new(x, y, w, h)
}

pub fn tpt(x: i64, y: i64) -> (r: TexPt)
    ensures
        r.x == x && r.y == y,
{
    Pt2D::new(x, y)
}

pub fn tsz(w: i64, h: i64) -> (r: TexSz)
    ensures
        r.w == w && r.h == h,
{
    Sz2D::new(w, h)
}

pub fn rt(x: i64, y: i64, w: i64, h: i64) -> (r: Rt)
    ensures
        r.x == x && r.y == y && r.w == w && r.h == h,
{
    Rt2D::new(x, y, w, h)
}

pub fn pt(x: i64, y: i64) -> (r: Pt)
    ensures
        r.x == x && r.y == y,
{
    Pt2D::new(x, y)
}

/// Z-order used to paint above everything else in a widget tree.
pub const MAX_Z: i64 = 100000000;

} // verus!
