//! Layers and the transforms between adjacent coordinate spaces.
//!
//! A `Layer` is the fundamental placed-geometry unit: a rectangle plus a
//! z-order. A `LayerTf<S, T>` maps values of space `S` into space `T`; it
//! is a pure translation (an offset point plus a z delta), so sizes pass
//! through unchanged and z composition is addition. Transforms compose
//! (`concat`) and invert (`inv`) exactly over integer coordinates.

use core::marker::PhantomData;
use vstd::prelude::*;

use crate::types::{fits, GblType, LclType, PrtType, Pt2D, Rt2D, Sz2D, ZOrder};

verus! {

/// A rectangle plus a paint-order value, in the space tagged by `U`.
#[derive(Debug, PartialEq, Eq, Hash, Default)]
pub struct Layer<U> {
    pub r: Rt2D<U>,
    pub z: ZOrder<U>,
}

impl<U> Layer<U> {
    pub fn new(r: Rt2D<U>, z: ZOrder<U>) -> (l: Self)
        ensures
            l.r == r,
            l.z == z,
    {
        Self { r, z }
    }

    /// Relabel into another space; the geometry is unchanged.
    pub fn coerce<V>(&self) -> (l: Layer<V>)
        ensures
            l.r.x == self.r.x,
            l.r.y == self.r.y,
            l.r.w == self.r.w,
            l.r.h == self.r.h,
            l.z.z == self.z.z,
    {
        Layer::new(self.r.coerce(), self.z.coerce())
    }

    pub fn from_sz(sz: Sz2D<U>) -> (l: Self)
        ensures
            l.r.x == 0,
            l.r.y == 0,
            l.r.w == sz.w,
            l.r.h == sz.h,
            l.z.z == 0,
    {
        Self::new(Rt2D::from_sz(sz), ZOrder::zero())
    }

    pub fn contains(&self, p: Pt2D<U>) -> (r: bool)
        requires
            fits(self.r.x + self.r.w),
            fits(self.r.y + self.r.h),
        ensures
            r == self.r.contains_spec(p),
    {
        self.r.contains(p)
    }

    /// Shrink the rectangle symmetrically by `d` per side (grow, for a
    /// negative `d`); the z-order is kept.
    pub fn inset(&self, d: Sz2D<U>) -> (l: Self)
        requires
            self.r.inset_ok(d.w as int, d.h as int),
        ensures
            l.r == self.r.inset_xy_spec(d.w as int, d.h as int),
            l.z == self.z,
    {
        Self::new(self.r.inset(d), self.z)
    }
}


impl<U> Clone for Layer<U> {
    fn clone(&self) -> (r: Self)
        ensures
            r == *self,
    {
        Layer { r: self.r, z: self.z }
    }
}

impl<U> Copy for Layer<U> {

}

/// A transform from space `S` into space `T`: a translation by `off`
/// plus a z-order shift by `z`.
#[derive(Debug, PartialEq, Eq, Hash, Default)]
pub struct LayerTf<S, T> {
    pub off: Pt2D<T>,
    pub z: ZOrder<T>,
    pub _s: PhantomData<S>,
}


impl<S, T> Clone for LayerTf<S, T> {
    fn clone(&self) -> (r: Self)
        ensures
            r == *self,
    {
        LayerTf { off: self.off, z: self.z, _s: self._s.clone() }
    }
}

impl<S, T> Copy for LayerTf<S, T> {

}

impl<S, T> LayerTf<S, T> {
    pub fn new(off: Pt2D<T>, z: ZOrder<T>) -> (tf: Self)
        ensures
            tf.off == off,
            tf.z == z,
    {
        Self { off, z, _s: PhantomData }
    }

    /// The composition of `self` (from `S` into `T`) with `o` (from `T`
    /// into `U`): offsets and z deltas add.
    pub open spec fn concat_spec<U>(self, o: LayerTf<T, U>) -> LayerTf<S, U> {
        LayerTf {
            off: Pt2D {
                x: (self.off.x + o.off.x) as i64,
                y: (self.off.y + o.off.y) as i64,
                _u: o.off._u,
            },
            z: ZOrder { z: (self.z.z + o.z.z) as i64, _u: o.z._u },
            _s: PhantomData,
        }
    }

    /// True when composing with `o` stays representable.
    pub open spec fn concat_ok<U>(self, o: LayerTf<T, U>) -> bool {
        &&& fits(self.off.x + o.off.x)
        &&& fits(self.off.y + o.off.y)
        &&& fits(self.z.z + o.z.z)
    }

    pub fn concat<U>(&self, tf: &LayerTf<T, U>) -> (r: LayerTf<S, U>)
        requires
            self.concat_ok(*tf),
        ensures
            r == self.concat_spec(*tf),
    {
        LayerTf::new(self.off.coerce().add(tf.off), tf.z_of(self.z))
    }

    /// Relabel the endpoint spaces; the offset and z delta are unchanged.
    pub fn coerce<U, V>(&self) -> (r: LayerTf<U, V>)
        ensures
            r.off.x == self.off.x,
            r.off.y == self.off.y,
            r.z.z == self.z.z,
    {
        LayerTf::new(self.off.coerce(), self.z.coerce())
    }

    /// The inverse translation: negated offset and z delta.
    pub open spec fn inv_spec(self) -> LayerTf<T, S> {
        LayerTf {
            off: Pt2D { x: (-self.off.x) as i64, y: (-self.off.y) as i64, _u: PhantomData },
            z: ZOrder { z: (-self.z.z) as i64, _u: PhantomData },
            _s: PhantomData,
        }
    }

    /// True when the inverse stays representable.
    pub open spec fn inv_ok(self) -> bool {
        &&& fits(-self.off.x)
        &&& fits(-self.off.y)
        &&& fits(-self.z.z)
    }

    pub fn inv(&self) -> (r: LayerTf<T, S>)
        requires
            self.inv_ok(),
        ensures
            r == self.inv_spec(),
    {
        LayerTf::new(self.off.coerce().neg(), ZOrder::new(-self.z.z))
    }

    /// True when this transform holds no translation and no z shift.
    pub open spec fn is_identity(self) -> bool {
        self.off.x == 0 && self.off.y == 0 && self.z.z == 0
    }

    pub fn pt(&self, p: Pt2D<S>) -> (r: Pt2D<T>)
        requires
            fits(p.x + self.off.x),
            fits(p.y + self.off.y),
        ensures
            r.x == p.x + self.off.x,
            r.y == p.y + self.off.y,
    {
        Pt2D::new(p.x + self.off.x, p.y + self.off.y)
    }

    /// Sizes are translation-invariant: they pass through unchanged.
    pub fn sz(&self, sz: Sz2D<S>) -> (r: Sz2D<T>)
        ensures
            r.w == sz.w,
            r.h == sz.h,
    {
        Sz2D::new(sz.w, sz.h)
    }

    /// A rectangle is transformed by translating its top-left corner and
    /// passing its size through unchanged.
    pub fn rt(&self, r: Rt2D<S>) -> (o: Rt2D<T>)
        requires
            fits(r.x + self.off.x),
            fits(r.y + self.off.y),
        ensures
            o.x == r.x + self.off.x,
            o.y == r.y + self.off.y,
            o.w == r.w,
            o.h == r.h,
    {
        Rt2D::ptsz(self.pt(r.tl()), self.sz(r.sz()))
    }

    /// Z composition is addition.
    pub fn z_of(&self, z: ZOrder<S>) -> (r: ZOrder<T>)
        requires
            fits(self.z.z + z.z),
        ensures
            r.z == self.z.z + z.z,
    {
        self.z.add(z.coerce())
    }

    pub fn layer(&self, l: Layer<S>) -> (r: Layer<T>)
        requires
            fits(l.r.x + self.off.x),
            fits(l.r.y + self.off.y),
            fits(self.z.z + l.z.z),
        ensures
            r.r.x == l.r.x + self.off.x,
            r.r.y == l.r.y + self.off.y,
            r.r.w == l.r.w,
            r.r.h == l.r.h,
            r.z.z == self.z.z + l.z.z,
    {
        Layer::new(self.rt(l.r), self.z_of(l.z))
    }
}

/// A transform composed with its inverse is the identity transform:
/// zero offset and zero z shift, exactly, since coordinates are integers.
pub proof fn lemma_inv_is_inverse<S, T>(t: LayerTf<S, T>)
    requires
        t.inv_ok(),
    ensures
        t.concat_spec(t.inv_spec()).is_identity(),
        t.inv_spec().concat_spec(t).is_identity(),
{
}

/// Transform composition is associative.
pub proof fn lemma_concat_assoc<S, T, U, V>(a: LayerTf<S, T>, b: LayerTf<T, U>, c: LayerTf<U, V>)
    requires
        a.concat_ok(b),
        b.concat_ok(c),
        fits(a.off.x + b.off.x + c.off.x),
        fits(a.off.y + b.off.y + c.off.y),
        fits(a.z.z + b.z.z + c.z.z),
    ensures
        a.concat_spec(b).concat_spec(c) == a.concat_spec(b.concat_spec(c)),
{
}

pub type GblLayer = Layer<GblType>;

pub type PrtLayer = Layer<PrtType>;

pub type LclLayer = Layer<LclType>;

pub type PrtTf = LayerTf<LclType, PrtType>;

pub type GblTf = LayerTf<LclType, GblType>;

} // verus!
