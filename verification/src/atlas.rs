//! Texture-atlas packing, used by the glyph cache.
//!
//! The packer fills a fixed bin row by row: requests go side by side
//! until the row is full, then a new row opens below the tallest
//! rectangle of the finished one. Every granted rectangle lies inside
//! the bin and overlaps no earlier grant; once a request fits neither
//! the current row nor a fresh one, the packer says so deterministically.

use vstd::prelude::*;

use crate::colors::Col;
use crate::texture::{TexId, TexStore, TextureLayer};
use crate::types::{fits, GblRt, Pt2D, Rt2D, TexPt, TexRt, TexSz};

verus! {

/// Side length of the texture each atlas starts with.
pub const ATLAS_SIZE: i64 = 2048;

/// Padding pixels kept around each allocation on every side.
pub const PAD: i64 = 1;

/// Two rectangles share no interior point.
pub open spec fn disjoint(a: TexRt, b: TexRt) -> bool {
    ||| a.x + a.w <= b.x
    ||| b.x + b.w <= a.x
    ||| a.y + a.h <= b.y
    ||| b.y + b.h <= a.y
}

/// `r` lies inside a bin of size `sz` and has non-negative extents.
pub open spec fn in_bin(r: TexRt, sz: TexSz) -> bool {
    &&& 0 <= r.x && 0 <= r.y
    &&& 0 <= r.w && 0 <= r.h
    &&& r.x + r.w <= sz.w
    &&& r.y + r.h <= sz.h
}

/// A row packer over a fixed bin: `cur` is the write cursor, `maxh`
/// the tallest rectangle of the current row, and `hist` the rectangles
/// granted so far.
pub struct Packer {
    pub sz: TexSz,
    pub cur: TexPt,
    pub maxh: i64,
    pub hist: Ghost<Seq<TexRt>>,
}

impl Packer {
    /// The packer's invariant: the cursor and row height stay inside
    /// the bin; every granted rectangle lies in the bin, is pairwise
    /// disjoint from the others, and sits either in a finished row
    /// (wholly above the cursor row) or in the current row (at the
    /// cursor's y, left of the cursor, no taller than the row).
    pub open spec fn wf(self) -> bool {
        &&& 0 <= self.cur.x && 0 <= self.cur.y && 0 <= self.maxh
        &&& 0 <= self.sz.w && 0 <= self.sz.h
        &&& self.cur.x <= self.sz.w
        &&& self.cur.y + self.maxh <= self.sz.h
        &&& forall|k: int| 0 <= k < self.hist@.len() ==> in_bin(#[trigger] self.hist@[k], self.sz)
        &&& forall|k: int|
            0 <= k < self.hist@.len() ==> {
                let r = #[trigger] self.hist@[k];
                r.y + r.h <= self.cur.y || (r.y == self.cur.y && r.x + r.w <= self.cur.x && r.h
                    <= self.maxh)
            }
        &&& forall|k: int, l: int|
            0 <= k < l < self.hist@.len() ==> disjoint(
                #[trigger] self.hist@[k],
                #[trigger] self.hist@[l],
            )
    }

    /// Whether a request of size `sz` fits beside the cursor in the
    /// current row.
    pub open spec fn fits_row(self, sz: TexSz) -> bool {
        self.cur.x + sz.w <= self.sz.w && self.cur.y + sz.h <= self.sz.h
    }

    /// Whether a request of size `sz` fits in a fresh row below the
    /// current one.
    pub open spec fn fits_column(self, sz: TexSz) -> bool {
        sz.w <= self.sz.w && self.cur.y + self.maxh + sz.h <= self.sz.h
    }

    /// A packer over an empty bin of size `s`.
    pub fn new(s: TexSz) -> (p: Self)
        requires
            s.w >= 0,
            s.h >= 0,
        ensures
            p.wf(),
            p.sz == s,
            p.cur.x == 0 && p.cur.y == 0,
            p.maxh == 0,
            p.hist@.len() == 0,
    {
        Self { sz: s, cur: TexPt::new(0, 0), maxh: 0, hist: Ghost(Seq::empty()) }
    }

    /// Grant a rectangle of size `sz`: beside the cursor when the row
    /// still has room, else at the left edge of a fresh row, else
    /// nothing — exactly when neither fits. A grant lies in the bin
    /// and overlaps no earlier one.
    pub fn pack(&mut self, sz: TexSz) -> (r: Option<TexRt>)
        requires
            old(self).wf(),
            sz.w >= 0,
            sz.h >= 0,
            fits(old(self).cur.x + sz.w),
            fits(old(self).cur.y + sz.h),
            fits(old(self).cur.y + old(self).maxh + sz.h),
        ensures
            final(self).wf(),
            final(self).sz == old(self).sz,
            r is Some <==> old(self).fits_row(sz) || old(self).fits_column(sz),
            match r {
                Some(rect) => {
                    &&& rect.w == sz.w && rect.h == sz.h
                    &&& in_bin(rect, old(self).sz)
                    &&& forall|k: int|
                        0 <= k < old(self).hist@.len() ==> disjoint(
                            rect,
                            #[trigger] old(self).hist@[k],
                        )
                    &&& final(self).hist@ == old(self).hist@.push(rect)
                    &&& final(self).cur == (if old(self).fits_row(sz) {
                        TexPt { x: (old(self).cur.x + sz.w) as i64, ..old(self).cur }
                    } else {
                        TexPt {
                            x: sz.w,
                            y: (old(self).cur.y + old(self).maxh) as i64,
                            ..old(self).cur
                        }
                    })
                    &&& final(self).maxh == (if old(self).fits_row(sz) {
                        if old(self).maxh > sz.h {
                            old(self).maxh
                        } else {
                            sz.h
                        }
                    } else {
                        sz.h
                    })
                    &&& rect == if old(self).fits_row(sz) {
                        Rt2D {
                            x: old(self).cur.x,
                            y: old(self).cur.y,
                            w: sz.w,
                            h: sz.h,
                            _u: rect._u,
                        }
                    } else {
                        Rt2D {
                            x: 0,
                            y: (old(self).cur.y + old(self).maxh) as i64,
                            w: sz.w,
                            h: sz.h,
                            _u: rect._u,
                        }
                    }
                },
                None => *final(self) == *old(self),
            },
    {
        if self.cur.x + sz.w <= self.sz.w && self.cur.y + sz.h <= self.sz.h {
            // Pack into the current row.
            let r = TexRt::ptsz(self.cur, sz);
            self.cur = TexPt::new(self.cur.x + sz.w, self.cur.y);
            self.maxh = if self.maxh > sz.h {
                self.maxh
            } else {
                sz.h
            };
            self.hist = Ghost(self.hist@.push(r));
            Some(r)
        } else if sz.w <= self.sz.w && self.cur.y + self.maxh + sz.h <= self.sz.h {
            // Open a fresh row below the tallest rectangle of this one.
            let y = self.cur.y + self.maxh;
            let r = TexRt::new(0, y, sz.w, sz.h);
            self.cur = TexPt::new(sz.w, y);
            self.maxh = sz.h;
            self.hist = Ghost(self.hist@.push(r));
            Some(r)
        } else {
            None
        }
    }
}

/// What the packer's invariant promises of its grants: all inside the
/// bin, with non-negative extents, and pairwise non-overlapping.
pub proof fn lemma_packer_grants(p: Packer)
    requires
        p.wf(),
    ensures
        forall|k: int| 0 <= k < p.hist@.len() ==> in_bin(#[trigger] p.hist@[k], p.sz),
        forall|k: int, l: int|
            0 <= k < l < p.hist@.len() ==> disjoint(#[trigger] p.hist@[k], #[trigger] p.hist@[l]),
{
}

pub type AtlasHandle = i32;

/// Why an allocation was refused: an empty request, or a bin with no
/// room left for it.
#[derive(Clone, Copy, Debug, PartialEq, Eq)]
pub enum AtlasError {
    EmptySize,
    Full,
}

impl AtlasError {
    /// A short description, for the embedding program's logs.
    pub fn msg(&self) -> (r: &'static str)
        ensures
            *self is EmptySize ==> r@ == "cannot pack an empty size"@,
            *self is Full ==> r@ == "atlas is full"@,
    {
        match self {
            AtlasError::EmptySize => "cannot pack an empty size",
            AtlasError::Full => "atlas is full",
        }
    }
}

/// A glyph atlas: one packer over one texture, with a handle table of
/// the granted (padded) rectangles.
pub struct Atlas {
    pub p: Packer,
    pub tex: TexId,
    pub hnds: Vec<TexRt>,
    pub used_area: i64,
}

impl Atlas {
    /// Well-formed: the packer is, the handle table mirrors its grant
    /// history, and the area tally is a non-negative tally.
    pub open spec fn wf(self) -> bool {
        &&& self.p.wf()
        &&& self.p.sz.w < i64::MAX && self.p.sz.h < i64::MAX
        &&& self.hnds@ == self.p.hist@
        &&& self.used_area >= 0
    }

    /// A fresh atlas over a new texture of the default size.
    pub fn new(ts: &mut TexStore) -> (a: Self)
        requires
            old(ts).wf(),
            old(ts).texs@.len() + 1 < usize::MAX,
        ensures
            final(ts).wf(),
            a.wf(),
            a.hnds@.len() == 0,
            a.p.sz.w == ATLAS_SIZE && a.p.sz.h == ATLAS_SIZE,
            a.tex == old(ts).last_id,
            final(ts).texs@.len() == old(ts).texs@.len() + 1,
            final(ts).texs@[a.tex - 1].sz == a.p.sz,
    {
        let sz = TexSz::new(ATLAS_SIZE, ATLAS_SIZE);
        let p = Packer::new(sz);
        let tex = ts.insert(sz);
        let hnds: Vec<TexRt> = Vec::new();
        proof {
            assert(hnds@ =~= p.hist@);
        }
        Self { p, tex, hnds, used_area: 0 }
    }

    /// The size passed to the packer for a request: the request plus
    /// padding on every side.
    pub open spec fn padded(sz: TexSz) -> TexSz {
        TexSz { w: (sz.w + 2 * PAD) as i64, h: (sz.h + 2 * PAD) as i64, ..sz }
    }

    /// Allocate room for `sz` pixels plus padding. An empty request is
    /// refused outright; a full bin is reported as such; a grant hands
    /// back the next free handle.
    pub fn allocate(&mut self, sz: TexSz) -> (r: Result<AtlasHandle, AtlasError>)
        requires
            old(self).wf(),
            sz.w >= 0,
            sz.h >= 0,
            fits(sz.w * sz.h),
            fits(old(self).cur_x() + sz.w + 2 * PAD),
            fits(old(self).cur_y() + sz.h + 2 * PAD),
            fits(old(self).cur_y() + old(self).p.maxh + sz.h + 2 * PAD),
            fits((sz.w + 2 * PAD) * (sz.h + 2 * PAD)),
            fits(old(self).used_area + (sz.w + 2 * PAD) * (sz.h + 2 * PAD)),
            old(self).hnds@.len() < i32::MAX,
        ensures
            final(self).wf(),
            final(self).tex == old(self).tex,
            final(self).p.sz == old(self).p.sz,
            sz.w * sz.h == 0 ==> r == Result::<AtlasHandle, AtlasError>::Err(
                AtlasError::EmptySize,
            ) && *final(self) == *old(self),
            sz.w * sz.h != 0 && !(old(self).p.fits_row(Self::padded(sz)) || old(
                self,
            ).p.fits_column(Self::padded(sz))) ==> r == Result::<AtlasHandle, AtlasError>::Err(
                AtlasError::Full,
            ) && *final(self) == *old(self),
            sz.w * sz.h != 0 && (old(self).p.fits_row(Self::padded(sz)) || old(
                self,
            ).p.fits_column(Self::padded(sz))) ==> {
                &&& r == Result::<AtlasHandle, AtlasError>::Ok(old(self).hnds@.len() as AtlasHandle)
                &&& final(self).hnds@.len() == old(self).hnds@.len() + 1
                &&& final(self).hnds@.last().w == sz.w + 2 * PAD
                &&& final(self).hnds@.last().h == sz.h + 2 * PAD
                &&& in_bin(final(self).hnds@.last(), old(self).p.sz)
                &&& forall|k: int|
                    0 <= k < old(self).hnds@.len() ==> disjoint(
                        final(self).hnds@.last(),
                        #[trigger] old(self).hnds@[k],
                    )
                &&& final(self).hnds@ == old(self).hnds@.push(final(self).hnds@.last())
            },
    {
        if sz.area() == 0 {
            return Err(AtlasError::EmptySize);
        }
        let padded = sz.add(TexSz::new(2 * PAD, 2 * PAD));
        let rect = match self.p.pack(padded) {
            Some(rect) => rect,
            None => {
                return Err(AtlasError::Full);
            },
        };
        self.used_area = self.used_area + padded.area();
        let hnd = self.hnds.len();
        self.hnds.push(rect);
        Ok(hnd as AtlasHandle)
    }

    /// The rectangle behind a handle, without its padding, with the
    /// bin size and texture id the renderer needs to sample it.
    pub fn get_layer(&self, hnd: AtlasHandle) -> (t: TextureLayer)
        requires
            self.wf(),
            0 <= hnd < self.hnds@.len(),
        ensures
            t.uv.x == self.hnds@[hnd as int].x + PAD,
            t.uv.y == self.hnds@[hnd as int].y + PAD,
            t.uv.w == self.hnds@[hnd as int].w - 2 * PAD,
            t.uv.h == self.hnds@[hnd as int].h - 2 * PAD,
            t.bin == self.p.sz,
            t.tex == self.tex,
            t.r.x == 0 && t.r.y == 0 && t.r.w == 0 && t.r.h == 0,
    {
        let r = self.hnds[hnd as usize];
        proof {
            assert(in_bin(self.p.hist@[hnd as int], self.p.sz));
        }
        let uv = TexRt::new(r.x + PAD, r.y + PAD, r.w - 2 * PAD, r.h - 2 * PAD);
        TextureLayer::new(GblRt::zero(), uv, self.p.sz, self.tex)
    }

    /// Write one pixel of the allocation behind `hnd`, padding kept
    /// clear.
    pub fn write_px(&self, ts: &mut TexStore, hnd: AtlasHandle, p: TexPt, c: Col)
        requires
            self.wf(),
            old(ts).wf(),
            1 <= self.tex && self.tex <= old(ts).texs@.len(),
            old(ts).texs@[self.tex - 1].sz == self.p.sz,
            0 <= hnd < self.hnds@.len(),
            0 <= p.x < self.hnds@[hnd as int].w - 2 * PAD,
            0 <= p.y < self.hnds@[hnd as int].h - 2 * PAD,
        ensures
            final(ts).wf(),
            final(ts).texs@.len() == old(ts).texs@.len(),
            forall|i: int|
                0 <= i < old(ts).texs@.len() && i != self.tex - 1 ==> final(ts).texs@[i] == old(
                    ts,
                ).texs@[i],
            final(ts).texs@[self.tex - 1].sz == old(ts).texs@[self.tex - 1].sz,
            final(ts).texs@[self.tex - 1].dirty,
            final(ts).texs@[self.tex - 1].data@ == old(ts).texs@[self.tex - 1].data@.update(
                old(ts).texs@[self.tex - 1].px_index(
                    TexPt {
                        x: (self.hnds@[hnd as int].x + p.x + PAD) as i64,
                        y: (self.hnds@[hnd as int].y + p.y + PAD) as i64,
                        ..p
                    },
                ),
                c,
            ),
    {
        let r = self.hnds[hnd as usize];
        ts.write(self.tex, TexPt::new(r.x + p.x + PAD, r.y + p.y + PAD), c);
    }

    /// The packer cursor's x, for the overflow bounds of `alloc`.
    pub open spec fn cur_x(self) -> int {
        self.p.cur.x as int
    }

    /// The packer cursor's y, for the overflow bounds of `alloc`.
    pub open spec fn cur_y(self) -> int {
        self.p.cur.y as int
    }
}

} // verus!
