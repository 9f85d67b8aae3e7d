//! CPU-side textures and the store that owns them.
//!
//! A texture is a pixel rectangle kept in memory until the renderer
//! uploads it; the dirty flag marks pending uploads. The store hands
//! out ids starting at one.

use vstd::prelude::*;

use crate::colors::Col;
use crate::types::{fits, GblRt, TexPt, TexRt, TexSz};

verus! {

pub type TexId = usize;

/// Where a textured quad samples from: a target rectangle in global
/// space, the source rectangle in atlas pixels, the atlas bin size to
/// normalise against, and the texture id.
#[derive(Clone, Copy, Debug, PartialEq)]
pub struct TextureLayer {
    pub r: GblRt,
    pub uv: TexRt,
    pub bin: TexSz,
    pub tex: TexId,
}

impl TextureLayer {
    pub fn new(r: GblRt, uv: TexRt, bin: TexSz, tex: TexId) -> (t: Self)
        ensures
            t.r == r && t.uv == uv && t.bin == bin && t.tex == tex,
    {
        Self { r, uv, bin, tex }
    }

    /// The same sampling with another target rectangle.
    pub fn with_rect(self, r: GblRt) -> (t: Self)
        ensures
            t == (TextureLayer { r, ..self }),
    {
        Self { r, ..self }
    }
}

/// One texture: its id, size, pixels in row-major order, and whether
/// it changed since the last upload.
#[derive(Clone, Debug, PartialEq)]
pub struct Tex {
    pub id: TexId,
    pub sz: TexSz,
    pub data: Vec<Col>,
    pub dirty: bool,
}

impl Tex {
    /// Well-formed: the pixel buffer covers the size exactly.
    pub open spec fn wf(self) -> bool {
        &&& 0 <= self.sz.w && 0 <= self.sz.h
        &&& fits(self.sz.w * self.sz.h)
        &&& self.sz.w * self.sz.h <= usize::MAX
        &&& self.data@.len() == self.sz.w * self.sz.h
    }

    /// A transparent texture of size `sz`.
    pub fn new(id: TexId, sz: TexSz) -> (t: Self)
        requires
            sz.w >= 0,
            sz.h >= 0,
            fits(sz.w * sz.h),
            sz.w * sz.h <= usize::MAX,
        ensures
            t.wf(),
            t.id == id,
            t.sz == sz,
            t.dirty,
            forall|k: int| 0 <= k < t.data@.len() ==> #[trigger] t.data@[k] == Col::clear_spec(),
    {
        let numpix: usize = (sz.w * sz.h) as usize;
        let mut data: Vec<Col> = Vec::new();
        let mut k: usize = 0;
        while k < numpix
            invariant
                k <= numpix,
                data@.len() == k,
                forall|j: int| 0 <= j < k ==> #[trigger] data@[j] == Col::clear_spec(),
            decreases numpix - k,
        {
            data.push(Col::clear());
            k = k + 1;
        }
        Self { id, sz, data, dirty: true }
    }

    /// The row-major index of pixel `p`.
    pub open spec fn px_index(self, p: TexPt) -> int {
        self.sz.w * p.y + p.x
    }

    /// Write one pixel and mark the texture dirty.
    pub fn write(&mut self, p: TexPt, c: Col)
        requires
            old(self).wf(),
            0 <= p.x < old(self).sz.w,
            0 <= p.y < old(self).sz.h,
        ensures
            final(self).wf(),
            final(self).id == old(self).id,
            final(self).sz == old(self).sz,
            final(self).dirty,
            final(self).data@ == old(self).data@.update(old(self).px_index(p), c),
    {
        proof {
            assert(0 <= self.sz.w * p.y + p.x < self.sz.w * self.sz.h) by (nonlinear_arith)
                requires
                    0 <= p.x < self.sz.w,
                    0 <= p.y < self.sz.h,
            ;
        }
        let idx: usize = (self.sz.w * p.y + p.x) as usize;
        self.data.set(idx, c);
        self.dirty = true;
    }
}

impl Col {
    /// The value `Col::clear` returns.
    pub open spec fn clear_spec() -> Col {
        Col { r: 0, g: 0, b: 0, a: 0 }
    }
}

/// The owner of all live textures; ids start at one and are handed
/// out in order.
#[derive(Clone, Debug, PartialEq)]
pub struct TexStore {
    pub last_id: TexId,
    pub texs: Vec<Tex>,
}

impl TexStore {
    /// Well-formed: ids are dense from one, each texture well-formed.
    pub open spec fn wf(self) -> bool {
        &&& self.last_id == self.texs@.len() + 1
        &&& forall|i: int|
            0 <= i < self.texs@.len() ==> (#[trigger] self.texs@[i]).wf() && self.texs@[i].id == i
                + 1
    }

    pub fn new() -> (ts: Self)
        ensures
            ts.wf(),
            ts.texs@.len() == 0,
            ts.last_id == 1,
    {
        Self { last_id: 1, texs: Vec::new() }
    }

    /// Create a transparent texture of size `sz` and hand out its id.
    pub fn insert(&mut self, sz: TexSz) -> (id: TexId)
        requires
            old(self).wf(),
            sz.w >= 0,
            sz.h >= 0,
            fits(sz.w * sz.h),
            sz.w * sz.h <= usize::MAX,
            old(self).texs@.len() + 1 < usize::MAX,
        ensures
            final(self).wf(),
            id == old(self).last_id,
            final(self).texs@.len() == old(self).texs@.len() + 1,
            final(self).texs@[id - 1].sz == sz,
            forall|i: int|
                0 <= i < old(self).texs@.len() ==> final(self).texs@[i] == old(self).texs@[i],
    {
        let id = self.last_id;
        self.last_id = self.last_id + 1;
        self.texs.push(Tex::new(id, sz));
        id
    }

    /// Whether `id` names a live texture.
    pub fn contains(&self, id: TexId) -> (r: bool)
        requires
            self.wf(),
        ensures
            r == (1 <= id && id <= self.texs@.len()),
    {
        1 <= id && id <= self.texs.len()
    }

    /// Write one pixel of texture `id`.
    pub fn write(&mut self, id: TexId, p: TexPt, c: Col)
        requires
            old(self).wf(),
            1 <= id && id <= old(self).texs@.len(),
            0 <= p.x < old(self).texs@[id - 1].sz.w,
            0 <= p.y < old(self).texs@[id - 1].sz.h,
        ensures
            final(self).wf(),
            final(self).last_id == old(self).last_id,
            final(self).texs@.len() == old(self).texs@.len(),
            forall|i: int|
                0 <= i < old(self).texs@.len() && i != id - 1 ==> final(self).texs@[i] == old(
                    self,
                ).texs@[i],
            final(self).texs@[id - 1].data@ == old(self).texs@[id - 1].data@.update(
                old(self).texs@[id - 1].px_index(p),
                c,
            ),
            final(self).texs@[id - 1].sz == old(self).texs@[id - 1].sz,
            final(self).texs@[id - 1].dirty,
    {
        let idx = id - 1;
        self.texs[idx].write(p, c);
    }
}

} // verus!
