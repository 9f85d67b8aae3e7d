//! The paint-operation list.
//!
//! Drawing accumulates `(context, operation)` pairs in order; the
//! renderer consumes the list after the frame. The context carries the
//! transform to global space, a z-order, a color and a line width. The
//! painter also owns the glyph atlas and the texture store, and the
//! cursor icon reported for this frame.

use vstd::prelude::*;

use crate::atlas::{Atlas, AtlasError, AtlasHandle};
use crate::colors::{white, Col};
use crate::layer::GblTf;
use crate::resize::CursorIcon;
use crate::texture::{TexStore, TextureLayer};
use crate::types::{fits, LclPt, LclRt, LclSz, LclZ, TexPt, TexSz};

verus! {

/// The drawing context in force for one operation.
#[derive(Clone, Copy, Debug, PartialEq)]
pub struct PaintCtx {
    pub tf: GblTf,
    pub z: LclZ,
    pub col: Col,
    pub line_width: i64,
}

impl PaintCtx {
    /// The default context: identity transform, z zero, white, hairline.
    pub fn new() -> (c: Self)
        ensures
            c.tf.is_identity(),
            c.z.z == 0,
            c.col == (Col { r: 204, g: 204, b: 204, a: 255 }),
            c.line_width == 1,
    {
        Self {
            tf: GblTf::new(LclPt::zero().coerce(), LclZ::zero().coerce()),
            z: LclZ::zero(),
            col: white(),
            line_width: 1,
        }
    }

    pub fn tf(self, tf: GblTf) -> (c: Self)
        ensures
            c == (PaintCtx { tf, ..self }),
    {
        Self { tf, ..self }
    }

    pub fn col(self, col: Col) -> (c: Self)
        ensures
            c == (PaintCtx { col, ..self }),
    {
        Self { col, ..self }
    }

    pub fn z(self, z: LclZ) -> (c: Self)
        ensures
            c == (PaintCtx { z, ..self }),
    {
        Self { z, ..self }
    }

    pub fn line_width(self, line_width: i64) -> (c: Self)
        ensures
            c == (PaintCtx { line_width, ..self }),
    {
        Self { line_width, ..self }
    }
}

impl Default for PaintCtx {
    fn default() -> (c: Self)
        ensures
            c.tf.is_identity(),
            c.z.z == 0,
            c.col == (Col { r: 204, g: 204, b: 204, a: 255 }),
            c.line_width == 1,
    {
        Self::new()
    }
}

/// One abstract draw operation, in local coordinates; angles are in
/// milliradians.
#[derive(Clone, Debug, PartialEq)]
pub enum PaintOp {
    FillCirc { center: LclPt, radius: i64 },
    FillPoly { pts: Vec<LclPt> },
    FillQuad { v: [LclPt; 4] },
    FillRt { r: LclRt },
    FillRRt { r: LclRt, radius: i64 },
    StrokeLine { st: LclPt, en: LclPt },
    StrokeCirc { center: LclPt, radius: i64 },
    StrokeEllipse { center: LclPt, radii: LclSz, rot: i64 },
    StrokePoly { pts: Vec<LclPt>, is_closed: bool },
    StrokeQuad { v: [LclPt; 4] },
    StrokeRt { r: LclRt },
    StrokeRRt { r: LclRt, radius: i64 },
    StrokeTri { v: [LclPt; 3] },
    Texture { tex: TextureLayer },
}

/// The accumulator of a frame's draw operations.
pub struct Painter {
    pub ops: Vec<(PaintCtx, PaintOp)>,
    pub ts: TexStore,
    pub cursor: CursorIcon,
    pub atlas: Atlas,
}

impl Painter {
    /// Well-formed: the texture store and atlas are, and the atlas
    /// draws on a texture the store holds, of the atlas bin size.
    pub open spec fn wf(self) -> bool {
        &&& self.ts.wf()
        &&& self.atlas.wf()
        &&& 1 <= self.atlas.tex && self.atlas.tex <= self.ts.texs@.len()
        &&& self.ts.texs@[self.atlas.tex - 1].sz == self.atlas.p.sz
    }

    /// A fresh painter: empty operation list, default cursor, one
    /// atlas over a new texture store.
    pub fn new() -> (p: Self)
        ensures
            p.wf(),
            p.ops@.len() == 0,
            p.cursor == CursorIcon::Arrow,
    {
        let mut ts = TexStore::new();
        let atlas = Atlas::new(&mut ts);
        Self { ops: Vec::new(), ts, cursor: CursorIcon::Arrow, atlas }
    }

    /// Start a frame: drop the accumulated operations and reset the
    /// cursor icon.
    pub fn begin(&mut self)
        ensures
            final(self).ops@.len() == 0,
            final(self).cursor == CursorIcon::Arrow,
            final(self).ts == old(self).ts,
            final(self).atlas == old(self).atlas,
    {
        self.ops.clear();
        self.cursor = CursorIcon::Arrow;
    }

    /// Append one operation under the given context.
    pub fn push_op(&mut self, pctx: PaintCtx, op: PaintOp)
        ensures
            final(self).ops@ == old(self).ops@.push((pctx, op)),
            final(self).ts == old(self).ts,
            final(self).cursor == old(self).cursor,
            final(self).atlas == old(self).atlas,
    {
        self.ops.push((pctx, op));
    }

    /// Report a cursor icon for this frame.
    pub fn set_cursor(&mut self, cursor: CursorIcon)
        ensures
            *final(self) == (Painter { cursor, ..*old(self) }),
    {
        self.cursor = cursor;
    }

    /// Allocate room in the glyph atlas.
    pub fn allocate(&mut self, sz: TexSz) -> (r: Result<AtlasHandle, AtlasError>)
        requires
            old(self).wf(),
            sz.w >= 0,
            sz.h >= 0,
            fits(sz.w * sz.h),
            fits((sz.w + 2) * (sz.h + 2)),
            fits(old(self).atlas.used_area + (sz.w + 2) * (sz.h + 2)),
            fits(old(self).atlas.p.sz.w + sz.w + 2),
            fits(old(self).atlas.p.sz.h + sz.h + 2),
            old(self).atlas.hnds@.len() < i32::MAX,
        ensures
            final(self).wf(),
            final(self).ops == old(self).ops,
            final(self).cursor == old(self).cursor,
            final(self).ts == old(self).ts,
            final(self).atlas.tex == old(self).atlas.tex,
            final(self).atlas.p.sz == old(self).atlas.p.sz,
            sz.w * sz.h == 0 ==> r == Result::<AtlasHandle, AtlasError>::Err(
                AtlasError::EmptySize,
            ) && *final(self) == *old(self),
            sz.w * sz.h != 0 && !(old(self).atlas.p.fits_row(Atlas::padded(sz))
                || old(self).atlas.p.fits_column(Atlas::padded(sz))) ==> r == Result::<
                AtlasHandle,
                AtlasError,
            >::Err(AtlasError::Full) && *final(self) == *old(self),
            sz.w * sz.h != 0 && (old(self).atlas.p.fits_row(Atlas::padded(sz))
                || old(self).atlas.p.fits_column(Atlas::padded(sz))) ==> {
                &&& r == Result::<AtlasHandle, AtlasError>::Ok(
                    old(self).atlas.hnds@.len() as AtlasHandle,
                )
                &&& final(self).atlas.hnds@.len() == old(self).atlas.hnds@.len() + 1
                &&& final(self).atlas.hnds@.last().w == sz.w + 2
                &&& final(self).atlas.hnds@.last().h == sz.h + 2
                &&& crate::atlas::in_bin(final(self).atlas.hnds@.last(), old(self).atlas.p.sz)
                &&& forall|k: int|
                    0 <= k < old(self).atlas.hnds@.len() ==> crate::atlas::disjoint(
                        final(self).atlas.hnds@.last(),
                        #[trigger] old(self).atlas.hnds@[k],
                    )
                &&& final(self).atlas.hnds@ == old(self).atlas.hnds@.push(
                    final(self).atlas.hnds@.last(),
                )
            },
    {
        proof {
            assert(self.atlas.p.cur.x <= self.atlas.p.sz.w < i64::MAX);
            assert(self.atlas.p.cur.y + self.atlas.p.maxh <= self.atlas.p.sz.h < i64::MAX);
        }
        self.atlas.allocate(sz)
    }

    /// The texture layer behind an atlas handle: the allocation's
    /// rectangle without its padding, against the atlas bin.
    pub fn get_tex(&self, hnd: AtlasHandle) -> (t: TextureLayer)
        requires
            self.wf(),
            0 <= hnd < self.atlas.hnds@.len(),
        ensures
            t.uv.x == self.atlas.hnds@[hnd as int].x + 1,
            t.uv.y == self.atlas.hnds@[hnd as int].y + 1,
            t.uv.w == self.atlas.hnds@[hnd as int].w - 2,
            t.uv.h == self.atlas.hnds@[hnd as int].h - 2,
            t.bin == self.atlas.p.sz,
            t.tex == self.atlas.tex,
            t.r.x == 0 && t.r.y == 0 && t.r.w == 0 && t.r.h == 0,
    {
        self.atlas.get_layer(hnd)
    }

    /// Write one pixel of an atlas allocation.
    pub fn write_px(&mut self, hnd: AtlasHandle, p: TexPt, c: Col)
        requires
            old(self).wf(),
            0 <= hnd < old(self).atlas.hnds@.len(),
            0 <= p.x < old(self).atlas.hnds@[hnd as int].w - 2,
            0 <= p.y < old(self).atlas.hnds@[hnd as int].h - 2,
        ensures
            final(self).wf(),
            final(self).ops == old(self).ops,
            final(self).cursor == old(self).cursor,
            final(self).atlas == old(self).atlas,
            final(self).ts.texs@.len() == old(self).ts.texs@.len(),
            forall|i: int|
                0 <= i < old(self).ts.texs@.len() && i != old(self).atlas.tex - 1
                    ==> final(self).ts.texs@[i] == old(self).ts.texs@[i],
            final(self).ts.texs@[old(self).atlas.tex - 1].data@
                == old(self).ts.texs@[old(self).atlas.tex - 1].data@.update(
                old(self).ts.texs@[old(self).atlas.tex - 1].px_index(
                    TexPt {
                        x: (old(self).atlas.hnds@[hnd as int].x + p.x + 1) as i64,
                        y: (old(self).atlas.hnds@[hnd as int].y + p.y + 1) as i64,
                        ..p
                    },
                ),
                c,
            ),
            final(self).ts.texs@[old(self).atlas.tex - 1].sz == old(self).ts.texs@[old(self).atlas.tex - 1].sz,
            final(self).ts.texs@[old(self).atlas.tex - 1].dirty,
    {
        let atlas = &self.atlas;
        atlas.write_px(&mut self.ts, hnd, p, c);
    }
}

} // verus!
