//! The per-frame cursor object handed to application code.
//!
//! A `Ui` wraps one layout strategy and a widget id; child layouts are
//! driven through `child_info` / `place_layer`, and widgets query
//! hover, press and click against the layout's transform to global
//! space. Drawing pushes abstract operations under the current paint
//! context.

use vstd::prelude::*;

use crate::hint::Hint;
use crate::ident::{combine_ids, id_owned};
use crate::io::Io;
use crate::layer::{LclLayer, PrtLayer};
use crate::layout::{
    child_hint_spec, child_info_ok, natural_layer_in_parent, natural_layer_spec, LayoutInfo,
};
use crate::memory::Memory;
use crate::painter::{PaintCtx, PaintOp, Painter};
use crate::query;
use crate::resize::Z_OFF;
use crate::resize_layout::{interact_ok, window_hint, window_slot, ResizeLayout};
use crate::style::Style;
use crate::types::{fits, lz_of, LclPt, Pt, Pt2D};
use crate::vert_layout::VertLayout;

verus! {

/// The response of a widget: the layer it ended in, and whether it
/// was clicked this frame.
pub struct Resp {
    pub l: LclLayer,
    pub clicked: bool,
}

/// One of the closed set of layout strategies.
#[derive(Clone, Copy, Debug, PartialEq)]
pub enum Layout {
    Vert(VertLayout),
    Resize(ResizeLayout),
}

impl Layout {
    /// The strategy's current layout snapshot.
    pub open spec fn info_spec(self) -> LayoutInfo {
        match self {
            Layout::Vert(v) => v.info,
            Layout::Resize(r) => r.info,
        }
    }

    pub fn info(&self) -> (r: &LayoutInfo)
        ensures
            *r == self.info_spec(),
    {
        match self {
            Layout::Vert(v) => &v.info,
            Layout::Resize(r) => &r.info,
        }
    }
}

/// What `child_info` needs to stay representable, by strategy.
pub open spec fn child_info_req(ui: Ui, io: Io, mem: Memory, child_id: Seq<char>) -> bool {
    match ui.l {
        Layout::Vert(v) => child_info_ok(v.info, v.loc, lz_of(1)),
        Layout::Resize(rl) => {
            &&& fits(mem.top_z_spec(ui.id@) + Z_OFF)
            &&& match mem.win_spec(ui.id@, child_id) {
                Some(w) => {
                    let w1 = crate::resize_layout::interact_spec(
                        rl.info.gtf,
                        io,
                        mem.top_z_spec(ui.id@),
                        w,
                        child_id,
                    );
                    &&& interact_ok(rl.info.gtf, io, mem.top_z_spec(ui.id@), w)
                    &&& child_info_ok(
                        rl.info,
                        Pt2D { x: w1.l.r.x, y: w1.l.r.y, _u: core::marker::PhantomData },
                        w1.l.z,
                    )
                },
                None => child_info_ok(rl.info, rl.loc, lz_of(mem.top_z_spec(ui.id@) + Z_OFF)),
            }
        },
    }
}

/// The slot (offset and z) the next child is offered, by strategy.
pub open spec fn child_slot(ui: Ui, io: Io, mem: Memory, child_id: Seq<char>) -> (LclPt, int) {
    match ui.l {
        Layout::Vert(v) => (v.loc, 1int),
        Layout::Resize(rl) => window_slot(rl, io, mem, ui.id@, child_id),
    }
}

/// The hint the next child is resolved under, by strategy.
pub open spec fn child_eff_hint(ui: Ui, io: Io, mem: Memory, child_id: Seq<char>, hint: Hint) -> Hint {
    match ui.l {
        Layout::Vert(v) => hint,
        Layout::Resize(rl) => window_hint(rl, io, mem, ui.id@, child_id, hint),
    }
}

/// The full `LayoutInfo` value `Ui::child_info` returns.
pub open spec fn child_info_value(
    ui: Ui,
    io: Io,
    mem: Memory,
    child_id: Seq<char>,
    hint: Hint,
) -> LayoutInfo {
    let (off, z) = child_slot(ui, io, mem, child_id);
    crate::layout::child_info_result(
        ui.l.info_spec(),
        off,
        lz_of(z),
        child_eff_hint(ui, io, mem, child_id, hint),
    )
}

/// The layer `child_layer` yields for a hint: the child's natural
/// size at the offered slot.
pub open spec fn child_layer_spec(
    ui: Ui,
    io: Io,
    mem: Memory,
    child_id: Seq<char>,
    hint: Hint,
) -> LclLayer {
    let (off, z) = child_slot(ui, io, mem, child_id);
    let h = child_hint_spec(
        ui.l.info_spec(),
        off,
        child_eff_hint(ui, io, mem, child_id, hint),
    );
    LclLayer {
        r: crate::types::Rt2D {
            x: off.x,
            y: off.y,
            w: natural_layer_spec(h).r.w,
            h: natural_layer_spec(h).r.h,
            _u: core::marker::PhantomData,
        },
        z: crate::types::ZOrder { z: z as i64, _u: core::marker::PhantomData },
    }
}

/// The cursor object: the style in force, the layout being filled,
/// the widget id prefix, and the paint context drawing goes out
/// under.
pub struct Ui {
    pub s: Style,
    pub l: Layout,
    pub id: String,
    pub pctx: PaintCtx,
}

impl Ui {
    /// A cursor over `l` for the widget id `id`: the paint context
    /// starts from the layout's global transform and the style's
    /// light color.
    pub fn new(l: Layout, id: &str) -> (ui: Ui)
        ensures
            ui.l == l,
            ui.id@ == id@,
            ui.pctx.tf == l.info_spec().gtf,
            ui.pctx.z.z == 0,
            ui.pctx.line_width == 1,
    {
        let s = Style::new();
        let col = s.light_col;
        let info = *l.info();
        let pctx = PaintCtx::new().tf(info.gtf).col(col);
        Ui { s, l, id: id_owned(id), pctx }
    }

    pub fn info(&self) -> (r: &LayoutInfo)
        ensures
            *r == self.l.info_spec(),
    {
        self.l.info()
    }

    /// This cursor's own widget id.
    pub fn id(&self) -> (r: &str)
        ensures
            r@ == self.id@,
    {
        self.id.as_str()
    }

    /// The id of a widget under this cursor: the cursor's id joined
    /// with the widget's local id.
    pub fn wid(&self, lcl_id: &str) -> (r: String)
        ensures
            r@ == crate::ident::combined(seq![self.id@, lcl_id@]),
    {
        let arr: [&str; 2] = [self.id.as_str(), lcl_id];
        let r = combine_ids(arr.as_slice());
        proof {
            assert(arr@.map_values(|s: &str| s@) =~= seq![self.id@, lcl_id@]);
        }
        r
    }

    /// Whether `id` with hit-box `l` is hovered; asking files the
    /// hover request.
    pub fn hovered(&self, io: &mut Io, id: &str, l: LclLayer) -> (r: bool)
        requires
            query::query_ok(self.l.info_spec().gtf, l),
        ensures
            r == (query::owner_is(*old(io), id@) && query::cursor_in(
                self.l.info_spec().gtf,
                *old(io),
                l,
            )),
            query::cursor_in(self.l.info_spec().gtf, *old(io), l) ==> crate::io::mouse_req_rel(
                *old(io),
                *final(io),
                query::global_z(self.l.info_spec().gtf, l),
                id@,
            ),
            !query::cursor_in(self.l.info_spec().gtf, *old(io), l) ==> *final(io) == *old(io),
    {
        query::hovered_in(&self.l.info().gtf, io, id, l)
    }

    /// Whether `id` with hit-box `l` is pressed; asking prolongs the
    /// capture.
    pub fn pressed(&self, io: &mut Io, id: &str, l: LclLayer) -> (r: bool)
        requires
            query::query_ok(self.l.info_spec().gtf, l),
        ensures
            r == (query::owner_is(*old(io), id@) && query::press_holds(
                self.l.info_spec().gtf,
                *old(io),
                id@,
                l,
            )),
            query::press_holds(self.l.info_spec().gtf, *old(io), id@, l)
                ==> crate::io::mouse_capture_rel(
                *old(io),
                *final(io),
                query::global_z(self.l.info_spec().gtf, l),
                id@,
            ),
            !query::press_holds(self.l.info_spec().gtf, *old(io), id@, l) ==> *final(io) == *old(
                io,
            ),
    {
        query::pressed_in(&self.l.info().gtf, io, id, l)
    }

    /// Whether `id` with hit-box `l` was clicked at the release.
    pub fn clicked(&self, io: &Io, id: &str, l: LclLayer) -> (r: bool)
        requires
            query::query_ok(self.l.info_spec().gtf, l),
        ensures
            r == (query::owner_is(*io, id@) && io.mouse_just_released && query::captured_is(
                *io,
                id@,
            ) && query::cursor_in(self.l.info_spec().gtf, *io, l)),
    {
        query::clicked_in(&self.l.info().gtf, io, id, l)
    }

    /// The scroll delta for `id` this frame, zero unless hovered;
    /// asking files the hover request.
    pub fn scrolled(&self, io: &mut Io, id: &str, l: LclLayer) -> (r: Pt)
        requires
            query::query_ok(self.l.info_spec().gtf, l),
        ensures
            query::owner_is(*old(io), id@) && query::cursor_in(self.l.info_spec().gtf, *old(io), l)
                ==> r == old(io).mouse_scroll,
            !(query::owner_is(*old(io), id@) && query::cursor_in(
                self.l.info_spec().gtf,
                *old(io),
                l,
            )) ==> r.x == 0 && r.y == 0,
            query::cursor_in(self.l.info_spec().gtf, *old(io), l) ==> crate::io::mouse_req_rel(
                *old(io),
                *final(io),
                query::global_z(self.l.info_spec().gtf, l),
                id@,
            ),
            !query::cursor_in(self.l.info_spec().gtf, *old(io), l) ==> *final(io) == *old(io),
    {
        query::scrolled_in(&self.l.info().gtf, io, id, l)
    }

    /// Push one draw operation under the current paint context.
    pub fn draw(&self, paint: &mut Painter, op: PaintOp)
        ensures
            final(paint).ops@ == old(paint).ops@.push((self.pctx, op)),
            final(paint).ts == old(paint).ts,
            final(paint).cursor == old(paint).cursor,
            final(paint).atlas == old(paint).atlas,
    {
        paint.push_op(self.pctx, op);
    }

    /// Compute where and how large the next child may be, under the
    /// strategy in force.
    pub fn child_info(
        &mut self,
        io: &mut Io,
        mem: &mut Memory,
        paint: &mut Painter,
        hint: &Hint,
        child_id: &str,
    ) -> (r: LayoutInfo)
        requires
            old(mem).wf(),
            child_info_req(*old(self), *old(io), *old(mem), child_id@),
        ensures
            final(self).s == old(self).s,
            final(self).id == old(self).id,
            final(self).pctx == old(self).pctx,
            final(mem).wf(),
            final(mem).debug == old(mem).debug,
            r == child_info_value(*old(self), *old(io), *old(mem), child_id@, *hint),
            *final(io) == (Io {
                mouse_req: final(io).mouse_req,
                mouse_capture_req: final(io).mouse_capture_req,
                ..*old(io)
            }),
            *final(paint) == (Painter { cursor: final(paint).cursor, ..*old(paint) }),
            match old(self).l {
                Layout::Vert(v) => {
                    &&& *final(self) == *old(self)
                    &&& *final(io) == *old(io)
                    &&& *final(paint) == *old(paint)
                    &&& *final(mem) == *old(mem)
                    &&& r.ptf.off.x == v.loc.x && r.ptf.off.y == v.loc.y && r.ptf.z.z == 1
                    &&& r.gtf.off.x == v.loc.x + v.info.gtf.off.x
                    &&& r.gtf.off.y == v.loc.y + v.info.gtf.off.y
                    &&& r.gtf.z.z == 1 + v.info.gtf.z.z
                    &&& r.hint == child_hint_spec(v.info, v.loc, *hint)
                },
                Layout::Resize(rl) => {
                    let (off, z) = window_slot(rl, *old(io), *old(mem), old(self).id@, child_id@);
                    &&& *final(self) == *old(self)
                    &&& r.ptf.off.x == off.x && r.ptf.off.y == off.y && r.ptf.z.z == z
                    &&& r.gtf.off.x == off.x + rl.info.gtf.off.x
                    &&& r.gtf.off.y == off.y + rl.info.gtf.off.y
                    &&& r.gtf.z.z == z + rl.info.gtf.z.z
                    &&& r.hint == child_hint_spec(
                        rl.info,
                        off,
                        window_hint(rl, *old(io), *old(mem), old(self).id@, child_id@, *hint),
                    )
                    &&& forall|u: Seq<char>, c: Seq<char>|
                        !(u == old(self).id@ && c == child_id@) ==> final(mem).win_spec(u, c)
                            == old(mem).win_spec(u, c)
                    &&& forall|u: Seq<char>|
                        u != old(self).id@ ==> final(mem).top_z_spec(u) == old(mem).top_z_spec(u)
                },
            },
    {
        let ui_id = id_owned(&self.id);
        match &mut self.l {
            Layout::Vert(v) => v.child_info(hint),
            Layout::Resize(rl) => rl.child_info(io, mem, paint, ui_id.as_str(), hint, child_id),
        }
    }

    /// Record a placed child layer under the strategy in force.
    pub fn place_layer(&mut self, mem: &mut Memory, l: &LclLayer, child_id: &str)
        requires
            old(mem).wf(),
            match old(self).l {
                Layout::Vert(v) => v.advance_ok(*l),
                Layout::Resize(rl) => fits(l.r.y + l.r.h),
            },
        ensures
            final(self).s == old(self).s,
            final(self).id == old(self).id,
            final(self).pctx == old(self).pctx,
            final(mem).wf(),
            final(mem).debug == old(mem).debug,
            match old(self).l {
                Layout::Vert(v) => final(self).l == Layout::Vert(v.advance_spec(*l)) && *final(mem)
                    == *old(mem),
                Layout::Resize(rl) => {
                    &&& final(self).l matches Layout::Resize(r2) && r2.info == rl.info && r2.loc.x
                        == rl.loc.x && r2.loc.y == l.r.y + l.r.h
                    &&& final(mem).win_spec(old(self).id@, child_id@) matches Some(w) && w.l == *l
                    &&& forall|u: Seq<char>, c: Seq<char>|
                        !(u == old(self).id@ && c == child_id@) ==> final(mem).win_spec(u, c)
                            == old(mem).win_spec(u, c)
                    &&& forall|u: Seq<char>|
                        final(mem).top_z_spec(u) == old(mem).top_z_spec(u)
                },
            },
    {
        let ui_id = id_owned(&self.id);
        match &mut self.l {
            Layout::Vert(v) => v.place_layer(l),
            Layout::Resize(rl) => rl.place_layer(mem, ui_id.as_str(), l, child_id),
        }
    }

    /// Place a childless layer of the hint's natural size at the next
    /// slot: ask the strategy for the slot, take the natural size, and
    /// record the placement. With the debug overlay on, its outline is
    /// stroked above everything.
    pub fn child_layer(
        &mut self,
        io: &mut Io,
        mem: &mut Memory,
        paint: &mut Painter,
        hint: &Hint,
    ) -> (r: LclLayer)
        requires
            old(mem).wf(),
            child_info_req(*old(self), *old(io), *old(mem), ""@),
            ({
                let l = child_layer_spec(*old(self), *old(io), *old(mem), ""@, *hint);
                match old(self).l {
                    Layout::Vert(v) => v.advance_ok(l),
                    Layout::Resize(rl) => fits(l.r.y + l.r.h),
                }
            }),
        ensures
            final(mem).wf(),
            final(mem).debug == old(mem).debug,
            r == child_layer_spec(*old(self), *old(io), *old(mem), ""@, *hint),
            final(self).s == old(self).s,
            final(self).id == old(self).id,
            final(self).pctx == old(self).pctx,
            match old(self).l {
                Layout::Vert(v) => {
                    &&& final(self).l == Layout::Vert(v.advance_spec(r))
                    &&& *final(mem) == *old(mem)
                    &&& *final(io) == *old(io)
                },
                Layout::Resize(rl) => {
                    &&& final(self).l matches Layout::Resize(r2) && r2.info == rl.info
                        && r2.loc.x == rl.loc.x && r2.loc.y == r.r.y + r.r.h
                    &&& final(mem).win_spec(old(self).id@, ""@) matches Some(w) && w.l == r
                    &&& forall|u: Seq<char>, c: Seq<char>|
                        !(u == old(self).id@ && c == ""@) ==> final(mem).win_spec(u, c) == old(
                            mem,
                        ).win_spec(u, c)
                },
            },
    {
        let info = self.child_info(io, mem, paint, hint, "");
        let l: LclLayer = natural_layer_in_parent(&info).coerce();
        self.place_layer(mem, &l, "");
        if mem.debug {
            let saved = self.pctx;
            self.pctx = self.pctx.z(crate::types::ZOrder::new(crate::types::MAX_Z)).col(
                crate::colors::red(),
            );
            self.draw(paint, PaintOp::StrokeRt { r: l.r });
            self.pctx = saved;
        }
        l
    }

    /// The natural layer of this cursor's layout, in its parent's
    /// space.
    pub fn compute_layer(&self) -> (r: PrtLayer)
        ensures
            r.r.x == self.l.info_spec().ptf.off.x,
            r.r.y == self.l.info_spec().ptf.off.y,
            r.r.w == natural_layer_spec(self.l.info_spec().hint).r.w,
            r.r.h == natural_layer_spec(self.l.info_spec().hint).r.h,
            r.z.z == self.l.info_spec().ptf.z.z,
    {
        natural_layer_in_parent(self.l.info())
    }
}

} // verus!
