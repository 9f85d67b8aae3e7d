//! Widgets: label, button, floating window.
//!
//! Widgets are built from the layout protocol, the input queries and
//! the abstract draw operations. Text is measured by the embedding
//! text service; a widget takes its text's measured size and leaves
//! glyph drawing to that service, against the layer it returns.

use vstd::prelude::*;

use crate::hint::{make_exact_spec, neutral_hint, Hint, SzOpt};
use crate::ident::{combine_ids, combined, id_owned};
use crate::io::Io;
use crate::layer::{Layer, LclLayer};
use crate::layout::{child_info_ok, natural_layer_spec};
use crate::memory::Memory;
use crate::painter::{PaintOp, Painter};
use crate::query;
use crate::types::{fits, lz_of, LclPt, LclRt, LclSz, Pt2D, Rt2D, Sz2D, ZOrder};
use crate::ui::{
    child_info_req, child_info_value, child_layer_spec, Layout, Resp, Ui,
};
use crate::vert_layout::VertLayout;

verus! {

/// What every widget offers: a local id, unique among its siblings,
/// from which its hierarchical retained-state id is built.
pub trait Widget {
    fn lcl_id(&self) -> String;
}

/// A run of text placed at its measured size.
#[derive(Debug, PartialEq)]
pub struct Label {
    pub text: String,
}

impl Widget for Label {
    /// The label's local id: its text.
    fn lcl_id(&self) -> (r: String)
        ensures
            r@ == self.text@,
    {
        self.text.clone()
    }
}

impl Label {
    pub fn new(text: &str) -> (l: Label)
        ensures
            l.text@ == text@,
    {
        Self { text: id_owned(text) }
    }


    /// Place the label at its measured size. Glyphs are drawn by the
    /// embedding text service against the returned layer.
    pub fn ui(&self, ui: &mut Ui, io: &mut Io, mem: &mut Memory, paint: &mut Painter, measured: LclSz) -> (r: Resp)
        requires
            old(mem).wf(),
            child_info_req(*old(ui), *old(io), *old(mem), ""@),
            ({
                let l = child_layer_spec(
                    *old(ui),
                    *old(io),
                    *old(mem),
                    ""@,
                    make_exact_spec(measured),
                );
                match old(ui).l {
                    Layout::Vert(v) => v.advance_ok(l),
                    Layout::Resize(rl) => fits(l.r.y + l.r.h),
                }
            }),
        ensures
            final(mem).wf(),
            final(mem).debug == old(mem).debug,
            r.l == child_layer_spec(*old(ui), *old(io), *old(mem), ""@, make_exact_spec(measured)),
            !r.clicked,
            final(ui).s == old(ui).s,
            final(ui).id == old(ui).id,
            final(ui).pctx == old(ui).pctx,
            match old(ui).l {
                Layout::Vert(v) => {
                    &&& final(ui).l == Layout::Vert(v.advance_spec(r.l))
                    &&& *final(mem) == *old(mem)
                    &&& *final(io) == *old(io)
                },
                Layout::Resize(rl) => true,
            },
    {
        let l = ui.child_layer(io, mem, paint, &Hint::make_exact(measured));
        Resp { l, clicked: false }
    }
}

/// The id a button derives from its cursor and text.
pub open spec fn button_id(ui: Ui, text: Seq<char>) -> Seq<char> {
    combined(seq![ui.id@, combined(seq!["button"@, text])])
}

/// The layer a button of measured text size `tsz` ends in: its inner
/// stack wraps the label, so the button takes the label's resolved
/// extent at the slot the parent offered.
pub open spec fn button_layer(ui: Ui, io: Io, mem: Memory, id: Seq<char>, tsz: LclSz) -> LclLayer {
    let info = child_info_value(ui, io, mem, id, neutral_hint());
    let cui = Ui { l: Layout::Vert(VertLayout { info, loc: lbl_zero_pt(), sz: lbl_zero_sz() }), ..ui };
    let lbl = child_layer_spec(cui, io, mem, ""@, make_exact_spec(tsz));
    let v1 = VertLayout { info, loc: lbl_zero_pt(), sz: lbl_zero_sz() }.advance_spec(lbl);
    Layer {
        r: Rt2D {
            x: info.ptf.off.x,
            y: info.ptf.off.y,
            w: natural_layer_spec(v1.info.hint).r.w,
            h: natural_layer_spec(v1.info.hint).r.h,
            _u: core::marker::PhantomData,
        },
        z: ZOrder { z: info.ptf.z.z, _u: core::marker::PhantomData },
    }
}

/// The origin point, for the widget-layer specs.
pub open spec fn lbl_zero_pt() -> LclPt {
    Pt2D { x: 0, y: 0, _u: core::marker::PhantomData }
}

/// The zero size, for the widget-layer specs.
pub open spec fn lbl_zero_sz() -> LclSz {
    Sz2D { w: 0, h: 0, _u: core::marker::PhantomData }
}

/// What `Button::ui` needs to stay representable: the child flow for
/// its id, the inner stack, the placement of the resulting layer and
/// the hit test on it.
pub open spec fn button_ok(ui: Ui, io: Io, mem: Memory, id: Seq<char>, tsz: LclSz) -> bool {
    let info = child_info_value(ui, io, mem, id, neutral_hint());
    let cui = Ui { l: Layout::Vert(VertLayout { info, loc: lbl_zero_pt(), sz: lbl_zero_sz() }), ..ui };
    let lbl = child_layer_spec(cui, io, mem, ""@, make_exact_spec(tsz));
    let l = button_layer(ui, io, mem, id, tsz);
    &&& child_info_req(ui, io, mem, id)
    &&& child_info_ok(info, lbl_zero_pt(), lz_of(1))
    &&& fits(lbl_zero_sz().h + lbl.r.h)
    &&& match ui.l {
        Layout::Vert(v) => v.advance_ok(l),
        Layout::Resize(rl) => fits(l.r.y + l.r.h),
    }
    &&& query::query_ok(ui.l.info_spec().gtf, l)
}

/// A clickable labelled box. The click is reported in the response
/// rather than through a callback.
#[derive(Debug, PartialEq)]
pub struct Button {
    pub label: Label,
}

impl Widget for Button {
    /// The button's local id: a tag joined with its label's.
    fn lcl_id(&self) -> (r: String)
        ensures
            r@ == combined(seq!["button"@, self.label.text@]),
    {
        let arr: [&str; 2] = ["button", self.label.text.as_str()];
        let r = combine_ids(arr.as_slice());
        proof {
            assert(arr@.map_values(|s: &str| s@) =~= seq!["button"@, self.label.text@]);
        }
        r
    }
}

impl Button {
    pub fn new(text: &str) -> (b: Button)
        ensures
            b.label.text@ == text@,
    {
        Self { label: Label::new(text) }
    }


    /// Lay the button out (an inner stack wrapping its label), file
    /// its hover and capture interest, and report whether it was
    /// clicked. The fill color follows the interaction state.
    pub fn ui(&self, ui: &mut Ui, io: &mut Io, mem: &mut Memory, paint: &mut Painter, measured: LclSz) -> (r: Resp)
        requires
            old(mem).wf(),
            button_ok(*old(ui), *old(io), *old(mem), button_id(*old(ui), self.label.text@), measured),
        ensures
            final(mem).wf(),
            final(mem).debug == old(mem).debug,
            r.l == button_layer(
                *old(ui),
                *old(io),
                *old(mem),
                button_id(*old(ui), self.label.text@),
                measured,
            ),
            r.clicked == (query::owner_is(*old(io), button_id(*old(ui), self.label.text@)) && old(
                io,
            ).mouse_just_released && query::captured_is(
                *old(io),
                button_id(*old(ui), self.label.text@),
            ) && query::cursor_in(old(ui).l.info_spec().gtf, *old(io), r.l)),
            final(ui).s == old(ui).s,
            final(ui).id == old(ui).id,
            final(ui).pctx == old(ui).pctx,
    {
        let lid = self.lcl_id();
        let id = ui.wid(lid.as_str());
        proof {
            assert(id@ == button_id(*old(ui), self.label.text@));
        }
        let info = ui.child_info(io, mem, paint, &Hint::new(), id.as_str());
        let mut cui = Ui::new(Layout::Vert(VertLayout::new(info)), id.as_str());
        let _ = self.label.ui(&mut cui, io, mem, paint, measured);
        let pl = cui.compute_layer();
        let l: LclLayer = pl.coerce();
        proof {
            assert(l == button_layer(
                *old(ui),
                *old(io),
                *old(mem),
                button_id(*old(ui), self.label.text@),
                measured,
            ));
        }
        ui.place_layer(mem, &l, id.as_str());

        let hov = ui.hovered(io, id.as_str(), l);
        let mut col = if hov {
            ui.s.light_col.alpha(77)
        } else {
            ui.s.light_col.alpha(51)
        };
        if ui.pressed(io, id.as_str(), l) {
            col = ui.s.light_col.alpha(26);
        }
        let clicked = ui.clicked(io, id.as_str(), l);
        proof {
            assert(io.has_mouse == old(io).has_mouse);
            assert(io.mouse_captured == old(io).mouse_captured);
            assert(io.mouse_just_released == old(io).mouse_just_released);
            assert(io.mouse_pt == old(io).mouse_pt);
        }

        let saved = ui.pctx;
        ui.pctx = ui.pctx.col(col);
        ui.draw(paint, PaintOp::FillRRt { r: l.r, radius: 4 });
        ui.pctx = saved;

        Resp { l, clicked }
    }
}

/// The layer a window frame ends in, from the cursor the application
/// filled: its natural size at its slot, in the parent's local space.
pub open spec fn frame_layer(cui: Ui) -> LclLayer {
    let info = cui.l.info_spec();
    Layer {
        r: Rt2D {
            x: info.ptf.off.x,
            y: info.ptf.off.y,
            w: natural_layer_spec(info.hint).r.w,
            h: natural_layer_spec(info.hint).r.h,
            _u: core::marker::PhantomData,
        },
        z: ZOrder { z: info.ptf.z.z, _u: core::marker::PhantomData },
    }
}

/// A floating window under way: the cursor the application fills with
/// content, the window's id, and the title bar's rectangle in the
/// parent's local space.
pub struct WindowFrame {
    pub cui: Ui,
    pub id: String,
    pub title_r: LclRt,
}

/// A floating, draggable, resizable window with a title bar.
#[derive(Debug, PartialEq)]
pub struct Window {
    pub title: String,
}

impl Widget for Window {
    /// The window's local id: its title.
    fn lcl_id(&self) -> (r: String)
        ensures
            r@ == self.title@,
    {
        self.title.clone()
    }
}

impl Window {
    pub fn new(title: &str) -> (w: Window)
        ensures
            w.title@ == title@,
    {
        Self { title: id_owned(title) }
    }


    /// Open the window under `ui`: ask for an exact slot (the
    /// floating layout turns it into the persisted rectangle), start
    /// an inner stack, and place the title label. The application
    /// fills the returned frame's cursor, then closes it with `end`.
    pub fn begin(
        &self,
        ui: &mut Ui,
        io: &mut Io,
        mem: &mut Memory,
        paint: &mut Painter,
        title_sz: LclSz,
    ) -> (f: WindowFrame)
        requires
            old(mem).wf(),
            child_info_req(
                *old(ui),
                *old(io),
                *old(mem),
                combined(seq![old(ui).id@, self.title@]),
            ),
            child_info_ok(
                child_info_value(
                    *old(ui),
                    *old(io),
                    *old(mem),
                    combined(seq![old(ui).id@, self.title@]),
                    exact_wrap_hint(),
                ),
                lbl_zero_pt(),
                lz_of(1),
            ),
        ensures
            final(mem).wf(),
            final(mem).debug == old(mem).debug,
            f.id@ == combined(seq![old(ui).id@, self.title@]),
            final(ui).s == old(ui).s,
            final(ui).id == old(ui).id,
            final(ui).pctx == old(ui).pctx,
            ({
                let info = child_info_value(
                    *old(ui),
                    *old(io),
                    *old(mem),
                    combined(seq![old(ui).id@, self.title@]),
                    exact_wrap_hint(),
                );
                let cui0 = Ui { l: Layout::Vert(VertLayout { info, loc: lbl_zero_pt(), sz: lbl_zero_sz() }), ..*old(ui) };
                let lbl = child_layer_spec(cui0, *old(io), *old(mem), ""@, make_exact_spec(title_sz));
                &&& f.cui.l == Layout::Vert(
                    VertLayout { info, loc: lbl_zero_pt(), sz: lbl_zero_sz() }.advance_spec(lbl),
                )
                &&& f.title_r.x == lbl.r.x + info.ptf.off.x
                &&& f.title_r.y == lbl.r.y + info.ptf.off.y
                &&& f.title_r.w == lbl.r.w && f.title_r.h == lbl.r.h
            }),
    {
        let id = ui.wid(self.title.as_str());
        proof {
            assert(id@ == combined(seq![old(ui).id@, self.title@]));
        }
        let info = ui.child_info(
            io,
            mem,
            paint,
            &Hint::new().opt_wh(SzOpt::Exact),
            id.as_str(),
        );
        let mut cui = Ui::new(Layout::Vert(VertLayout::new(info)), id.as_str());
        let resp = Label::new(self.title.as_str()).ui(&mut cui, io, mem, paint, title_sz);
        let title_r = cui.info().ptf.rt(resp.l.r);
        WindowFrame { cui, id, title_r: title_r.coerce() }
    }

    /// Close a window frame: compute its layer, write it back into
    /// the floating layout's persisted state, and draw the backdrop
    /// one z level below its content plus the title bar's outline
    /// stretched to the window's width.
    pub fn end(ui: &mut Ui, io: &Io, mem: &mut Memory, paint: &mut Painter, f: WindowFrame) -> (r:
        Resp)
        requires
            old(mem).wf(),
            fits(frame_layer(f.cui).z.z - 1),
            match old(ui).l {
                Layout::Vert(v) => v.advance_ok(frame_layer(f.cui)),
                Layout::Resize(rl) => fits(frame_layer(f.cui).r.y + frame_layer(f.cui).r.h),
            },
        ensures
            final(mem).wf(),
            final(mem).debug == old(mem).debug,
            r.l == frame_layer(f.cui),
            !r.clicked,
            final(ui).s == old(ui).s,
            final(ui).id == old(ui).id,
            final(ui).pctx == old(ui).pctx,
            match old(ui).l {
                Layout::Vert(v) => true,
                Layout::Resize(rl) => final(mem).win_spec(old(ui).id@, f.id@) matches Some(w)
                    && w.l == frame_layer(f.cui),
            },
            final(paint).ops@.len() == old(paint).ops@.len() + 2,
            final(paint).ops@[final(paint).ops@.len() - 2].1 == (PaintOp::FillRRt {
                r: frame_layer(f.cui).r,
                radius: 4,
            }),
            final(paint).ops@.last().1 == (PaintOp::StrokeRRt {
                r: Rt2D {
                    x: f.title_r.x,
                    y: f.title_r.y,
                    w: frame_layer(f.cui).r.w,
                    h: f.title_r.h,
                    _u: f.title_r._u,
                },
                radius: 4,
            }),
    {
        let pl = f.cui.compute_layer();
        let l: LclLayer = pl.coerce();
        ui.place_layer(mem, &l, f.id.as_str());

        // Backdrop below the window's own content; title bar stretched
        // to the window's width.
        let saved = ui.pctx;
        ui.pctx = ui.pctx.z(ZOrder::new(l.z.z - 1)).col(ui.s.dark_col.alpha(242));
        ui.draw(paint, PaintOp::FillRRt { r: l.r, radius: 4 });
        let title_r = LclRt::new(f.title_r.x, f.title_r.y, l.r.w, f.title_r.h);
        ui.pctx = ui.pctx.col(ui.s.acc3_col.alpha(242));
        ui.draw(paint, PaintOp::StrokeRRt { r: title_r, radius: 4 });
        ui.pctx = saved;

        Resp { l, clicked: false }
    }
}

/// The hint a window asks its parent for: exact on both axes, with
/// no sizes of its own — the floating layout fills in the persisted
/// rectangle, and a fresh window falls back to wrapping its content.
pub open spec fn exact_wrap_hint() -> Hint {
    Hint {
        opt: (SzOpt::Exact, SzOpt::Exact),
        grav: (crate::hint::Grav::Begin, crate::hint::Grav::Begin),
        min: None,
        max: None,
        req: None,
    }
}

} // verus!
