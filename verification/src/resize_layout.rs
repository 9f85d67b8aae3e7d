//! The floating-resizable (window-manager) layout strategy.
//!
//! Each direct child is a window keyed by its id. A window with
//! persisted state first runs the resize/drag machine against the
//! pointer, then is offered an exact hint equal to its (possibly
//! dragged) rectangle; a window seen for the first time is offered its
//! natural size at the cascade cursor, one fresh top z-order up. After
//! the child lays itself out, its final rectangle is written back and
//! the cascade cursor moves below it.

use vstd::prelude::*;

use crate::hint::Hint;
use crate::io::Io;
use crate::layer::{GblTf, Layer, LclLayer};
use crate::layout::{child_hint_spec, child_info_ok, compute_child_info, LayoutInfo};
use crate::memory::Memory;
use crate::painter::Painter;
use crate::io::{capture_slot, hover_slot};
use crate::query::{
    cursor_in, global_z, hovered_in, owner_is, press_holds, pressed_in, query_ok,
};
use crate::resize::{
    cursor_spec, delta_rt_spec, get_resize_info, resize_dir, resize_dir_ok, resize_dir_spec,
    CursorIcon, WindowState, RESIZE_INSET_DP, Z_OFF,
};
use crate::types::{fits, lz_of, LclPt, LclSz, Pt2D, Rt2D, Sz2D, ZOrder};

verus! {

/// The floating-window strategy: its layout snapshot and the cascade
/// cursor where un-positioned windows go.
#[derive(Clone, Copy, Debug, PartialEq)]
pub struct ResizeLayout {
    pub info: LayoutInfo,
    pub loc: LclPt,
}

/// The hit-box of a window: its layer grown outward by the resize
/// band.
pub open spec fn hitbox_spec(w: WindowState) -> LclLayer {
    Layer { r: w.l.r.inset_xy_spec(RESIZE_INSET_DP as int, RESIZE_INSET_DP as int), z: w.l.z }
}

/// The window state at the moment capture begins: the press point is
/// mapped into local space, the sticky direction is chosen from it,
/// the press-time rectangle is recorded, and the window is raised to a
/// fresh top z.
pub open spec fn grab_spec(g: GblTf, io: Io, topz: int, w: WindowState) -> WindowState {
    let ms = Pt2D {
        x: (io.mouse_pressed_pt.x - g.off.x) as i64,
        y: (io.mouse_pressed_pt.y - g.off.y) as i64,
        _u: core::marker::PhantomData,
    };
    WindowState {
        l: Layer { r: w.l.r, z: ZOrder { z: (topz + Z_OFF) as i64, _u: core::marker::PhantomData } },
        dir: resize_dir_spec(hitbox_spec(w), ms),
        mouse_st: ms,
        rt_st: w.l.r,
    }
}

/// The window state after one captured frame: the cursor delta since
/// the press, in local space, turned into the direction's rectangle
/// delta and applied to the press-time rectangle.
pub open spec fn drag_spec(g: GblTf, io: Io, w: WindowState) -> WindowState {
    let dt = Sz2D {
        w: (io.mouse_pt.x - g.off.x - w.mouse_st.x) as i64,
        h: (io.mouse_pt.y - g.off.y - w.mouse_st.y) as i64,
        _u: core::marker::PhantomData,
    };
    let d = delta_rt_spec(dt, w.dir);
    WindowState {
        l: Layer {
            r: Rt2D {
                x: (w.rt_st.x + d.x) as i64,
                y: (w.rt_st.y + d.y) as i64,
                w: (w.rt_st.w + d.w) as i64,
                h: (w.rt_st.h + d.h) as i64,
                _u: w.rt_st._u,
            },
            z: w.l.z,
        },
        ..w
    }
}

/// Whether the window is pressed this frame (it owns hover and the
/// press holds on its hit-box).
pub open spec fn window_pressed(g: GblTf, io: Io, id: Seq<char>, w: WindowState) -> bool {
    owner_is(io, id) && press_holds(g, io, id, hitbox_spec(w))
}

/// What one frame of interaction does to a window with persisted
/// state: pressed windows grab on the capture edge and then drag;
/// anything else is left as it was.
pub open spec fn interact_spec(g: GblTf, io: Io, topz: int, w: WindowState, id: Seq<char>) -> WindowState {
    if window_pressed(g, io, id, w) {
        let w1 = if io.mouse_just_captured {
            grab_spec(g, io, topz, w)
        } else {
            w
        };
        drag_spec(g, io, w1)
    } else {
        w
    }
}

/// Overflow bounds for shifting rectangle `b` by a delta `(dw, dh)`
/// under any direction: origin and both signed extent changes stay
/// representable.
pub open spec fn rect_shift_ok(b: Rt2D<crate::types::LclType>, dw: int, dh: int) -> bool {
    &&& fits(b.x + dw)
    &&& fits(b.y + dh)
    &&& fits(b.w + dw)
    &&& fits(b.w - dw)
    &&& fits(b.h + dh)
    &&& fits(b.h - dh)
    &&& fits(-dw)
    &&& fits(-dh)
}

/// The conditions under which `interact` stays representable, for
/// both the fresh-grab and the running-session paths.
pub open spec fn interact_ok(g: GblTf, io: Io, topz: int, w: WindowState) -> bool {
    let hb = hitbox_spec(w);
    &&& w.l.r.inset_ok(RESIZE_INSET_DP as int, RESIZE_INSET_DP as int)
    &&& query_ok(g, hb)
    &&& resize_dir_ok(hb)
    &&& fits(-g.off.x) && fits(-g.off.y) && fits(-g.z.z)
    &&& fits(io.mouse_pt.x - g.off.x) && fits(io.mouse_pt.y - g.off.y)
    &&& fits(io.mouse_pressed_pt.x - g.off.x) && fits(io.mouse_pressed_pt.y - g.off.y)
    &&& fits(topz + Z_OFF)
    &&& fits(io.mouse_pt.x - io.mouse_pressed_pt.x) && fits(io.mouse_pt.y - io.mouse_pressed_pt.y)
    &&& fits(io.mouse_pt.x - g.off.x - w.mouse_st.x) && fits(io.mouse_pt.y - g.off.y - w.mouse_st.y)
    &&& rect_shift_ok(w.l.r, io.mouse_pt.x - io.mouse_pressed_pt.x, io.mouse_pt.y - io.mouse_pressed_pt.y)
    &&& rect_shift_ok(w.rt_st, io.mouse_pt.x - g.off.x - w.mouse_st.x, io.mouse_pt.y - g.off.y - w.mouse_st.y)
}

impl ResizeLayout {
    pub fn new(info: LayoutInfo) -> (r: Self)
        ensures
            r.info == info,
            r.loc.x == 0 && r.loc.y == 0,
    {
        Self { info, loc: LclPt::zero() }
    }

    /// The hit-box of a window under this layout.
    pub fn hitbox(&self, w: &WindowState) -> (r: LclLayer)
        requires
            w.l.r.inset_ok(RESIZE_INSET_DP as int, RESIZE_INSET_DP as int),
        ensures
            r == hitbox_spec(*w),
    {
        w.l.inset(LclSz::new(RESIZE_INSET_DP, RESIZE_INSET_DP))
    }

    /// Run one frame of the resize/drag machine for window `child_id`
    /// of the layout widget `ui_id`, whose persisted state is `w`.
    /// The result is `interact_spec`; a press prolongs the capture and
    /// reports the direction's cursor; a fresh grab raises the top z;
    /// a mere hover files the hover request and reports the hotspot's
    /// cursor.
    pub fn interact(
        &self,
        io: &mut Io,
        mem: &mut Memory,
        paint: &mut Painter,
        ui_id: &str,
        child_id: &str,
        w: WindowState,
    ) -> (r: WindowState)
        requires
            old(mem).wf(),
            interact_ok(self.info.gtf, *old(io), old(mem).top_z_spec(ui_id@), w),
        ensures
            r == interact_spec(
                self.info.gtf,
                *old(io),
                old(mem).top_z_spec(ui_id@),
                w,
                child_id@,
            ),
            final(mem).wf(),
            final(mem).debug == old(mem).debug,
            forall|u: Seq<char>, c: Seq<char>|
                final(mem).win_spec(u, c) == old(mem).win_spec(u, c),
            window_pressed(self.info.gtf, *old(io), child_id@, w)
                && old(io).mouse_just_captured ==> final(mem).top_z_spec(ui_id@) == old(
                mem,
            ).top_z_spec(ui_id@) + Z_OFF,
            !(window_pressed(self.info.gtf, *old(io), child_id@, w)
                && old(io).mouse_just_captured) ==> forall|u: Seq<char>|
                final(mem).top_z_spec(u) == old(mem).top_z_spec(u),
            forall|u: Seq<char>|
                u != ui_id@ ==> final(mem).top_z_spec(u) == old(mem).top_z_spec(u),
            *final(io) == (Io {
                mouse_req: final(io).mouse_req,
                mouse_capture_req: final(io).mouse_capture_req,
                ..*old(io)
            }),
            press_holds(self.info.gtf, *old(io), child_id@, hitbox_spec(w)) ==> capture_slot(
                *old(io),
                *final(io),
                global_z(self.info.gtf, hitbox_spec(w)),
                child_id@,
            ),
            !press_holds(self.info.gtf, *old(io), child_id@, hitbox_spec(w))
                ==> final(io).mouse_capture_req == old(io).mouse_capture_req,
            !window_pressed(self.info.gtf, *old(io), child_id@, w) && cursor_in(
                self.info.gtf,
                *old(io),
                hitbox_spec(w),
            ) ==> hover_slot(*old(io), *final(io), global_z(self.info.gtf, hitbox_spec(w)), child_id@),
            window_pressed(self.info.gtf, *old(io), child_id@, w) || !cursor_in(
                self.info.gtf,
                *old(io),
                hitbox_spec(w),
            ) ==> final(io).mouse_req == old(io).mouse_req,
            *final(paint) == (Painter { cursor: final(paint).cursor, ..*old(paint) }),
            final(paint).cursor == interact_cursor(
                self.info.gtf,
                *old(io),
                child_id@,
                w,
                old(paint).cursor,
            ),
    {
        let ltf = self.info.gtf.inv();
        let hitbox = self.hitbox(&w);
        let mut w = w;
        if pressed_in(&self.info.gtf, io, child_id, hitbox) {
            if io.mouse_just_captured {
                // Capture begins this frame: choose the sticky
                // direction, record the session start, raise the
                // window.
                let mouse_st = ltf.pt(io.mouse_pressed_pt);
                w.dir = resize_dir(&hitbox, mouse_st);
                w.mouse_st = mouse_st;
                w.rt_st = w.l.r;
                w.l.z = mem.next_z(ui_id);
            }
            let mouse_dt = ltf.pt(io.mouse_pt).sub(w.mouse_st).to_sz();
            let ri = get_resize_info(mouse_dt, w.dir, true);
            w.l.r = w.rt_st.add(ri.delta_rt);
            paint.set_cursor(ri.cursor);
        } else if hovered_in(&self.info.gtf, io, child_id, hitbox) {
            let ri = get_resize_info(
                LclSz::zero(),
                resize_dir(&hitbox, ltf.pt(io.mouse_pt)),
                false,
            );
            paint.set_cursor(ri.cursor);
        }
        w
    }
}

/// The slot a window is offered: a window with persisted state is
/// offered exactly its (already interacted) rectangle and z; a fresh
/// window goes to the cascade cursor at the next top z.
pub open spec fn window_slot(
    lay: ResizeLayout,
    io: Io,
    mem: Memory,
    ui_id: Seq<char>,
    child_id: Seq<char>,
) -> (LclPt, int) {
    match mem.win_spec(ui_id, child_id) {
        Some(w) => {
            let w1 = interact_spec(lay.info.gtf, io, mem.top_z_spec(ui_id), w, child_id);
            (Pt2D { x: w1.l.r.x, y: w1.l.r.y, _u: core::marker::PhantomData }, w1.l.z.z as int)
        },
        None => (lay.loc, mem.top_z_spec(ui_id) + Z_OFF),
    }
}

/// The hint a window is offered: its own, with the persisted (already
/// interacted) rectangle's size as the request when one exists.
pub open spec fn window_hint(
    lay: ResizeLayout,
    io: Io,
    mem: Memory,
    ui_id: Seq<char>,
    child_id: Seq<char>,
    hint: Hint,
) -> Hint {
    match mem.win_spec(ui_id, child_id) {
        Some(w) => {
            let w1 = interact_spec(lay.info.gtf, io, mem.top_z_spec(ui_id), w, child_id);
            Hint {
                req: Some(Sz2D { w: w1.l.r.w, h: w1.l.r.h, _u: core::marker::PhantomData }),
                ..hint
            }
        },
        None => hint,
    }
}

impl ResizeLayout {
    /// Compute where and how large window `child_id` may be: a stored
    /// window first runs the interaction machine, has its new state
    /// written back, and is offered exactly its rectangle; a fresh one
    /// is offered its own hint at the cascade cursor, one fresh top z
    /// up.
    pub fn child_info(
        &mut self,
        io: &mut Io,
        mem: &mut Memory,
        paint: &mut Painter,
        ui_id: &str,
        hint: &Hint,
        child_id: &str,
    ) -> (r: LayoutInfo)
        requires
            old(mem).wf(),
            fits(old(mem).top_z_spec(ui_id@) + Z_OFF),
            match old(mem).win_spec(ui_id@, child_id@) {
                Some(w) => {
                    let w1 = interact_spec(
                        old(self).info.gtf,
                        *old(io),
                        old(mem).top_z_spec(ui_id@),
                        w,
                        child_id@,
                    );
                    &&& interact_ok(
                        old(self).info.gtf,
                        *old(io),
                        old(mem).top_z_spec(ui_id@),
                        w,
                    )
                    &&& child_info_ok(
                        old(self).info,
                        Pt2D { x: w1.l.r.x, y: w1.l.r.y, _u: core::marker::PhantomData },
                        w1.l.z,
                    )
                },
                None => child_info_ok(
                    old(self).info,
                    old(self).loc,
                    lz_of(old(mem).top_z_spec(ui_id@) + Z_OFF),
                ),
            },
        ensures
            *final(self) == *old(self),
            final(mem).wf(),
            final(mem).debug == old(mem).debug,
            forall|u: Seq<char>|
                u != ui_id@ ==> final(mem).top_z_spec(u) == old(mem).top_z_spec(u),
            *final(io) == (Io {
                mouse_req: final(io).mouse_req,
                mouse_capture_req: final(io).mouse_capture_req,
                ..*old(io)
            }),
            *final(paint) == (Painter { cursor: final(paint).cursor, ..*old(paint) }),
            ({
                let (off, z) = window_slot(*old(self), *old(io), *old(mem), ui_id@, child_id@);
                &&& r.ptf.off.x == off.x && r.ptf.off.y == off.y && r.ptf.z.z == z
                &&& r.gtf.off.x == off.x + old(self).info.gtf.off.x
                &&& r.gtf.off.y == off.y + old(self).info.gtf.off.y
                &&& r.gtf.z.z == z + old(self).info.gtf.z.z
                &&& r.hint == child_hint_spec(
                    old(self).info,
                    off,
                    window_hint(*old(self), *old(io), *old(mem), ui_id@, child_id@, *hint),
                )
                &&& r == crate::layout::child_info_result(
                    old(self).info,
                    off,
                    lz_of(z),
                    window_hint(*old(self), *old(io), *old(mem), ui_id@, child_id@, *hint),
                )
            }),
            match old(mem).win_spec(ui_id@, child_id@) {
                Some(w) => {
                    let w1 = interact_spec(
                        old(self).info.gtf,
                        *old(io),
                        old(mem).top_z_spec(ui_id@),
                        w,
                        child_id@,
                    );
                    &&& final(mem).win_spec(ui_id@, child_id@) == Some(w1)
                    &&& forall|u: Seq<char>, c: Seq<char>|
                        !(u == ui_id@ && c == child_id@) ==> final(mem).win_spec(u, c) == old(
                            mem,
                        ).win_spec(u, c)
                },
                None => {
                    &&& forall|u: Seq<char>, c: Seq<char>|
                        final(mem).win_spec(u, c) == old(mem).win_spec(u, c)
                    &&& final(mem).top_z_spec(ui_id@) == old(mem).top_z_spec(ui_id@) + Z_OFF
                    &&& *final(io) == *old(io)
                    &&& *final(paint) == *old(paint)
                },
            },
    {
        let w0 = mem.win_get(ui_id, child_id);
        match w0 {
            Some(w) => {
                let w1 = self.interact(io, mem, paint, ui_id, child_id, w);
                mem.win_set(ui_id, child_id, w1);
                compute_child_info(
                    &self.info,
                    w1.l.r.tl(),
                    w1.l.z,
                    &(Hint { req: Some(w1.l.r.sz()), ..*hint }),
                )
            },
            None => {
                let z = mem.next_z(ui_id);
                compute_child_info(&self.info, self.loc, z, hint)
            },
        }
    }

    /// Record a window's final rectangle back into its persisted
    /// state (creating one on first placement) and move the cascade
    /// cursor below it.
    pub fn place_layer(&mut self, mem: &mut Memory, ui_id: &str, l: &LclLayer, child_id: &str)
        requires
            old(mem).wf(),
            fits(l.r.y + l.r.h),
        ensures
            final(self).info == old(self).info,
            final(self).loc.x == old(self).loc.x,
            final(self).loc.y == l.r.y + l.r.h,
            final(mem).wf(),
            final(mem).debug == old(mem).debug,
            forall|u: Seq<char>| final(mem).top_z_spec(u) == old(mem).top_z_spec(u),
            forall|u: Seq<char>, c: Seq<char>|
                !(u == ui_id@ && c == child_id@) ==> final(mem).win_spec(u, c) == old(
                    mem,
                ).win_spec(u, c),
            final(mem).win_spec(ui_id@, child_id@) == Some(
                match old(mem).win_spec(ui_id@, child_id@) {
                    Some(w) => WindowState { l: *l, ..w },
                    None => WindowState {
                        l: *l,
                        dir: crate::resize::ResizeDir::Move,
                        mouse_st: Pt2D { x: 0, y: 0, _u: core::marker::PhantomData },
                        rt_st: Rt2D { x: 0, y: 0, w: 0, h: 0, _u: core::marker::PhantomData },
                    },
                },
            ),
    {
        let w = match mem.win_get(ui_id, child_id) {
            Some(w) => WindowState { l: *l, ..w },
            None => WindowState::new(*l),
        };
        mem.win_set(ui_id, child_id, w);
        self.loc = LclPt::new(self.loc.x, l.r.b());
    }
}

/// The cursor icon `interact` leaves: the active direction's icon
/// while pressed, the hovered hotspot's icon while merely hovered,
/// and whatever was there before otherwise.
pub open spec fn interact_cursor(
    g: GblTf,
    io: Io,
    id: Seq<char>,
    w: WindowState,
    prev: CursorIcon,
) -> CursorIcon {
    let hb = hitbox_spec(w);
    if window_pressed(g, io, id, w) {
        let w1 = if io.mouse_just_captured {
            grab_spec(g, io, 0, w)
        } else {
            w
        };
        cursor_spec(w1.dir, true)
    } else if owner_is(io, id) && cursor_in(g, io, hb) {
        let ms = Pt2D {
            x: (io.mouse_pt.x - g.off.x) as i64,
            y: (io.mouse_pt.y - g.off.y) as i64,
            _u: core::marker::PhantomData,
        };
        cursor_spec(resize_dir_spec(hb, ms), false)
    } else {
        prev
    }
}

} // verus!
