//! Widget-level input queries.
//!
//! A widget asks, against its own transform to global space, whether
//! it is hovered, pressed or clicked. Asking is not passive: a hovered
//! widget files a hover request and a pressed widget prolongs its
//! capture, so the next frame boundary can arbitrate between everyone
//! who asked.

use vstd::prelude::*;

use crate::io::{mouse_capture_rel, mouse_req_rel, Io};
use crate::layer::{GblTf, LclLayer};
use crate::types::{fits, GblZ, Pt, Pt2D, ZOrder};

verus! {

/// Whether `id` owns hover this frame.
pub open spec fn owner_is(io: Io, id: Seq<char>) -> bool {
    match io.has_mouse {
        Some(h) => h@ == id,
        None => false,
    }
}

/// Whether `id` holds pointer capture this frame.
pub open spec fn captured_is(io: Io, id: Seq<char>) -> bool {
    match io.mouse_captured {
        Some(c) => c@ == id,
        None => false,
    }
}

/// The z-order of the box `l` seen in global space under `g`.
pub open spec fn global_z(g: GblTf, l: LclLayer) -> GblZ {
    ZOrder { z: (g.z.z + l.z.z) as i64, _u: core::marker::PhantomData }
}

/// Whether the cursor lies inside the box `l` once placed into global
/// space by `g`.
pub open spec fn cursor_in(g: GblTf, io: Io, l: LclLayer) -> bool {
    &&& io.mouse_pt.x >= l.r.x + g.off.x
    &&& io.mouse_pt.y >= l.r.y + g.off.y
    &&& io.mouse_pt.x <= l.r.x + g.off.x + l.r.w
    &&& io.mouse_pt.y <= l.r.y + g.off.y + l.r.h
}

/// True when placing `l` into global space stays representable.
pub open spec fn query_ok(g: GblTf, l: LclLayer) -> bool {
    &&& fits(l.r.x + g.off.x)
    &&& fits(l.r.y + g.off.y)
    &&& fits(l.r.x + g.off.x + l.r.w)
    &&& fits(l.r.y + g.off.y + l.r.h)
    &&& fits(g.z.z + l.z.z)
}

/// Whether a `pressed` query for `id` keeps or takes capture: the
/// button is down and `id` either already holds capture or has the
/// cursor inside its box.
pub open spec fn press_holds(g: GblTf, io: Io, id: Seq<char>, l: LclLayer) -> bool {
    io.is_mouse_pressed && (captured_is(io, id) || cursor_in(g, io, l))
}

/// Whether `id`, with hit-box `l` under `g`, is hovered: the cursor is
/// inside the box and `id` owns hover. Asking files a hover request at
/// the box's global z whenever the cursor is inside.
pub fn hovered_in(g: &GblTf, io: &mut Io, id: &str, l: LclLayer) -> (r: bool)
    requires
        query_ok(*g, l),
    ensures
        r == (owner_is(*old(io), id@) && cursor_in(*g, *old(io), l)),
        cursor_in(*g, *old(io), l) ==> mouse_req_rel(*old(io), *final(io), global_z(*g, l), id@),
        !cursor_in(*g, *old(io), l) ==> *final(io) == *old(io),
{
    let gl = g.layer(l);
    let contained = gl.contains(io.mouse_pt);
    if contained {
        io.mouse_req(gl.z, id);
    }
    let owner = match &io.has_mouse {
        Some(h) => h.eq(&crate::ident::id_owned(id)),
        None => false,
    };
    owner && contained
}

/// Whether `id`, with hit-box `l` under `g`, is pressed: the press
/// holds (button down and capture or cursor) and `id` owns hover.
/// Asking prolongs the capture whenever the press holds.
pub fn pressed_in(g: &GblTf, io: &mut Io, id: &str, l: LclLayer) -> (r: bool)
    requires
        query_ok(*g, l),
    ensures
        r == (owner_is(*old(io), id@) && press_holds(*g, *old(io), id@, l)),
        press_holds(*g, *old(io), id@, l) ==> mouse_capture_rel(
            *old(io),
            *final(io),
            global_z(*g, l),
            id@,
        ),
        !press_holds(*g, *old(io), id@, l) ==> *final(io) == *old(io),
{
    let gl = g.layer(l);
    let ids = crate::ident::id_owned(id);
    let already = match &io.mouse_captured {
        Some(c) => c.eq(&ids),
        None => false,
    };
    let capture = io.is_mouse_pressed && (already || gl.contains(io.mouse_pt));
    if capture {
        io.mouse_capture(gl.z, id);  // Prolong the capture.
    }
    let owner = match &io.has_mouse {
        Some(h) => h.eq(&ids),
        None => false,
    };
    owner && capture
}

/// Whether `id`, with hit-box `l` under `g`, was clicked: it owns
/// hover, the button was just released, it held capture up to the
/// release, and the cursor is still inside the box.
pub fn clicked_in(g: &GblTf, io: &Io, id: &str, l: LclLayer) -> (r: bool)
    requires
        query_ok(*g, l),
    ensures
        r == (owner_is(*io, id@) && io.mouse_just_released && captured_is(*io, id@) && cursor_in(
            *g,
            *io,
            l,
        )),
{
    let gl = g.layer(l);
    let ids = crate::ident::id_owned(id);
    let owner = match &io.has_mouse {
        Some(h) => h.eq(&ids),
        None => false,
    };
    let captured = match &io.mouse_captured {
        Some(c) => c.eq(&ids),
        None => false,
    };
    owner && io.mouse_just_released && captured && gl.contains(io.mouse_pt)
}

/// The scroll delta for `id` this frame: the accumulated wheel delta
/// when it is hovered, zero otherwise. Asking files the hover request.
pub fn scrolled_in(g: &GblTf, io: &mut Io, id: &str, l: LclLayer) -> (r: Pt)
    requires
        query_ok(*g, l),
    ensures
        owner_is(*old(io), id@) && cursor_in(*g, *old(io), l) ==> r == old(io).mouse_scroll,
        !(owner_is(*old(io), id@) && cursor_in(*g, *old(io), l)) ==> r.x == 0 && r.y == 0,
        cursor_in(*g, *old(io), l) ==> mouse_req_rel(*old(io), *final(io), global_z(*g, l), id@),
        !cursor_in(*g, *old(io), l) ==> *final(io) == *old(io),
{
    if hovered_in(g, io, id, l) {
        io.mouse_scroll
    } else {
        Pt2D::zero()
    }
}

} // verus!
