//! Frame-scoped input state and arbitration.
//!
//! One `Io` value holds the process-wide input state. During a frame
//! body widgets file hover requests (`mouse_req`) and capture requests
//! (`mouse_capture`); at the next frame boundary (`begin`) the previous
//! frame's requests become the authoritative hover and capture owners,
//! with capture taking precedence over hover. `end` clears the per-frame
//! edge flags and the scroll accumulator.

use vstd::prelude::*;

use crate::ident::id_owned;
use crate::types::{fits, GblPt, GblSz, GblZ, Pt};

verus! {

/// Whether two optional widget ids name the same widget (by content).
pub open spec fn same_id(a: Option<String>, b: Option<String>) -> bool {
    match (a, b) {
        (Some(x), Some(y)) => x@ == y@,
        (None, None) => true,
        _ => false,
    }
}

/// The id of a filed request, if any.
pub open spec fn req_id(req: Option<(GblZ, String)>) -> Option<String> {
    match req {
        Some(t) => Some(t.1),
        None => None,
    }
}

/// The process-wide input state; a single live instance per frame.
pub struct Io {
    /// Logical screen size.
    pub scr_sz: GblSz,
    /// The widget that owns hover this frame; capture wins it outright.
    pub has_mouse: Option<String>,
    /// The widget that owns keyboard focus this frame.
    pub has_kbd: Option<String>,
    /// The widget holding keyboard capture.
    pub kbd_captured: Option<String>,
    /// Cursor position, in global logical units.
    pub mouse_pt: GblPt,
    /// Cursor position at the previous frame boundary.
    pub prev_mouse_pt: GblPt,
    /// Cursor movement between the last two frame boundaries.
    pub mouse_delta: GblPt,
    /// The widget holding pointer-button capture this frame.
    pub mouse_captured: Option<String>,
    /// Whether the primary button is down.
    pub is_mouse_pressed: bool,
    /// Where the primary button last changed state.
    pub mouse_pressed_pt: GblPt,
    /// Edge flag: the button was released since the last frame boundary.
    pub mouse_just_released: bool,
    /// Edge flag: capture ownership changed at the last frame boundary.
    pub mouse_just_captured: bool,
    /// Scroll delta accumulated over the frame, cleared at `end`.
    pub mouse_scroll: Pt,
    /// The best hover request filed so far this frame.
    pub mouse_req: Option<(GblZ, String)>,
    /// The best capture request filed so far this frame.
    pub mouse_capture_req: Option<(GblZ, String)>,
    /// Frames begun so far.
    pub frame_num: u64,
}

/// How `begin` advances the state: the previous frame's capture request
/// (if any) becomes the capture owner and wins hover outright; otherwise
/// the previous frame's hover request wins hover; both request slots
/// empty out; the capture-change edge flag fires exactly the frame
/// capture ownership changes; the cursor delta is refreshed;
/// everything else is untouched.
pub open spec fn begin_rel(pre: Io, post: Io) -> bool {
    &&& post.frame_num == pre.frame_num + 1
    &&& post.mouse_delta.x == pre.mouse_pt.x - pre.prev_mouse_pt.x
    &&& post.mouse_delta.y == pre.mouse_pt.y - pre.prev_mouse_pt.y
    &&& post.mouse_just_captured == !same_id(pre.mouse_captured, req_id(pre.mouse_capture_req))
    &&& post.mouse_captured == req_id(pre.mouse_capture_req)
    &&& post.has_mouse == (if pre.mouse_capture_req is Some {
        req_id(pre.mouse_capture_req)
    } else {
        req_id(pre.mouse_req)
    })
    &&& post.mouse_req is None
    &&& post.mouse_capture_req is None
    &&& post.scr_sz == pre.scr_sz
    &&& post.mouse_pt == pre.mouse_pt
    &&& post.prev_mouse_pt == pre.prev_mouse_pt
    &&& post.is_mouse_pressed == pre.is_mouse_pressed
    &&& post.mouse_pressed_pt == pre.mouse_pressed_pt
    &&& post.mouse_just_released == pre.mouse_just_released
    &&& post.mouse_scroll == pre.mouse_scroll
    &&& post.kbd_captured == pre.kbd_captured
    &&& post.has_kbd == pre.has_kbd
}

/// How the hover request slot alone answers a request: an empty slot
/// always takes it, and a filed one is replaced exactly when the new
/// z is at least the old (so at equal z the later call wins).
pub open spec fn hover_slot(pre: Io, post: Io, z: GblZ, id: Seq<char>) -> bool {
    if pre.mouse_req is None || z.z >= pre.mouse_req->Some_0.0.z {
        match post.mouse_req {
            Some(t) => t.0 == z && t.1@ == id,
            None => false,
        }
    } else {
        post.mouse_req == pre.mouse_req
    }
}

/// How `mouse_req` updates the state: only the hover request slot
/// moves, as `hover_slot` says.
pub open spec fn mouse_req_rel(pre: Io, post: Io, z: GblZ, id: Seq<char>) -> bool {
    &&& post == (Io { mouse_req: post.mouse_req, ..pre })
    &&& hover_slot(pre, post, z, id)
}

/// Whether a capture request `(z, id)` replaces the filed one: an empty
/// slot always takes it; a filed request is replaced only when it is not
/// the active capture prolonging itself, and either the new z is at
/// least the filed one's or the requester is the active capture owner.
pub open spec fn capture_takes(pre: Io, z: GblZ, id: Seq<char>) -> bool {
    match pre.mouse_capture_req {
        None => true,
        Some(req) => {
            let prolonged = match pre.mouse_captured {
                Some(c) => c@ == req.1@,
                None => false,
            };
            let owner = match pre.mouse_captured {
                Some(c) => c@ == id,
                None => false,
            };
            !prolonged && (z.z >= req.0.z || owner)
        },
    }
}

/// How the capture request slot alone answers a request.
pub open spec fn capture_slot(pre: Io, post: Io, z: GblZ, id: Seq<char>) -> bool {
    if capture_takes(pre, z, id) {
        match post.mouse_capture_req {
            Some(t) => t.0 == z && t.1@ == id,
            None => false,
        }
    } else {
        post.mouse_capture_req == pre.mouse_capture_req
    }
}

/// How `mouse_capture` updates the state: only the capture request
/// slot moves, as `capture_slot` says.
pub open spec fn mouse_capture_rel(pre: Io, post: Io, z: GblZ, id: Seq<char>) -> bool {
    &&& post == (Io { mouse_capture_req: post.mouse_capture_req, ..pre })
    &&& capture_slot(pre, post, z, id)
}

impl Io {
    /// A fresh input state for a screen of the given size: no owners, no
    /// requests, all flags down, the cursor at the origin.
    pub fn new(scr_sz: GblSz) -> (io: Io)
        ensures
            io.scr_sz == scr_sz,
            io.has_mouse is None,
            io.has_kbd is None,
            io.kbd_captured is None,
            io.mouse_captured is None,
            io.mouse_req is None,
            io.mouse_capture_req is None,
            !io.is_mouse_pressed,
            !io.mouse_just_released,
            !io.mouse_just_captured,
            io.mouse_pt.x == 0 && io.mouse_pt.y == 0,
            io.prev_mouse_pt.x == 0 && io.prev_mouse_pt.y == 0,
            io.mouse_delta.x == 0 && io.mouse_delta.y == 0,
            io.mouse_pressed_pt.x == 0 && io.mouse_pressed_pt.y == 0,
            io.mouse_scroll.x == 0 && io.mouse_scroll.y == 0,
            io.frame_num == 0,
    {
        Io {
            scr_sz,
            has_mouse: None,
            has_kbd: None,
            kbd_captured: None,
            mouse_pt: GblPt::zero(),
            prev_mouse_pt: GblPt::zero(),
            mouse_delta: GblPt::zero(),
            mouse_captured: None,
            is_mouse_pressed: false,
            mouse_pressed_pt: GblPt::zero(),
            mouse_just_released: false,
            mouse_just_captured: false,
            mouse_scroll: Pt::zero(),
            mouse_req: None,
            mouse_capture_req: None,
            frame_num: 0,
        }
    }

    /// Advance to a new frame: arbitrate the previous frame's requests.
    pub fn begin(&mut self)
        requires
            old(self).frame_num < u64::MAX,
            fits(old(self).mouse_pt.x - old(self).prev_mouse_pt.x),
            fits(old(self).mouse_pt.y - old(self).prev_mouse_pt.y),
        ensures
            begin_rel(*old(self), *final(self)),
    {
        self.frame_num = self.frame_num + 1;
        self.mouse_delta = self.mouse_pt.sub(self.prev_mouse_pt);

        // Capture first: it takes precedence. The edge flag fires
        // exactly when the capture owner is about to change.
        let new_captured = match self.mouse_capture_req.take() {
            Some(t) => Some(t.1),
            None => None,
        };
        self.mouse_just_captured = match (&self.mouse_captured, &new_captured) {
            (Some(c), Some(n)) => !c.eq(n),
            (None, None) => false,
            _ => true,
        };
        self.mouse_captured = new_captured;
        self.has_mouse = match &self.mouse_captured {
            Some(c) => Some(c.clone()),
            None => None,
        };

        // Then the regular hover requests.
        let req = self.mouse_req.take();
        if self.has_mouse.is_none() {
            self.has_mouse = match req {
                Some(t) => Some(t.1),
                None => None,
            };
        }
    }

    /// Close the frame: drop the edge flags and the scroll accumulator,
    /// and remember the cursor position for the next delta.
    pub fn end(&mut self)
        ensures
            *final(self) == (Io {
                mouse_just_captured: false,
                mouse_just_released: false,
                mouse_scroll: final(self).mouse_scroll,
                prev_mouse_pt: old(self).mouse_pt,
                ..*old(self)
            }),
            final(self).mouse_scroll.x == 0 && final(self).mouse_scroll.y == 0,
    {
        self.mouse_just_captured = false;
        self.mouse_just_released = false;
        self.mouse_scroll = Pt::zero();
        self.prev_mouse_pt = self.mouse_pt;
    }

    /// File a hover request for `id` at z-order `z`.
    pub fn mouse_req(&mut self, z: GblZ, id: &str)
        ensures
            mouse_req_rel(*old(self), *final(self), z, id@),
    {
        let update = match &self.mouse_req {
            Some(t) => z.z >= t.0.z,
            None => true,
        };
        if update {
            self.mouse_req = Some((z, id_owned(id)));
        }
    }

    /// File a capture request for `id` at z-order `z`; an active capture
    /// prolonging itself cannot be displaced.
    pub fn mouse_capture(&mut self, z: GblZ, id: &str)
        ensures
            mouse_capture_rel(*old(self), *final(self), z, id@),
    {
        let ids = id_owned(id);
        let update = match &self.mouse_capture_req {
            Some(req) => {
                let prolonged = match &self.mouse_captured {
                    Some(c) => c.eq(&req.1),
                    None => false,
                };
                let owner = match &self.mouse_captured {
                    Some(c) => c.eq(&ids),
                    None => false,
                };
                !prolonged && (z.z >= req.0.z || owner)
            },
            None => true,
        };
        if update {
            self.mouse_capture_req = Some((z, ids));
        }
    }

    /// Record a cursor move.
    pub fn on_cursor_moved(&mut self, p: GblPt)
        ensures
            *final(self) == (Io { mouse_pt: p, ..*old(self) }),
    {
        self.mouse_pt = p;
    }

    /// Record a change of the logical screen size.
    pub fn on_resized(&mut self, sz: GblSz)
        ensures
            *final(self) == (Io { scr_sz: sz, ..*old(self) }),
    {
        self.scr_sz = sz;
    }

    /// Accumulate a scroll step into the frame's scroll delta.
    pub fn on_scroll(&mut self, d: Pt)
        requires
            fits(old(self).mouse_scroll.x + d.x),
            fits(old(self).mouse_scroll.y + d.y),
        ensures
            *final(self) == (Io { mouse_scroll: final(self).mouse_scroll, ..*old(self) }),
            final(self).mouse_scroll.x == old(self).mouse_scroll.x + d.x,
            final(self).mouse_scroll.y == old(self).mouse_scroll.y + d.y,
    {
        self.mouse_scroll = self.mouse_scroll.add(d);
    }

    /// Record a press or release of the primary button: the release
    /// edge fires when a press was pending, and the press origin is
    /// refreshed either way.
    pub fn on_mouse_button(&mut self, pressed: bool)
        ensures
            *final(self) == (Io {
                mouse_just_released: !pressed && old(self).is_mouse_pressed,
                is_mouse_pressed: pressed,
                mouse_pressed_pt: old(self).mouse_pt,
                ..*old(self)
            }),
    {
        self.mouse_just_released = !pressed && self.is_mouse_pressed;
        self.is_mouse_pressed = pressed;
        self.mouse_pressed_pt = self.mouse_pt;
    }
}

/// Hover arbitration by z-order: when two widgets both request hover in
/// one frame, the one with the higher z owns hover after the next
/// frame boundary whichever order the requests came in — and at equal
/// z the later request wins. Holds when no capture request interferes
/// (capture would win hover outright).
pub proof fn lemma_hover_z_priority(
    io0: Io,
    io1: Io,
    io2: Io,
    io3: Io,
    za: GblZ,
    zb: GblZ,
    a: Seq<char>,
    b: Seq<char>,
)
    requires
        io0.mouse_req is None,
        io0.mouse_capture_req is None,
        mouse_req_rel(io0, io1, za, a),
        mouse_req_rel(io1, io2, zb, b),
        begin_rel(io2, io3),
    ensures
        zb.z >= za.z ==> match io3.has_mouse {
            Some(h) => h@ == b,
            None => false,
        },
        zb.z < za.z ==> match io3.has_mouse {
            Some(h) => h@ == a,
            None => false,
        },
{
}

/// Capture prolongation: while widget X holds capture and prolongs it,
/// a competing request from Y cannot steal it — whether Y files before
/// or after X's own prolonging request, and whatever z Y uses. After
/// the next frame boundary X still owns capture and hover.
pub proof fn lemma_capture_prolonged(
    io0: Io,
    io1: Io,
    io2: Io,
    io3: Io,
    zx: GblZ,
    zy: GblZ,
    x: Seq<char>,
    y: Seq<char>,
    x_first: bool,
)
    requires
        io0.mouse_capture_req is None,
        io0.mouse_req is None,
        match io0.mouse_captured {
            Some(c) => c@ == x,
            None => false,
        },
        y != x,
        x_first ==> mouse_capture_rel(io0, io1, zx, x) && mouse_capture_rel(io1, io2, zy, y),
        !x_first ==> mouse_capture_rel(io0, io1, zy, y) && mouse_capture_rel(io1, io2, zx, x),
        begin_rel(io2, io3),
    ensures
        match io3.mouse_captured {
            Some(c) => c@ == x,
            None => false,
        },
        match io3.has_mouse {
            Some(h) => h@ == x,
            None => false,
        },
{
}

/// With no active capture, a later capture request supersedes the filed
/// one exactly when its z is at least the filed one's: z-priority with
/// last-writer-wins at equal z.
pub proof fn lemma_capture_supersede(
    io0: Io,
    io1: Io,
    io2: Io,
    io3: Io,
    za: GblZ,
    zb: GblZ,
    a: Seq<char>,
    b: Seq<char>,
)
    requires
        io0.mouse_captured is None,
        io0.mouse_capture_req is None,
        mouse_capture_rel(io0, io1, za, a),
        mouse_capture_rel(io1, io2, zb, b),
        begin_rel(io2, io3),
    ensures
        zb.z >= za.z ==> match io3.mouse_captured {
            Some(c) => c@ == b,
            None => false,
        },
        zb.z < za.z ==> match io3.mouse_captured {
            Some(c) => c@ == a,
            None => false,
        },
{
}

} // verus!
