//! The resize/drag interaction state machine for floating windows.
//!
//! A direction is chosen once, at the moment capture begins, from the
//! cursor's position inside an inward-inset hit-box with a fixed
//! hotspot band along each edge; the direction then stays sticky for
//! the whole capture. Each captured frame the cursor delta since the
//! press is translated into an edge-specific rectangle delta applied
//! to the press-time rectangle. A matching cursor icon is reported for
//! feedback, captured or merely hovering.

use vstd::prelude::*;

use crate::idmap::IdMap;
use crate::layer::LclLayer;
use crate::types::{fits, LclPt, LclRt, LclSz, LclZ, Rt2D};

verus! {

/// The z-order gap kept between floating windows, so a raised window
/// clears everything drawn inside its siblings.
pub const Z_OFF: i64 = 1000;

/// Width of the hotspot band along each hit-box edge, in logical units.
pub const HOTSPOT_DP: i64 = 18;

/// How far the hit-box extends outward past the window rectangle.
pub const RESIZE_INSET_DP: i64 = -16;

/// Which edge or corner a capture is resizing, or a plain move.
#[derive(Clone, Copy, Debug, PartialEq, Eq, Hash)]
pub enum ResizeDir {
    TopLeft,
    TopRight,
    BottomLeft,
    BottomRight,
    Left,
    Top,
    Right,
    Bottom,
    Move,
}

/// The pointer shape reported for user feedback.
#[derive(Clone, Copy, Debug, PartialEq, Eq, Hash)]
pub enum CursorIcon {
    Arrow,
    Grab,
    Grabbing,
    NResize,
    SResize,
    EResize,
    WResize,
    NeResize,
    NwResize,
    SeResize,
    SwResize,
}

/// Retained interaction state of one floating window: its last placed
/// layer, the sticky resize direction, and the press-time cursor point
/// and rectangle of the running session.
#[derive(Clone, Copy, Debug, PartialEq)]
pub struct WindowState {
    pub l: LclLayer,
    pub dir: ResizeDir,
    pub mouse_st: LclPt,
    pub rt_st: LclRt,
}

impl WindowState {
    /// A fresh state for a window first placed at `l`: direction
    /// `Move`, no session data.
    pub fn new(l: LclLayer) -> (w: Self)
        ensures
            w.l == l,
            w.dir == ResizeDir::Move,
            w.mouse_st.x == 0 && w.mouse_st.y == 0,
            w.rt_st.x == 0 && w.rt_st.y == 0 && w.rt_st.w == 0 && w.rt_st.h == 0,
    {
        Self { l, dir: ResizeDir::Move, mouse_st: LclPt::zero(), rt_st: LclRt::zero() }
    }
}

/// Retained state of a floating-window layout: the per-window states
/// and the monotonically raised top z-order.
#[derive(Clone, Debug, PartialEq)]
pub struct ResizeState {
    pub wins: IdMap<WindowState>,
    pub top_z: LclZ,
}

impl ResizeState {
    /// Well-formed: the window table has unique ids.
    pub open spec fn wf(self) -> bool {
        self.wins.wf()
    }

    pub fn new() -> (rs: Self)
        ensures
            rs.wf(),
            rs.top_z.z == 0,
            rs.wins.entries@.len() == 0,
    {
        Self { wins: IdMap::new(), top_z: LclZ::zero() }
    }
}

impl Default for ResizeState {
    fn default() -> (rs: Self)
        ensures
            rs.wf(),
            rs.top_z.z == 0,
            rs.wins.entries@.len() == 0,
    {
        Self::new()
    }
}

/// The rectangle delta and feedback cursor for one interaction frame.
#[derive(Clone, Copy, Debug, PartialEq)]
pub struct ResizeInfo {
    pub delta_rt: LclRt,
    pub cursor: CursorIcon,
}

/// The rectangle delta a cursor movement `d` causes under direction
/// `dir`: corners and edges move the affected origin components and
/// take the same amount out of the extents; `Move` translates only.
pub open spec fn delta_rt_spec(d: LclSz, dir: ResizeDir) -> LclRt {
    let zero = Rt2D { x: 0, y: 0, w: 0, h: 0, _u: core::marker::PhantomData };
    match dir {
        ResizeDir::TopLeft => Rt2D { x: d.w, y: d.h, w: (-d.w) as i64, h: (-d.h) as i64, ..zero },
        ResizeDir::TopRight => Rt2D { x: 0, y: d.h, w: d.w, h: (-d.h) as i64, ..zero },
        ResizeDir::BottomLeft => Rt2D { x: d.w, y: 0, w: (-d.w) as i64, h: d.h, ..zero },
        ResizeDir::BottomRight => Rt2D { x: 0, y: 0, w: d.w, h: d.h, ..zero },
        ResizeDir::Left => Rt2D { x: d.w, y: 0, w: (-d.w) as i64, h: 0, ..zero },
        ResizeDir::Top => Rt2D { x: 0, y: d.h, w: 0, h: (-d.h) as i64, ..zero },
        ResizeDir::Right => Rt2D { x: 0, y: 0, w: d.w, h: 0, ..zero },
        ResizeDir::Bottom => Rt2D { x: 0, y: 0, w: 0, h: d.h, ..zero },
        ResizeDir::Move => Rt2D { x: d.w, y: d.h, w: 0, h: 0, ..zero },
    }
}

/// The feedback cursor for a direction: a resize arrow per edge or
/// corner, and the grab hand for `Move` (closed while captured).
pub open spec fn cursor_spec(dir: ResizeDir, is_captured: bool) -> CursorIcon {
    match dir {
        ResizeDir::TopLeft => CursorIcon::NwResize,
        ResizeDir::TopRight => CursorIcon::NeResize,
        ResizeDir::BottomLeft => CursorIcon::SwResize,
        ResizeDir::BottomRight => CursorIcon::SeResize,
        ResizeDir::Left => CursorIcon::WResize,
        ResizeDir::Top => CursorIcon::NResize,
        ResizeDir::Right => CursorIcon::EResize,
        ResizeDir::Bottom => CursorIcon::SResize,
        ResizeDir::Move => if is_captured {
            CursorIcon::Grabbing
        } else {
            CursorIcon::Grab
        },
    }
}

/// The rectangle delta and feedback cursor caused by a cursor movement
/// `d` under direction `dir`.
pub fn get_resize_info(d: LclSz, dir: ResizeDir, is_captured: bool) -> (r: ResizeInfo)
    requires
        fits(-d.w),
        fits(-d.h),
    ensures
        r.delta_rt == delta_rt_spec(d, dir),
        r.cursor == cursor_spec(dir, is_captured),
{
    match dir {
        ResizeDir::TopLeft => ResizeInfo {
            delta_rt: LclRt::new(d.w, d.h, -d.w, -d.h),
            cursor: CursorIcon::NwResize,
        },
        ResizeDir::TopRight => ResizeInfo {
            delta_rt: LclRt::new(0, d.h, d.w, -d.h),
            cursor: CursorIcon::NeResize,
        },
        ResizeDir::BottomLeft => ResizeInfo {
            delta_rt: LclRt::new(d.w, 0, -d.w, d.h),
            cursor: CursorIcon::SwResize,
        },
        ResizeDir::BottomRight => ResizeInfo {
            delta_rt: LclRt::new(0, 0, d.w, d.h),
            cursor: CursorIcon::SeResize,
        },
        ResizeDir::Left => ResizeInfo {
            delta_rt: LclRt::new(d.w, 0, -d.w, 0),
            cursor: CursorIcon::WResize,
        },
        ResizeDir::Top => ResizeInfo {
            delta_rt: LclRt::new(0, d.h, 0, -d.h),
            cursor: CursorIcon::NResize,
        },
        ResizeDir::Right => ResizeInfo {
            delta_rt: LclRt::new(0, 0, d.w, 0),
            cursor: CursorIcon::EResize,
        },
        ResizeDir::Bottom => ResizeInfo {
            delta_rt: LclRt::new(0, 0, 0, d.h),
            cursor: CursorIcon::SResize,
        },
        ResizeDir::Move => ResizeInfo {
            delta_rt: LclRt::new(d.w, d.h, 0, 0),
            cursor: if is_captured {
                CursorIcon::Grabbing
            } else {
                CursorIcon::Grab
            },
        },
    }
}

/// Which hotspot bands of `l` the point `mouse` falls into.
pub open spec fn hotspot_spec(l: LclLayer, mouse: LclPt) -> (bool, bool, bool, bool) {
    (
        mouse.x < l.r.x + HOTSPOT_DP,
        mouse.y < l.r.y + HOTSPOT_DP,
        mouse.x > l.r.x + l.r.w - HOTSPOT_DP,
        mouse.y > l.r.y + l.r.h - HOTSPOT_DP,
    )
}

/// The direction selected when a press lands at `mouse` inside the
/// hit-box `l`: corners first, then single edges, else `Move`.
pub open spec fn resize_dir_spec(l: LclLayer, mouse: LclPt) -> ResizeDir {
    let (lft, top, rgt, bot) = hotspot_spec(l, mouse);
    if top && lft {
        ResizeDir::TopLeft
    } else if top && rgt {
        ResizeDir::TopRight
    } else if bot && lft {
        ResizeDir::BottomLeft
    } else if bot && rgt {
        ResizeDir::BottomRight
    } else if lft && !top && !rgt && !bot {
        ResizeDir::Left
    } else if !lft && top && !rgt && !bot {
        ResizeDir::Top
    } else if !lft && !top && rgt && !bot {
        ResizeDir::Right
    } else if !lft && !top && !rgt && bot {
        ResizeDir::Bottom
    } else {
        ResizeDir::Move
    }
}

/// True when the hotspot tests of `l` stay representable.
pub open spec fn resize_dir_ok(l: LclLayer) -> bool {
    &&& fits(l.r.x + HOTSPOT_DP)
    &&& fits(l.r.y + HOTSPOT_DP)
    &&& fits(l.r.x + l.r.w)
    &&& fits(l.r.y + l.r.h)
    &&& fits(l.r.x + l.r.w - HOTSPOT_DP)
    &&& fits(l.r.y + l.r.h - HOTSPOT_DP)
}

/// Select the resize direction for a press at `mouse` in hit-box `l`.
pub fn resize_dir(l: &LclLayer, mouse: LclPt) -> (r: ResizeDir)
    requires
        resize_dir_ok(*l),
    ensures
        r == resize_dir_spec(*l, mouse),
{
    let lft = mouse.x < l.r.x + HOTSPOT_DP;
    let top = mouse.y < l.r.y + HOTSPOT_DP;
    let rgt = mouse.x > l.r.x + l.r.w - HOTSPOT_DP;
    let bot = mouse.y > l.r.y + l.r.h - HOTSPOT_DP;
    if top && lft {
        ResizeDir::TopLeft
    } else if top && rgt {
        ResizeDir::TopRight
    } else if bot && lft {
        ResizeDir::BottomLeft
    } else if bot && rgt {
        ResizeDir::BottomRight
    } else if lft && !top && !rgt && !bot {
        ResizeDir::Left
    } else if !lft && top && !rgt && !bot {
        ResizeDir::Top
    } else if !lft && !top && rgt && !bot {
        ResizeDir::Right
    } else if !lft && !top && !rgt && bot {
        ResizeDir::Bottom
    } else {
        ResizeDir::Move
    }
}

} // verus!
