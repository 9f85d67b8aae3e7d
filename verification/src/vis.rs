//! The frame driver.
//!
//! A `Vis` owns the three per-frame resources — input state, retained
//! state store, paint-operation list — for its single thread. `begin`
//! opens a frame: it resets the paint list, arbitrates the previous
//! frame's input requests, and hands back a cursor over a root
//! floating-window layout sized exactly to the screen. `end` closes
//! the frame. The embedding program loads the store before the first
//! frame and writes `save` back to disk at exit.

use vstd::prelude::*;

use crate::codec::{enc_store, save_store};
use crate::hint::{make_exact_spec, Hint};
use crate::io::{begin_rel, Io};
use crate::layout::LayoutInfo;
use crate::memory::Memory;
use crate::painter::Painter;
use crate::resize::CursorIcon;
use crate::resize_layout::ResizeLayout;
use crate::types::{fits, GblSz, LclSz};
use crate::ui::{Layout, Ui};

verus! {

/// The per-process state of the toolkit: input, retained store,
/// paint list.
pub struct Vis {
    pub io: Io,
    pub mem: Memory,
    pub paint: Painter,
}

impl Vis {
    /// Well-formed: the store and the painter are.
    pub open spec fn wf(self) -> bool {
        &&& self.mem.wf()
        &&& self.paint.wf()
    }

    /// A fresh toolkit for a screen of the given size, around a store
    /// the embedding program loaded (or a fresh one).
    pub fn new(scr_sz: GblSz, mem: Memory) -> (v: Vis)
        requires
            mem.wf(),
        ensures
            v.wf(),
            v.mem == mem,
            v.io.scr_sz == scr_sz,
            v.io.frame_num == 0,
            v.paint.ops@.len() == 0,
    {
        Vis { io: Io::new(scr_sz), mem, paint: Painter::new() }
    }

    /// Open a frame: clear the paint list, arbitrate last frame's
    /// input requests, and hand back a cursor over a root
    /// floating-window layout offered exactly the screen.
    pub fn begin(&mut self) -> (ui: Ui)
        requires
            old(self).wf(),
            old(self).io.frame_num < u64::MAX,
            fits(old(self).io.mouse_pt.x - old(self).io.prev_mouse_pt.x),
            fits(old(self).io.mouse_pt.y - old(self).io.prev_mouse_pt.y),
        ensures
            final(self).wf(),
            final(self).mem == old(self).mem,
            begin_rel(old(self).io, final(self).io),
            final(self).paint.ops@.len() == 0,
            final(self).paint.cursor == CursorIcon::Arrow,
            ui.id@ == "top"@,
            ui.l matches Layout::Resize(rl) && rl.info.gtf.is_identity() && rl.info.ptf.is_identity()
                && rl.info.hint == make_exact_spec(
                crate::types::Sz2D {
                    w: old(self).io.scr_sz.w,
                    h: old(self).io.scr_sz.h,
                    _u: core::marker::PhantomData,
                },
            ) && rl.loc.x == 0 && rl.loc.y == 0,
    {
        self.paint.begin();
        self.io.begin();
        let scr_sz: LclSz = self.io.scr_sz.coerce();
        Ui::new(
            Layout::Resize(
                ResizeLayout::new(LayoutInfo::zero().hint(Hint::make_exact(scr_sz))),
            ),
            "top",
        )
    }

    /// Close the frame: drop the input edge flags and the scroll
    /// accumulator.
    pub fn end(&mut self)
        ensures
            final(self).mem == old(self).mem,
            final(self).paint == old(self).paint,
            final(self).io == (Io {
                mouse_just_captured: false,
                mouse_just_released: false,
                mouse_scroll: final(self).io.mouse_scroll,
                prev_mouse_pt: old(self).io.mouse_pt,
                ..old(self).io
            }),
            final(self).io.mouse_scroll.x == 0 && final(self).io.mouse_scroll.y == 0,
    {
        self.io.end();
    }

    /// The store as one JSON document, for the embedding program to
    /// write to disk at exit.
    pub fn save(&self) -> (r: String)
        ensures
            r@ == enc_store(self.mem),
    {
        save_store(&self.mem)
    }
}

} // verus!
