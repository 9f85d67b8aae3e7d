//! The per-widget retained state store.
//!
//! State is keyed by hierarchical widget id and created lazily on
//! first touch; it is loaded once at startup and written back whole at
//! shutdown by the embedding program. Stale ids are never evicted.

use vstd::prelude::*;

use crate::idmap::{lemma_unique_lookup, IdMap};
use crate::resize::{ResizeState, WindowState, Z_OFF};
use crate::types::{fits, LclZ, ZOrder};

verus! {

/// Everything retained for one widget id: the floating-window layout
/// state kept under it.
#[derive(Clone, Debug, PartialEq)]
pub struct WidgetMemory {
    pub pos: ResizeState,
}

impl WidgetMemory {
    /// Well-formed: the window table under it is.
    pub open spec fn wf(self) -> bool {
        self.pos.wf()
    }

    pub fn new() -> (w: Self)
        ensures
            w.wf(),
            w.pos.top_z.z == 0,
            w.pos.wins.entries@.len() == 0,
    {
        Self { pos: ResizeState::new() }
    }
}

impl Default for WidgetMemory {
    fn default() -> (w: Self)
        ensures
            w.wf(),
            w.pos.top_z.z == 0,
            w.pos.wins.entries@.len() == 0,
    {
        Self::new()
    }
}

/// The retained state store: per-widget-id memory plus the global
/// debug-overlay flag.
#[derive(Clone, Debug, PartialEq)]
pub struct Memory {
    pub wid: IdMap<WidgetMemory>,
    pub debug: bool,
}

impl Memory {
    /// Well-formed: ids are unique and every entry is well-formed.
    pub open spec fn wf(self) -> bool {
        &&& self.wid.wf()
        &&& forall|i: int|
            0 <= i < self.wid.entries@.len() ==> (#[trigger] self.wid.entries@[i].1).wf()
    }

    /// The window state a read of `(ui_id, child)` sees: present only
    /// when both levels exist.
    pub open spec fn win_spec(self, ui_id: Seq<char>, child: Seq<char>) -> Option<WindowState> {
        if self.wid.contains_spec(ui_id) && self.wid.get_spec(ui_id).pos.wins.contains_spec(
            child,
        ) {
            Some(self.wid.get_spec(ui_id).pos.wins.get_spec(child))
        } else {
            None
        }
    }

    /// The top z-order counter a read of `ui_id` sees; a missing entry
    /// reads as zero.
    pub open spec fn top_z_spec(self, ui_id: Seq<char>) -> int {
        if self.wid.contains_spec(ui_id) {
            self.wid.get_spec(ui_id).pos.top_z.z as int
        } else {
            0
        }
    }

    pub fn new() -> (m: Self)
        ensures
            m.wf(),
            !m.debug,
            m.wid.entries@.len() == 0,
    {
        Self { wid: IdMap::new(), debug: false }
    }

    /// The stored state of window `child_id` under the layout widget
    /// `ui_id`, if any.
    pub fn win_get(&self, ui_id: &str, child_id: &str) -> (r: Option<WindowState>)
        requires
            self.wf(),
        ensures
            r == self.win_spec(ui_id@, child_id@),
    {
        match self.wid.get(ui_id) {
            Some(wm) => {
                proof {
                    let j = self.wid.idx_spec(ui_id@);
                    assert(0 <= j < self.wid.entries@.len() && self.wid.entries@[j].0@ == ui_id@);
                }
                match wm.pos.wins.get(child_id) {
                    Some(w) => Some(*w),
                    None => None,
                }
            },
            None => None,
        }
    }

    /// Make sure an entry exists under `ui_id`, creating a default one
    /// on first touch.
    fn wid_ensure(&mut self, ui_id: &str)
        requires
            old(self).wf(),
        ensures
            final(self).wf(),
            final(self).wid.contains_spec(ui_id@),
            final(self).debug == old(self).debug,
            old(self).wid.contains_spec(ui_id@) ==> *final(self) == *old(self),
            !old(self).wid.contains_spec(ui_id@) ==> {
                &&& final(self).wid.get_spec(ui_id@).pos.top_z.z == 0
                &&& final(self).wid.get_spec(ui_id@).pos.wins.entries@.len() == 0
                &&& forall|k: Seq<char>|
                    k != ui_id@ ==> final(self).wid.contains_spec(k) == old(
                        self,
                    ).wid.contains_spec(k)
                &&& forall|k: Seq<char>|
                    k != ui_id@ && old(self).wid.contains_spec(k) ==> final(self).wid.get_spec(k)
                        == old(self).wid.get_spec(k)
            },
    {
        if !self.wid.contains(ui_id) {
            self.wid.set(ui_id, WidgetMemory::new());
            proof {
                assert forall|i: int| 0 <= i < self.wid.entries@.len() implies (
                #[trigger] self.wid.entries@[i].1).wf() by {
                    lemma_unique_lookup(self.wid);
                    if self.wid.entries@[i].0@ == ui_id@ {
                    } else {
                        lemma_unique_lookup(old(self).wid);
                        assert(old(self).wid.contains_spec(self.wid.entries@[i].0@));
                    }
                }
            }
        }
    }

    /// Store window state `w` under `(ui_id, child_id)`, creating both
    /// levels as needed; every other window and counter is untouched.
    pub fn win_set(&mut self, ui_id: &str, child_id: &str, w: WindowState)
        requires
            old(self).wf(),
        ensures
            final(self).wf(),
            final(self).win_spec(ui_id@, child_id@) == Some(w),
            final(self).debug == old(self).debug,
            forall|u: Seq<char>, c: Seq<char>|
                !(u == ui_id@ && c == child_id@) ==> final(self).win_spec(u, c) == old(
                    self,
                ).win_spec(u, c),
            forall|u: Seq<char>| final(self).top_z_spec(u) == old(self).top_z_spec(u),
    {
        self.wid_ensure(ui_id);
        let i = match self.wid.index_of(ui_id) {
            Some(i) => i,
            None => {
                proof {
                    assert(false);
                }
                0
            },
        };
        let ghost mid = *self;
        self.wid.entries[i].1.pos.wins.set(child_id, w);
        proof {
            lemma_win_frame(mid, *self, i as int, ui_id@);
            lemma_store_frame(*old(self), mid, ui_id@);
            assert(self.wid.idx_spec(ui_id@) == i as int) by {
                lemma_unique_lookup(self.wid);
            }
            assert(mid.wid.idx_spec(ui_id@) == i as int) by {
                lemma_unique_lookup(mid.wid);
            }
            assert forall|c: Seq<char>|
                c != child_id@ implies self.win_spec(ui_id@, c) == mid.win_spec(ui_id@, c) by {}
        }
    }

    /// Raise and return the top z-order counter under `ui_id`: each
    /// call steps it by the window z gap.
    pub fn next_z(&mut self, ui_id: &str) -> (z: LclZ)
        requires
            old(self).wf(),
            fits(old(self).top_z_spec(ui_id@) + Z_OFF),
        ensures
            final(self).wf(),
            z.z == old(self).top_z_spec(ui_id@) + Z_OFF,
            final(self).top_z_spec(ui_id@) == z.z,
            final(self).debug == old(self).debug,
            forall|u: Seq<char>, c: Seq<char>|
                final(self).win_spec(u, c) == old(self).win_spec(u, c),
            forall|u: Seq<char>|
                u != ui_id@ ==> final(self).top_z_spec(u) == old(self).top_z_spec(u),
    {
        self.wid_ensure(ui_id);
        let i = match self.wid.index_of(ui_id) {
            Some(i) => i,
            None => {
                proof {
                    assert(false);
                }
                0
            },
        };
        let ghost mid = *self;
        let nz = self.wid.entries[i].1.pos.top_z.add(ZOrder::new(Z_OFF));
        self.wid.entries[i].1.pos.top_z = nz;
        proof {
            lemma_win_frame(mid, *self, i as int, ui_id@);
            lemma_store_frame(*old(self), mid, ui_id@);
            assert(self.wid.idx_spec(ui_id@) == i as int) by {
                lemma_unique_lookup(self.wid);
            }
            assert(mid.wid.idx_spec(ui_id@) == i as int) by {
                lemma_unique_lookup(mid.wid);
            }
            assert forall|c: Seq<char>| self.win_spec(ui_id@, c) == mid.win_spec(ui_id@, c) by {}
        }
        nz
    }
}

/// When two stores agree entry-for-entry except that entry `i` (whose
/// id is `ui`) may differ only outside a given reading, the per-key
/// readings agree accordingly: keys other than `ui` read the same, and
/// under `ui` the counter and windows come from entry `i`.
proof fn lemma_win_frame(pre: Memory, post: Memory, i: int, ui: Seq<char>)
    requires
        pre.wf(),
        post.wid.entries@.len() == pre.wid.entries@.len(),
        0 <= i < pre.wid.entries@.len(),
        pre.wid.entries@[i].0@ == ui,
        post.wid.entries@[i].0@ == ui,
        post.wid.entries@[i].1.wf(),
        forall|j: int|
            0 <= j < pre.wid.entries@.len() && j != i ==> post.wid.entries@[j]
                == pre.wid.entries@[j],
    ensures
        post.wf(),
        post.wid.contains_spec(ui),
        pre.wid.contains_spec(ui),
        post.wid.idx_spec(ui) == i,
        pre.wid.idx_spec(ui) == i,
        post.wid.get_spec(ui) == post.wid.entries@[i].1,
        pre.wid.get_spec(ui) == pre.wid.entries@[i].1,
        forall|u: Seq<char>|
            u != ui ==> post.wid.contains_spec(u) == pre.wid.contains_spec(u),
        forall|u: Seq<char>|
            u != ui && pre.wid.contains_spec(u) ==> post.wid.get_spec(u) == pre.wid.get_spec(u),
        forall|u: Seq<char>, c: Seq<char>|
            u != ui ==> post.win_spec(u, c) == pre.win_spec(u, c),
        forall|u: Seq<char>| u != ui ==> post.top_z_spec(u) == pre.top_z_spec(u),
    decreases 0int,
{
    assert(forall|j: int|
        0 <= j < pre.wid.entries@.len() ==> post.wid.entries@[j].0@ == pre.wid.entries@[j].0@);
    assert(post.wid.wf());
    lemma_unique_lookup(pre.wid);
    lemma_unique_lookup(post.wid);
    assert forall|u: Seq<char>| u != ui implies post.wid.contains_spec(u)
        == pre.wid.contains_spec(u) by {
        if pre.wid.contains_spec(u) {
            let j = pre.wid.idx_spec(u);
            assert(post.wid.entries@[j].0@ == u);
        }
        if post.wid.contains_spec(u) {
            let j = post.wid.idx_spec(u);
            assert(pre.wid.entries@[j].0@ == u);
        }
    }
    assert forall|u: Seq<char>|
        u != ui && pre.wid.contains_spec(u) implies post.wid.get_spec(u) == pre.wid.get_spec(
        u,
    ) by {
        let j = pre.wid.idx_spec(u);
        assert(j != i);
        assert(post.wid.entries@[j].0@ == u);
    }
}

/// After a lazy creation under `ui`, every reading agrees with the
/// store before it: other keys are untouched, and under `ui` a fresh
/// default reads just like the absent entry did.
proof fn lemma_store_frame(pre: Memory, post: Memory, ui: Seq<char>)
    requires
        pre.wf(),
        post.wf(),
        post.wid.contains_spec(ui),
        pre.wid.contains_spec(ui) ==> post == pre,
        !pre.wid.contains_spec(ui) ==> {
            &&& post.wid.get_spec(ui).pos.top_z.z == 0
            &&& post.wid.get_spec(ui).pos.wins.entries@.len() == 0
            &&& forall|k: Seq<char>|
                k != ui ==> post.wid.contains_spec(k) == pre.wid.contains_spec(k)
            &&& forall|k: Seq<char>|
                k != ui && pre.wid.contains_spec(k) ==> post.wid.get_spec(k) == pre.wid.get_spec(
                    k,
                )
        },
    ensures
        forall|u: Seq<char>, c: Seq<char>| post.win_spec(u, c) == pre.win_spec(u, c),
        forall|u: Seq<char>| post.top_z_spec(u) == pre.top_z_spec(u),
    decreases 0int,
{
    if !pre.wid.contains_spec(ui) {
        assert forall|u: Seq<char>, c: Seq<char>| post.win_spec(u, c) == pre.win_spec(u, c) by {
            if u == ui {
                assert(!post.wid.get_spec(ui).pos.wins.contains_spec(c));
            }
        }
    }
}

} // verus!
