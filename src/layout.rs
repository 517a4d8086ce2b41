//! The rules by which child controls follow their parent window when it is
//! resized: each child is kept in place, moved along with the right or
//! bottom edge, or stretched with it.

use vstd::prelude::*;
use crate::handles::{HWND, POINT, RECT, SIZE};

verus! {

/// Specifies the horizontal behavior of the control when the parent window is
/// resized.
#[derive(Clone, Copy, PartialEq, Eq, Structural, Debug, Hash)]
pub enum Horz {
    /// Nothing will be done when parent window is resized.
    Keep,
    /// When parent window resizes, the control will move anchored at right.
    /// Size of the control will remain fixed.
    Repos,
    /// When parent window resizes, the control width will stretch/shrink
    /// accordingly. Position will remain fixed.
    Resize,
}

/// Specifies the vertical behavior of the control when the parent window is
/// resized.
#[derive(Clone, Copy, PartialEq, Eq, Structural, Debug, Hash)]
pub enum Vert {
    /// Nothing will be done when parent window is resized.
    Keep,
    /// When parent window resizes, the control will move anchored at bottom.
    /// Size of the control will remain fixed.
    Repos,
    /// When parent window resizes, the control height will stretch/shrink
    /// accordingly. Position will remain fixed.
    Resize,
}

/// Window positioning flag: keep the current size.
pub const SWP_NOSIZE: u32 = 0x0001;

/// Window positioning flag: keep the current position.
pub const SWP_NOMOVE: u32 = 0x0002;

/// Window positioning flag: keep the current Z order.
pub const SWP_NOZORDER: u32 = 0x0004;

/// Resize request sent when the window is minimized.
pub const SIZE_R_MINIMIZED: u32 = 1;

/// A child control under layout, and its rect relative to the parent when
/// the layout first arranged it.
#[derive(Clone, Copy, PartialEq, Eq, Structural, Debug)]
pub struct ChildInfo {
    pub hchild: HWND,
    pub horz: Horz,
    pub vert: Vert,
    pub rc_orig: Option<RECT>,
}

/// Where one child control goes: its new position and size, with the flags
/// that tell which of the two to apply.
#[derive(Clone, Copy, PartialEq, Eq, Structural, Debug)]
pub struct Placement {
    pub hchild: HWND,
    pub pos: POINT,
    pub size: SIZE,
    pub flags: u32,
}

/// Positioning flags for a child: with both directions repositioned only the
/// position changes, with both resized only the size does.
pub open spec fn swp_flags(horz: Horz, vert: Vert) -> u32 {
    if horz == Horz::Repos && vert == Vert::Repos {
        SWP_NOZORDER | SWP_NOSIZE
    } else if horz == Horz::Resize && vert == Vert::Resize {
        SWP_NOZORDER | SWP_NOMOVE
    } else {
        SWP_NOZORDER
    }
}

/// Where a child goes when the parent's client area has grown from `orig` to
/// `client` (wrapping around on 32-bit overflow, as window coordinates do).
pub open spec fn placement_of(c: ChildInfo, rc: RECT, orig: SIZE, client: SIZE) -> Placement {
    Placement {
        hchild: c.hchild,
        pos: POINT {
            x: if c.horz == Horz::Repos {
                (client.cx - orig.cx + rc.left) as i32
            } else {
                rc.left
            },
            y: if c.vert == Vert::Repos {
                (client.cy - orig.cy + rc.top) as i32
            } else {
                rc.top
            },
        },
        size: SIZE {
            cx: if c.horz == Horz::Resize {
                (client.cx - orig.cx + rc.right - rc.left) as i32
            } else {
                (rc.right - rc.left) as i32
            },
            cy: if c.vert == Vert::Resize {
                (client.cy - orig.cy + rc.bottom - rc.top) as i32
            } else {
                (rc.bottom - rc.top) as i32
            },
        },
        flags: swp_flags(c.horz, c.vert),
    }
}

/// The child as it is after a rearrangement: its original rect is the one it
/// had, or else its current one, which is kept from then on.
pub open spec fn settled(c: ChildInfo, current: RECT) -> ChildInfo {
    ChildInfo {
        rc_orig: match c.rc_orig {
            Some(rc) => Some(rc),
            None => Some(current),
        },
        ..c
    }
}

/// Rearranges the stored controls according to their predefined rules.
pub struct Layout {
    ctrls: Vec<ChildInfo>,
    sz_parent_orig: SIZE,
}

impl View for Layout {
    type V = (Seq<ChildInfo>, SIZE);

    /// The children in the order they were added, and the parent's client
    /// area as it was when the first child was added (zero before that).
    closed spec fn view(&self) -> (Seq<ChildInfo>, SIZE) {
        (self.ctrls@, self.sz_parent_orig)
    }
}

impl Layout {
    /// A layout with no children.
    pub fn new() -> (r: Layout)
        ensures
            r@.0.len() == 0,
            r@.1 == (SIZE { cx: 0, cy: 0 }),
    {
        Layout { ctrls: Vec::new(), sz_parent_orig: SIZE::with(0, 0) }
    }

    /// Adds a child control, so that it is rearranged when requested. A child
    /// that neither moves nor resizes is not stored. The first child stored
    /// records the parent's client area, whose rect `rc_parent` is.
    pub fn add_child(
        &mut self,
        hparent: &HWND,
        hchild: &HWND,
        resize_behavior: (Horz, Vert),
        rc_parent: RECT,
    )
        requires
            hparent.0 != 0,
            hchild.0 != 0,
        ensures
            resize_behavior.0 == Horz::Keep && resize_behavior.1 == Vert::Keep ==> final(self)@
                == old(self)@,
            !(resize_behavior.0 == Horz::Keep && resize_behavior.1 == Vert::Keep) ==> {
                &&& final(self)@.0 == old(self)@.0.push(
                    (ChildInfo {
                        hchild: *hchild,
                        horz: resize_behavior.0,
                        vert: resize_behavior.1,
                        rc_orig: None,
                    }),
                )
                &&& final(self)@.1 == if old(self)@.0.len() == 0 {
                    (SIZE { cx: rc_parent.right, cy: rc_parent.bottom })
                } else {
                    old(self)@.1
                }
            },
    {
        let (horz, vert) = resize_behavior;
        if horz != Horz::Keep || vert != Vert::Keep {
            if self.ctrls.len() == 0 {
                self.sz_parent_orig = SIZE::with(rc_parent.right, rc_parent.bottom);
            }
            self.ctrls.push(ChildInfo { hchild: *hchild, horz, vert, rc_orig: None });
        }
    }

    /// Rearranges all children to fit the parent's new client area, and
    /// returns where each goes, in order. Where a child's original rect is not
    /// known yet, its `current_rects` entry (its rect relative to the parent
    /// now) becomes it. Nothing happens with no children or when the parent
    /// is minimized.
    pub fn rearrange(
        &mut self,
        request: u32,
        client_area: SIZE,
        current_rects: &[RECT],
    ) -> (r: Vec<Placement>)
        requires
            current_rects@.len() == old(self)@.0.len(),
        ensures
            old(self)@.0.len() == 0 || request == SIZE_R_MINIMIZED ==> {
                &&& r@.len() == 0
                &&& final(self)@ == old(self)@
            },
            !(old(self)@.0.len() == 0 || request == SIZE_R_MINIMIZED) ==> {
                &&& final(self)@.1 == old(self)@.1
                &&& final(self)@.0.len() == old(self)@.0.len()
                &&& r@.len() == old(self)@.0.len()
                &&& forall|i: int|
                    0 <= i < r@.len() ==> {
                        &&& #[trigger] final(self)@.0[i] == settled(
                            old(self)@.0[i],
                            current_rects@[i],
                        )
                        &&& r@[i] == placement_of(
                            final(self)@.0[i],
                            final(self)@.0[i].rc_orig->Some_0,
                            old(self)@.1,
                            client_area,
                        )
                    }
            },
    {
        let mut out: Vec<Placement> = Vec::new();
        if self.ctrls.len() == 0 || request == SIZE_R_MINIMIZED {
            return out;
        }
        let orig = self.sz_parent_orig;
        let ghost before = self.ctrls@;
        let n = self.ctrls.len();
        let mut i: usize = 0;
        while i < n
            invariant
                n == before.len() == self.ctrls@.len() == current_rects@.len(),
                n > 0,
                self.sz_parent_orig == orig,
                i <= n,
                out@.len() == i,
                forall|j: int| i <= j < n ==> self.ctrls@[j] == before[j],
                forall|j: int|
                    0 <= j < i ==> {
                        &&& #[trigger] self.ctrls@[j] == settled(before[j], current_rects@[j])
                        &&& out@[j] == placement_of(
                            self.ctrls@[j],
                            self.ctrls@[j].rc_orig->Some_0,
                            orig,
                            client_area,
                        )
                    },
            decreases n - i,
        {
            let ctrl = self.ctrls[i];
            let rc = match ctrl.rc_orig {
                Some(rc) => rc,
                None => current_rects[i],
            };
            let settled_ctrl = ChildInfo { rc_orig: Some(rc), ..ctrl };
            self.ctrls.set(i, settled_ctrl);
            out.push(Layout::place(settled_ctrl, rc, orig, client_area));
            i = i + 1;
        }
        out
    }

    /// The handles of the children, in the order they were added.
    pub fn child_handles(&self) -> (r: Vec<HWND>)
        ensures
            r@.len() == self@.0.len(),
            forall|i: int| 0 <= i < r@.len() ==> r@[i] == #[trigger] self@.0[i].hchild,
    {
        let mut out: Vec<HWND> = Vec::new();
        let mut i: usize = 0;
        while i < self.ctrls.len()
            invariant
                i <= self.ctrls@.len(),
                out@.len() == i,
                forall|j: int| 0 <= j < i ==> out@[j] == #[trigger] self.ctrls@[j].hchild,
            decreases self.ctrls@.len() - i,
        {
            out.push(self.ctrls[i].hchild);
            i = i + 1;
        }
        out
    }

    /// Where one child goes.
    fn place(c: ChildInfo, rc: RECT, orig: SIZE, client: SIZE) -> (r: Placement)
        ensures
            r == placement_of(c, rc, orig, client),
    {
        let mut uflags = SWP_NOZORDER;
        if c.horz == Horz::Repos && c.vert == Vert::Repos {
            uflags = SWP_NOZORDER | SWP_NOSIZE;
        } else if c.horz == Horz::Resize && c.vert == Vert::Resize {
            uflags = SWP_NOZORDER | SWP_NOMOVE;
        }
        let grow_x = client.cx as i64 - orig.cx as i64;
        let grow_y = client.cy as i64 - orig.cy as i64;
        let x = if c.horz == Horz::Repos {
            (grow_x + rc.left as i64) as i32
        } else {
            rc.left
        };
        let y = if c.vert == Vert::Repos {
            (grow_y + rc.top as i64) as i32
        } else {
            rc.top
        };
        let width = rc.right as i64 - rc.left as i64;
        let height = rc.bottom as i64 - rc.top as i64;
        let cx = if c.horz == Horz::Resize {
            (grow_x + width) as i32
        } else {
            width as i32
        };
        let cy = if c.vert == Vert::Resize {
            (grow_y + height) as i32
        } else {
            height as i32
        };
        Placement {
            hchild: c.hchild,
            pos: POINT::with(x, y),
            size: SIZE::with(cx, cy),
            flags: uflags,
        }
    }
}

} // verus!
