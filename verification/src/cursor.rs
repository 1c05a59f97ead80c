//! The scrollable list cursor: a selection and a scroll offset over the
//! current projection.
//!
//! Every movement clamps at the ends (no wraparound) and is a no-op on an
//! empty projection; the offset follows the selection so it stays on screen.

use vstd::prelude::*;

verus! {

#[derive(Clone, Copy, Debug, PartialEq, Eq, Structural)]
pub struct ScrollListState {
    pub selected: usize,
    pub offset: usize,
    pub total: usize,
    pub height: usize,
}

/// The offset after a move: pulled up to the selection when it went above the
/// window, pushed down just enough when it went below.
pub open spec fn scrolled_offset(selected: int, offset: int, height: int) -> int {
    if selected < offset {
        selected
    } else if height > 0 && selected >= offset + height {
        selected + 1 - height
    } else {
        offset
    }
}


/// A fresh cursor over a projection of `total` rows.
pub open spec fn spec_new_cursor(total: usize) -> ScrollListState {
    ScrollListState { selected: 0, offset: 0, total, height: 0 }
}

/// The cursor after moving the selection to `sel`.
pub open spec fn spec_moved(s: ScrollListState, sel: int) -> ScrollListState {
    ScrollListState {
        selected: sel as usize,
        offset: scrolled_offset(sel, s.offset as int, s.height as int) as usize,
        ..s
    }
}

pub open spec fn spec_next_sel(s: ScrollListState) -> int {
    if s.total > 0 && s.selected + 1 < s.total {
        s.selected + 1
    } else {
        s.selected as int
    }
}

pub open spec fn spec_prev_sel(s: ScrollListState) -> int {
    if s.selected > 0 {
        s.selected - 1
    } else {
        0
    }
}

pub open spec fn spec_last_sel(s: ScrollListState) -> int {
    if s.total > 0 {
        s.total - 1
    } else {
        0
    }
}

pub open spec fn spec_next_page_sel(s: ScrollListState) -> int {
    if s.total == 0 {
        0
    } else if s.selected + s.height < s.total {
        s.selected + s.height
    } else {
        s.total - 1
    }
}

pub open spec fn spec_prev_page_sel(s: ScrollListState) -> int {
    if s.selected >= s.height {
        s.selected - s.height
    } else {
        0
    }
}

impl ScrollListState {
    /// The selection is inside the projection and the offset never passes it.
    pub open spec fn wf(self) -> bool {
        &&& (self.total == 0 ==> self.selected == 0 && self.offset == 0)
        &&& (self.total > 0 ==> self.selected < self.total)
        &&& self.offset <= self.selected
    }

    pub fn new(total: usize) -> (r: Self)
        ensures
            r == (ScrollListState { selected: 0, offset: 0, total, height: 0 }),
            r.wf(),
    {
        ScrollListState { selected: 0, offset: 0, total, height: 0 }
    }

    /// Move the selection to `sel`, dragging the offset along.
    fn move_to(&mut self, sel: usize)
        requires
            old(self).wf(),
            old(self).total > 0 ==> sel < old(self).total,
            old(self).total == 0 ==> sel == 0,
        ensures
            *final(self) == (ScrollListState {
                selected: sel,
                offset: scrolled_offset(
                    sel as int,
                    old(self).offset as int,
                    old(self).height as int,
                ) as usize,
                ..*old(self)
            }),
            final(self).wf(),
    {
        self.selected = sel;
        if sel < self.offset {
            self.offset = sel;
        } else if self.height > 0 && sel - self.offset >= self.height {
            self.offset = sel + 1 - self.height;
        }
    }

    pub fn select_next(&mut self)
        requires
            old(self).wf(),
        ensures
            final(self).wf(),
            *final(self) == spec_moved(*old(self), spec_next_sel(*old(self))),
    {
        if self.total > 0 && self.selected + 1 < self.total {
            let sel = self.selected + 1;
            self.move_to(sel);
        } else {
            let sel = self.selected;
            self.move_to(sel);
        }
    }

    pub fn select_prev(&mut self)
        requires
            old(self).wf(),
        ensures
            final(self).wf(),
            *final(self) == spec_moved(*old(self), spec_prev_sel(*old(self))),
    {
        if self.selected > 0 {
            let sel = self.selected - 1;
            self.move_to(sel);
        } else {
            let sel = self.selected;
            self.move_to(sel);
        }
    }

    pub fn select_first(&mut self)
        requires
            old(self).wf(),
        ensures
            final(self).wf(),
            *final(self) == spec_moved(*old(self), 0),
            final(self).selected == 0,
            final(self).offset == 0,
    {
        self.move_to(0);
    }

    pub fn select_last(&mut self)
        requires
            old(self).wf(),
        ensures
            final(self).wf(),
            *final(self) == spec_moved(*old(self), spec_last_sel(*old(self))),
    {
        if self.total > 0 {
            let sel = self.total - 1;
            self.move_to(sel);
        } else {
            let sel = self.selected;
            self.move_to(sel);
        }
    }

    pub fn select_next_page(&mut self)
        requires
            old(self).wf(),
        ensures
            final(self).wf(),
            *final(self) == spec_moved(*old(self), spec_next_page_sel(*old(self))),
    {
        if self.total > 0 {
            let max_sel = self.total - 1;
            let sel = if max_sel - self.selected < self.height {
                max_sel
            } else {
                self.selected + self.height
            };
            self.move_to(sel);
        } else {
            let sel = self.selected;
            self.move_to(sel);
        }
    }

    pub fn select_prev_page(&mut self)
        requires
            old(self).wf(),
        ensures
            final(self).wf(),
            *final(self) == spec_moved(*old(self), spec_prev_page_sel(*old(self))),
    {
        if self.total > 0 {
            let sel = if self.selected >= self.height {
                self.selected - self.height
            } else {
                0
            };
            self.move_to(sel);
        } else {
            let sel = self.selected;
            self.move_to(sel);
        }
    }

    /// The renderer reports how many rows the list has on screen.
    pub fn update_height(&mut self, height: usize)
        requires
            old(self).wf(),
        ensures
            final(self).wf(),
            final(self).total == old(self).total,
            final(self).selected == old(self).selected,
            final(self).height == height,
            final(self).offset == scrolled_offset(
                old(self).selected as int,
                old(self).offset as int,
                height as int,
            ),
    {
        self.height = height;
        if self.height > 0 && self.selected - self.offset >= self.height {
            self.offset = self.selected + 1 - self.height;
        }
    }
}

/// Rows available for list items inside a bordered area of the given height.
pub fn viewport_height(area_height: usize) -> (r: usize)
    ensures
        r == (if area_height >= 2 {
            area_height - 2
        } else {
            0int
        }),
{
    if area_height >= 2 {
        area_height - 2
    } else {
        0
    }
}

} // verus!
