//! Scroll position and viewport geometry, and the window of logical indices
//! that a viewport shows.
//!
//! Rows are laid out along the scroll axis one after another. The row of the
//! index `first` has its leading edge `offset` units from the leading edge of
//! the visible area (negative: scrolled past it); the visible area is `extent`
//! units long, and every row is taken to be `row_extent` units long, which is
//! the estimate the host keeps for rows it has not laid out yet.

use vstd::prelude::*;
use vstd::arithmetic::div_mod::{lemma_fundamental_div_mod, lemma_mod_pos_bound};

verus! {

/// The scroll position of a list and the geometry of its visible area.
#[derive(Clone, Copy, Debug, PartialEq, Eq, Structural)]
pub struct Viewport {
    /// The logical index that the scroll position is anchored to.
    pub first: usize,
    /// Distance of the anchor row's leading edge from the viewport's leading edge.
    pub offset: i64,
    /// Length of the visible area along the scroll axis.
    pub extent: u32,
    /// Length assumed for one row; zero is read as one.
    pub row_extent: u32,
}

/// The logical indices that a viewport shows: those from `start` up to, and
/// not including, `end`.
#[derive(Clone, Copy, Debug, PartialEq, Eq, Structural)]
pub struct ViewportWindow {
    pub start: usize,
    pub end: usize,
}

impl Viewport {
    /// The row length that the geometry works with: never zero.
    pub open spec fn row(self) -> int {
        if self.row_extent == 0 {
            1
        } else {
            self.row_extent as int
        }
    }

    /// Where the leading edge of the row of `index` lies, relative to the
    /// leading edge of the visible area.
    pub open spec fn row_start(self, index: int) -> int {
        self.offset + (index - self.first) * self.row()
    }

    /// A logical index is shown when it is addressable, not before the anchor,
    /// and its row overlaps the visible area.
    pub open spec fn shows(self, count: nat, index: int) -> bool {
        &&& self.first <= index < count
        &&& self.row_start(index) < self.extent
        &&& self.row_start(index) + self.row() > 0
    }

    /// Rows from the anchor on that lie wholly before the visible area.
    pub open spec fn rows_before(self) -> int {
        if self.offset < 0 {
            (-self.offset) / self.row()
        } else {
            0
        }
    }

    /// Rows from the anchor on that start before the end of the visible area.
    pub open spec fn rows_through(self) -> int {
        if self.offset < self.extent {
            (self.extent - self.offset + self.row() - 1) / self.row()
        } else {
            0
        }
    }

    /// One past the last shown index.
    pub open spec fn window_end(self, count: nat) -> nat {
        if self.first + self.rows_through() < count {
            (self.first + self.rows_through()) as nat
        } else {
            count
        }
    }

    /// The first shown index, or `window_end` when nothing is shown.
    pub open spec fn window_start(self, count: nat) -> nat {
        if self.first + self.rows_before() < self.window_end(count) {
            (self.first + self.rows_before()) as nat
        } else {
            self.window_end(count)
        }
    }

    /// The shown indices form exactly the range from `window_start` to
    /// `window_end`.
    pub proof fn lemma_window_is_what_shows(self, count: nat, index: int)
        ensures
            self.window_start(count) <= self.window_end(count) <= count,
            self.shows(count, index) <==> self.window_start(count) <= index < self.window_end(
                count,
            ),
    {
        let row = self.row();
        let k = index - self.first;
        if self.offset < 0 {
            let x = -self.offset;
            lemma_fundamental_div_mod(x, row);
            lemma_mod_pos_bound(x, row);
            let q = x / row;
            assert(0 <= q) by (nonlinear_arith)
                requires
                    x == row * q + (x % row),
                    0 <= x % row < row,
                    0 <= x,
                    0 < row,
            ;
            assert(k >= q <==> (k + 1) * row > x) by (nonlinear_arith)
                requires
                    x == row * q + (x % row),
                    0 <= x % row < row,
                    0 < row,
            ;
        } else {
            assert(k >= 0 ==> (k + 1) * row > 0) by (nonlinear_arith)
                requires
                    0 < row,
            ;
        }
        if self.offset < self.extent {
            let y = self.extent - self.offset + row - 1;
            lemma_fundamental_div_mod(y, row);
            lemma_mod_pos_bound(y, row);
            let t = y / row;
            assert(0 <= t) by (nonlinear_arith)
                requires
                    y == row * t + (y % row),
                    0 <= y % row < row,
                    0 <= y,
                    0 < row,
            ;
            assert(k < t <==> k * row < y - row + 1) by (nonlinear_arith)
                requires
                    y == row * t + (y % row),
                    0 <= y % row < row,
                    0 < row,
            ;
        } else {
            assert(k >= 0 ==> k * row >= 0) by (nonlinear_arith)
                requires
                    0 < row,
            ;
        }
        assert((k + 1) * row == k * row + row) by (nonlinear_arith);
    }

    /// Computes the window of shown indices among `count` items.
    pub fn window(&self, count: usize) -> (window: ViewportWindow)
        ensures
            window.start == self.window_start(count as nat),
            window.end == self.window_end(count as nat),
            window.start <= window.end <= count,
    {
        let row: i128 = if self.row_extent == 0 {
            1
        } else {
            self.row_extent as i128
        };
        let offset: i128 = self.offset as i128;
        let extent: i128 = self.extent as i128;
        let first: i128 = self.first as i128;
        let through: i128 = if offset < extent {
            (extent - offset + row - 1) / row
        } else {
            0
        };
        let before: i128 = if offset < 0 {
            (-offset) / row
        } else {
            0
        };
        proof {
            self.lemma_window_is_what_shows(count as nat, 0);
            if offset < extent {
                assert(through <= extent - offset + row - 1) by (nonlinear_arith)
                    requires
                        through == (extent - offset + row - 1) / (row as int),
                        0 < row,
                        0 <= extent - offset + row - 1,
                ;
            }
            if offset < 0 {
                assert(0 <= before <= -offset) by (nonlinear_arith)
                    requires
                        before == (-offset) / (row as int),
                        0 < row,
                        0 <= -offset,
                ;
            }
        }
        let end: usize = if first + through < count as i128 {
            (first + through) as usize
        } else {
            count
        };
        let start: usize = if first + before < end as i128 {
            (first + before) as usize
        } else {
            end
        };
        ViewportWindow { start, end }
    }
}

} // verus!
