//! A sized, positioned, scrollable view onto one [`Document`]. The visible
//! area is a pair of half-open ranges in document coordinates; a scroll that
//! cannot keep the spans equal to the window size is rejected in its
//! entirety, never partially applied.

use crate::direction::Direction;
use crate::document::Document;
use crate::position::Position;
use crate::row::render_spec;
use crate::row::Row;
use crate::size::Size;
use vstd::prelude::*;

verus! {

pub struct VisibleArea {
    pub x_range: (usize, usize),
    pub y_range: (usize, usize),
}

impl VisibleArea {
    pub fn y_range(&self) -> (r: core::ops::Range<usize>)
        ensures
            r.start == self.y_range.0,
            r.end == self.y_range.1,
    {
        self.y_range.0..self.y_range.1
    }
}

/// `a - b`, floored at zero.
pub open spec fn sat_sub(a: int, b: int) -> int {
    if a - b < 0 {
        0
    } else {
        a - b
    }
}

/// `a + b`, capped at the machine word.
pub open spec fn sat_add(a: int, b: int) -> int {
    if a + b > usize::MAX {
        usize::MAX as int
    } else {
        a + b
    }
}

/// A range scrolled backwards (up or left) by `length` with saturating
/// arithmetic; committed only when the span survives the floor at zero,
/// otherwise the range is left as it was.
pub open spec fn scrolled_back(r0: int, r1: int, length: int) -> (int, int) {
    let n0 = sat_sub(r0, length);
    let n1 = sat_sub(r1, length);
    if r1 - r0 == n1 - n0 {
        (n0, n1)
    } else {
        (r0, r1)
    }
}

/// The y-range scrolled down by `length`. When the advanced range would run
/// past the document's `lines`, it is pulled back so its end sits exactly at
/// `lines` (the last page); the result is committed only when its span still
/// equals the window `height`.
pub open spec fn scrolled_down(r0: int, r1: int, length: int, lines: int, height: int) -> (
    int,
    int,
) {
    let a0 = sat_add(r0, length);
    let a1 = sat_add(r1, length);
    let n0 = if a1 > lines {
        sat_sub(a0, a1 - lines)
    } else {
        a0
    };
    let n1 = if a1 > lines {
        lines
    } else {
        a1
    };
    if n1 - n0 == height {
        (n0, n1)
    } else {
        (r0, r1)
    }
}

/// The x-range scrolled right by `length`; committed only when the span of
/// the advanced range equals the window `width`.
pub open spec fn scrolled_right(r0: int, r1: int, length: int, width: int) -> (int, int) {
    let n0 = sat_add(r0, length);
    let n1 = sat_add(r1, length);
    if n1 - n0 == width {
        (n0, n1)
    } else {
        (r0, r1)
    }
}

pub struct Window {
    pub doc: Document,
    pub size: Size,
    pub visible_area: VisibleArea,
    pub position: Position,
}

impl Window {
    /// The visible area spans exactly the window size on both axes.
    pub open spec fn wf(self) -> bool {
        &&& self.visible_area.x_range.0 <= self.visible_area.x_range.1
        &&& self.visible_area.x_range.1 - self.visible_area.x_range.0 == self.size.width as int
        &&& self.visible_area.y_range.0 <= self.visible_area.y_range.1
        &&& self.visible_area.y_range.1 - self.visible_area.y_range.0 == self.size.height as int
    }

    /// Where `scroll` moves the visible area: only the scrolled axis changes,
    /// and an adjustment that cannot keep the spans intact leaves it alone.
    pub open spec fn scrolled_area(self, direction: Direction, length: int) -> (
        (int, int),
        (int, int),
    ) {
        let x = (self.visible_area.x_range.0 as int, self.visible_area.x_range.1 as int);
        let y = (self.visible_area.y_range.0 as int, self.visible_area.y_range.1 as int);
        match direction {
            Direction::Up => (x, scrolled_back(y.0, y.1, length)),
            Direction::Down => (
                x,
                scrolled_down(y.0, y.1, length, self.doc@.len() as int, self.size.height as int),
            ),
            Direction::Left => (scrolled_back(x.0, x.1, length), y),
            Direction::Right => (scrolled_right(x.0, x.1, length, self.size.width as int), y),
        }
    }

    /// How many document rows the visible y-range currently covers: the full
    /// window height, or fewer near the end of the document.
    pub open spec fn visible_rows(self) -> int {
        let y0 = self.visible_area.y_range.0 as int;
        let y1 = self.visible_area.y_range.1 as int;
        let lines = self.doc@.len() as int;
        if y0 >= lines {
            0
        } else if y1 <= lines {
            y1 - y0
        } else {
            lines - y0
        }
    }

    pub fn new(doc: Document, size: Size, position: Position) -> (r: Self)
        ensures
            r.doc == doc,
            r.size == size,
            r.position == position,
            r.visible_area.x_range.0 == 0 && r.visible_area.x_range.1 == size.width as usize,
            r.visible_area.y_range.0 == 0 && r.visible_area.y_range.1 == size.height as usize,
            r.wf(),
    {
        Window {
            doc,
            visible_area: VisibleArea {
                x_range: (0, size.width as usize),
                y_range: (0, size.height as usize),
            },
            size,
            position,
        }
    }

    /// Shifts the visible area along one axis by `length`, with saturating
    /// arithmetic at the document's edges; the shift is all-or-nothing, as
    /// [`Window::scrolled_area`] states.
    pub fn scroll(&mut self, direction: &Direction, length: usize)
        requires
            old(self).wf(),
        ensures
            final(self).doc == old(self).doc,
            final(self).size == old(self).size,
            final(self).position == old(self).position,
            (
                final(self).visible_area.x_range.0 as int,
                final(self).visible_area.x_range.1 as int,
            ) == old(self).scrolled_area(*direction, length as int).0,
            (
                final(self).visible_area.y_range.0 as int,
                final(self).visible_area.y_range.1 as int,
            ) == old(self).scrolled_area(*direction, length as int).1,
            final(self).wf(),
    {
        match direction {
            Direction::Up => {
                let initial_space = self.visible_area.y_range.1 - self.visible_area.y_range.0;
                let y0 = self.visible_area.y_range.0.saturating_sub(length);
                let y1 = self.visible_area.y_range.1.saturating_sub(length);
                if initial_space == y1 - y0 {
                    self.visible_area.y_range.0 = y0;
                    self.visible_area.y_range.1 = y1;
                }
            }
            Direction::Down => {
                let mut y0 = self.visible_area.y_range.0.saturating_add(length);
                let mut y1 = self.visible_area.y_range.1.saturating_add(length);
                let lines = self.doc.lines_len();
                if lines < y1 {
                    y0 = y0.saturating_sub(y1 - lines);
                    y1 = lines;
                }
                if self.size.height as usize == y1.saturating_sub(y0) {
                    self.visible_area.y_range.0 = y0;
                    self.visible_area.y_range.1 = y1;
                }
            }
            Direction::Left => {
                let initial_space = self.visible_area.x_range.1 - self.visible_area.x_range.0;
                let x0 = self.visible_area.x_range.0.saturating_sub(length);
                let x1 = self.visible_area.x_range.1.saturating_sub(length);
                if initial_space == x1 - x0 {
                    self.visible_area.x_range.0 = x0;
                    self.visible_area.x_range.1 = x1;
                }
            }
            Direction::Right => {
                let x0 = self.visible_area.x_range.0.saturating_add(length);
                let x1 = self.visible_area.x_range.1.saturating_add(length);
                if self.size.width as usize == x1.saturating_sub(x0) {
                    self.visible_area.x_range.0 = x0;
                    self.visible_area.x_range.1 = x1;
                }
            }
        }
    }

    /// One rendered string per visible document row: the rows of the y-range
    /// that exist, each clipped through the x-range. Near the end of the
    /// document the result is legitimately shorter than the window height.
    pub fn visible_area_buff(&self) -> (r: Vec<String>)
        requires
            self.wf(),
        ensures
            r@.len() == self.visible_rows(),
            forall|i: int|
                0 <= i < r@.len() ==> r@[i]@ == render_spec(
                    self.doc@[self.visible_area.y_range.0 + i],
                    self.visible_area.x_range.0 as int,
                    self.visible_area.x_range.1 as int,
                ),
    {
        let lo = self.visible_area.y_range.0;
        let y1 = self.visible_area.y_range.1;
        let lines = self.doc.lines_len();
        let mut hi = if y1 < lines {
            y1
        } else {
            lines
        };
        if hi < lo {
            hi = lo;
        }
        let mut buff: Vec<String> = Vec::new();
        let mut i = lo;
        while i < hi
            invariant
                lo <= i <= hi,
                hi == lo + self.visible_rows(),
                lo == self.visible_area.y_range.0,
                hi <= self.doc@.len() || hi == lo,
                buff@.len() == i - lo,
                forall|j: int|
                    0 <= j < buff@.len() ==> buff@[j]@ == render_spec(
                        self.doc@[lo + j],
                        self.visible_area.x_range.0 as int,
                        self.visible_area.x_range.1 as int,
                    ),
            decreases hi - i,
        {
            if let Some(row) = self.doc.row(i) {
                buff.push(row.render(self.visible_area.x_range.0, self.visible_area.x_range.1));
            }
            i = i + 1;
        }
        buff
    }

    pub fn position(&self) -> (r: Position)
        ensures
            r == self.position,
    {
        self.position
    }

    pub fn size(&self) -> (r: &Size)
        ensures
            *r == self.size,
    {
        &self.size
    }

    /// Translates a window-local cursor row into an absolute document row by
    /// adding the visible area's vertical offset.
    pub fn document_line_number_from_cursor(&self, pos_y: usize) -> (r: usize)
        requires
            self.visible_area.y_range.0 + pos_y <= usize::MAX,
        ensures
            r == self.visible_area.y_range.0 + pos_y,
    {
        self.visible_area.y_range.0 + pos_y
    }

    /// Bounds-checked read of an absolute document row.
    pub fn document_row(&self, line: usize) -> (r: Option<&Row>)
        ensures
            match r {
                Some(row) => line < self.doc@.len() && row@ == self.doc@[line as int],
                None => line >= self.doc@.len(),
            },
    {
        self.doc.row(line)
    }

    /// The document's total line count.
    pub fn document_rows(&self) -> (r: usize)
        ensures
            r == self.doc@.len(),
    {
        self.doc.lines_len()
    }
}

/// Scrolling down by more than the lines that remain below the view pins the
/// view to the last full page: the visible y-range ends exactly at the line
/// count and still spans the window height. It never lands partway.
pub proof fn lemma_scroll_down_pins_to_last_page(w: Window, length: int)
    requires
        w.wf(),
        w.visible_area.y_range.1 <= w.doc@.len(),
        w.size.height as int <= w.doc@.len(),
        w.visible_area.y_range.1 + length > w.doc@.len(),
        w.visible_area.y_range.1 + length <= usize::MAX,
        length >= 0,
    ensures
        w.scrolled_area(Direction::Down, length).1 == (
            w.doc@.len() - w.size.height,
            w.doc@.len() as int,
        ),
{
}

/// Scrolling up from the top-most position is rejected: with the y-range
/// already starting at zero, the visible area is left exactly as it was.
pub proof fn lemma_scroll_up_from_top_rejected(w: Window, length: int)
    requires
        w.visible_area.y_range.0 == 0,
        length >= 0,
    ensures
        w.scrolled_area(Direction::Up, length) == (
            (w.visible_area.x_range.0 as int, w.visible_area.x_range.1 as int),
            (w.visible_area.y_range.0 as int, w.visible_area.y_range.1 as int),
        ),
{
}

} // verus!
