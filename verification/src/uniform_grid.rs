//! UniformGrid: a collection combinator that places its children in
//! fixed-size cells, left to right then top to bottom, with a fixed gap
//! between columns and between rows. It reports an exact overall size
//! computed from the cell size, the gaps and the number of rows the children
//! fill, and offers the inverse mapping from a point (relative to the grid's
//! origin) back to the index of the cell it falls in.

use vstd::prelude::*;
use crate::events::Events;
use crate::geometry::{Point, Rect, SizeRange, MAX_SIZE};
use crate::node::{
    active_children, active_children_next, children_ok, default_bounds, dibs_children,
    dibs_children_next, draw_children, inactive_children, inactive_children_next,
    lemma_default_bounds, slot_ok, spec_active_children_events, spec_default_bounds,
    spec_dibs_children_events, spec_draw_children, DrawBackend, DrawCommand, DrawNode, Node,
    TickNode,
};
use vstd::arithmetic::div_mod::{
    lemma_fundamental_div_mod, lemma_fundamental_div_mod_converse_div,
    lemma_fundamental_div_mod_converse_mod,
};
use vstd::arithmetic::mul::lemma_mul_inequality;

verus! {

/// Largest number of cells, and of columns, a grid may be configured with.
pub const MAX_GRID: i64 = 0x10_0000;

#[derive(Clone, Copy, Debug)]
pub struct UniformGridLayout {
    pub item_width: i64,
    pub item_height: i64,
    pub column_gap: i64,
    pub row_gap: i64,
    pub num_columns: i64,
}

impl UniformGridLayout {
    pub open spec fn wf(self) -> bool {
        &&& 0 <= self.item_width <= MAX_SIZE
        &&& 0 <= self.item_height <= MAX_SIZE
        &&& 0 <= self.column_gap <= MAX_SIZE
        &&& 0 <= self.row_gap <= MAX_SIZE
        &&& 1 <= self.num_columns <= MAX_GRID
    }

    /// The horizontal distance between the left edges of two adjacent cells.
    pub open spec fn spec_pitch_x(self) -> int {
        self.item_width + self.column_gap
    }

    /// The vertical distance between the top edges of two adjacent cells.
    pub open spec fn spec_pitch_y(self) -> int {
        self.item_height + self.row_gap
    }
}

pub struct UniformGridNode<T> {
    pub layout: UniformGridLayout,
    pub content: Vec<T>,
}

impl<T> UniformGridNode<T> {
    pub fn new(
        item_width: i64,
        item_height: i64,
        column_gap: i64,
        row_gap: i64,
        num_columns: i64,
    ) -> (r: UniformGridNode<T>)
        ensures
            r.layout == (UniformGridLayout {
                item_width,
                item_height,
                column_gap,
                row_gap,
                num_columns,
            }),
            r.content@ == Seq::<T>::empty(),
    {
        UniformGridNode {
            layout: UniformGridLayout { item_width, item_height, column_gap, row_gap, num_columns },
            content: Vec::new(),
        }
    }

    pub fn with_content(
        item_width: i64,
        item_height: i64,
        column_gap: i64,
        row_gap: i64,
        num_columns: i64,
        content: Vec<T>,
    ) -> (r: UniformGridNode<T>)
        ensures
            r.layout == (UniformGridLayout {
                item_width,
                item_height,
                column_gap,
                row_gap,
                num_columns,
            }),
            r.content == content,
    {
        UniformGridNode {
            layout: UniformGridLayout { item_width, item_height, column_gap, row_gap, num_columns },
            content,
        }
    }

    /// Build from an already-collected child sequence.
    pub fn from_iter(
        item_width: i64,
        item_height: i64,
        column_gap: i64,
        row_gap: i64,
        num_columns: i64,
        content: Vec<T>,
    ) -> (r: UniformGridNode<T>)
        ensures
            r.layout == (UniformGridLayout {
                item_width,
                item_height,
                column_gap,
                row_gap,
                num_columns,
            }),
            r.content == content,
    {
        UniformGridNode {
            layout: UniformGridLayout { item_width, item_height, column_gap, row_gap, num_columns },
            content,
        }
    }
}

impl<T: Node> UniformGridNode<T> {
    /// How many columns the children actually fill.
    pub open spec fn spec_used_cols(&self) -> int {
        if self.content@.len() >= self.layout.num_columns {
            self.layout.num_columns as int
        } else {
            self.content@.len() as int
        }
    }

    /// How many rows the children fill: the number of children divided by
    /// the column count, rounded up.
    pub open spec fn spec_rows(&self) -> int {
        (self.content@.len() as int + self.layout.num_columns as int - 1)
            / self.layout.num_columns as int
    }

    /// The exact overall width: the filled columns, one gap between each.
    pub open spec fn spec_grid_width(&self) -> int {
        if self.spec_used_cols() == 0 {
            0
        } else {
            self.spec_used_cols() * self.layout.spec_pitch_x() - self.layout.column_gap
        }
    }

    /// The exact overall height: the filled rows, one gap between each.
    pub open spec fn spec_grid_height(&self) -> int {
        if self.spec_rows() == 0 {
            0
        } else {
            self.spec_rows() * self.layout.spec_pitch_y() - self.layout.row_gap
        }
    }

    /// The column of cell `i`.
    pub open spec fn spec_col(&self, i: int) -> int {
        i % self.layout.num_columns as int
    }

    /// The row of cell `i`.
    pub open spec fn spec_row(&self, i: int) -> int {
        i / self.layout.num_columns as int
    }

    /// The rectangle of cell `i` within the offered slot.
    pub open spec fn spec_cell_rect(&self, slot: Rect, i: int) -> Rect {
        let x_min = slot.x_min + self.spec_col(i) * self.layout.spec_pitch_x();
        let y_min = slot.y_min + self.spec_row(i) * self.layout.spec_pitch_y();
        Rect {
            x_min: x_min as i64,
            y_min: y_min as i64,
            x_max: (x_min + self.layout.item_width) as i64,
            y_max: (y_min + self.layout.item_height) as i64,
        }
    }

    pub open spec fn spec_child_rects(&self, slot: Rect) -> Seq<Rect> {
        Seq::new(self.content@.len(), |i: int| self.spec_cell_rect(slot, i))
    }

    /// The index of the cell that a point, relative to the grid's origin,
    /// falls in; `None` for a point in a gap margin, past the configured
    /// columns, past the last child, or outside the grid entirely.
    pub open spec fn spec_position(&self, p: Point) -> Option<usize> {
        let pitch_x = self.layout.spec_pitch_x();
        let pitch_y = self.layout.spec_pitch_y();
        if p.x < 0 || p.y < 0 || pitch_x <= 0 || pitch_y <= 0 {
            None
        } else {
            let col = p.x as int / pitch_x;
            let col_region = p.x as int % pitch_x;
            let row = p.y as int / pitch_y;
            let row_region = p.y as int % pitch_y;
            let index = row * self.layout.num_columns + col;
            if col_region <= self.layout.item_width && col < self.layout.num_columns && row_region
                <= self.layout.item_height && index < self.content@.len() {
                Some(index as usize)
            } else {
                None
            }
        }
    }

    /// Hit-test a pointer location, relative to the grid's origin, against
    /// the grid's cells.
    pub fn position(&self, relative_point: Point) -> (r: Option<usize>)
        requires
            self.wf(),
        ensures
            r == self.spec_position(relative_point),
    {
        let pitch_x = self.layout.item_width + self.layout.column_gap;
        let pitch_y = self.layout.item_height + self.layout.row_gap;
        if relative_point.x >= 0 && relative_point.y >= 0 && pitch_x > 0 && pitch_y > 0 {
            let px = relative_point.x as u64;
            let py = relative_point.y as u64;
            let col = px / (pitch_x as u64);
            let col_region = px % (pitch_x as u64);
            let row = py / (pitch_y as u64);
            let row_region = py % (pitch_y as u64);
            if col_region <= self.layout.item_width as u64 && col < self.layout.num_columns as u64
                && row_region <= self.layout.item_height as u64 {
                if row >= MAX_GRID as u64 {
                    proof {
                        lemma_mul_inequality(
                            MAX_GRID as int,
                            row as int,
                            self.layout.num_columns as int,
                        );
                        lemma_mul_inequality(1, self.layout.num_columns as int, MAX_GRID as int);
                    }
                    return None;
                }
                proof {
                    vstd::arithmetic::mul::lemma_mul_upper_bound(
                        row as int,
                        MAX_GRID - 1,
                        self.layout.num_columns as int,
                        MAX_GRID as int,
                    );
                    vstd::arithmetic::mul::lemma_mul_nonnegative(
                        row as int,
                        self.layout.num_columns as int,
                    );
                }
                let index = row * (self.layout.num_columns as u64) + col;
                if index < self.content.len() as u64 {
                    return Some(index as usize);
                }
            }
            None
        } else {
            None
        }
    }
}

/// Multiplying a cell coordinate that lies before the end of the grid by the
/// pitch keeps it before the end of the grid.
proof fn lemma_grid_span(count: int, pitch: int, size: int, gap: int, k: int)
    requires
        pitch == size + gap,
        0 <= size,
        0 <= gap,
        0 <= k < count,
    ensures
        k * pitch + size <= count * pitch - gap,
{
    lemma_mul_inequality(k, count - 1, pitch);
    assert((count - 1) * pitch == count * pitch - pitch) by (nonlinear_arith);
}

impl<T: Node> UniformGridNode<T> {
    /// One cell rectangle per child.
    pub fn child_rects(&self, slot: Rect) -> (r: Vec<Rect>)
        requires
            self.wf(),
            slot_ok(slot, self.spec_size_range()),
        ensures
            r@ == self.spec_child_rects(slot),
            children_ok(self.content@, r@),
    {
        let ghost items = self.content@;
        let cols = self.layout.num_columns;
        let pitch_x = self.layout.item_width + self.layout.column_gap;
        let pitch_y = self.layout.item_height + self.layout.row_gap;
        let mut rects: Vec<Rect> = Vec::new();
        let n = self.content.len();
        let mut i: usize = 0;
        while i < n
            invariant
                i <= n,
                n == items.len(),
                items == self.content@,
                self.wf(),
                slot_ok(slot, self.spec_size_range()),
                cols == self.layout.num_columns,
                pitch_x == self.layout.spec_pitch_x(),
                pitch_y == self.layout.spec_pitch_y(),
                rects@.len() == i,
                forall|j: int| 0 <= j < i ==> rects@[j] == self.spec_cell_rect(slot, j),
            decreases n - i,
        {
            proof {
                self.lemma_cell_rect_ok(slot, i as int);
            }
            let col = (i as u64) % (cols as u64);
            let row = (i as u64) / (cols as u64);
            let x_min = slot.x_min + (col as i64) * pitch_x;
            let y_min = slot.y_min + (row as i64) * pitch_y;
            let rect = Rect {
                x_min,
                y_min,
                x_max: x_min + self.layout.item_width,
                y_max: y_min + self.layout.item_height,
            };
            rects.push(rect);
            i = i + 1;
        }
        proof {
            assert(rects@ =~= self.spec_child_rects(slot));
            assert forall|j: int| 0 <= j < items.len() implies (#[trigger] items[j]).wf() && slot_ok(
                self.spec_child_rects(slot)[j],
                items[j].spec_size_range(),
            ) by {
                self.lemma_cell_rect_ok(slot, j);
            };
        }
        rects
    }

    /// Cell `i` lies within any slot satisfying the offer contract, and can
    /// hold child `i`'s declared minimum.
    proof fn lemma_cell_rect_ok(&self, slot: Rect, i: int)
        requires
            self.wf(),
            slot_ok(slot, self.spec_size_range()),
            0 <= i < self.content@.len(),
        ensures
            self.spec_cell_rect(slot, i).wf(),
            self.spec_cell_rect(slot, i).spec_fits_in(slot),
            slot_ok(self.spec_cell_rect(slot, i), self.content@[i].spec_size_range()),
            0 <= self.spec_col(i) < self.spec_used_cols(),
            0 <= self.spec_row(i) < self.spec_rows(),
            self.spec_col(i) * self.layout.spec_pitch_x() + self.layout.item_width
                <= self.spec_grid_width(),
            self.spec_row(i) * self.layout.spec_pitch_y() + self.layout.item_height
                <= self.spec_grid_height(),
    {
        let cols = self.layout.num_columns as int;
        let col = self.spec_col(i);
        let row = self.spec_row(i);
        let len = self.content@.len() as int;
        lemma_fundamental_div_mod(i, cols);
        vstd::arithmetic::div_mod::lemma_remainder_lower(i, cols);
        vstd::arithmetic::div_mod::lemma_remainder_upper(i, cols);
        vstd::arithmetic::div_mod::lemma_div_pos_is_pos(i, cols);
        assert(0 <= col < cols);
        assert(0 <= row);
        // the column lies among the filled columns
        if len < cols {
            assert(row == 0 && col == i) by {
                lemma_fundamental_div_mod_converse_div(i, cols, 0, i);
                lemma_fundamental_div_mod_converse_mod(i, cols, 0, i);
            };
        }
        assert(col < self.spec_used_cols());
        // the row lies among the filled rows
        assert(row < self.spec_rows()) by {
            lemma_fundamental_div_mod(len + cols - 1, cols);
            vstd::arithmetic::div_mod::lemma_remainder_upper(len + cols - 1, cols);
            if row >= self.spec_rows() {
                lemma_mul_inequality(self.spec_rows() + 1, row + 1, cols);
                lemma_mul_inequality(self.spec_rows(), row, cols);
                assert((row + 1) * cols == row * cols + cols);
                assert((self.spec_rows() + 1) * cols == self.spec_rows() * cols + cols);
            }
        };
        lemma_grid_span(
            self.spec_used_cols(),
            self.layout.spec_pitch_x(),
            self.layout.item_width as int,
            self.layout.column_gap as int,
            col,
        );
        lemma_grid_span(
            self.spec_rows(),
            self.layout.spec_pitch_y(),
            self.layout.item_height as int,
            self.layout.row_gap as int,
            row,
        );
        vstd::arithmetic::mul::lemma_mul_nonnegative(col, self.layout.spec_pitch_x());
        vstd::arithmetic::mul::lemma_mul_nonnegative(row, self.layout.spec_pitch_y());
        self.content@[i].lemma_size_range_wf();
    }
}

impl<T: Node> Node for UniformGridNode<T> {
    open spec fn wf(&self) -> bool {
        &&& self.layout.wf()
        &&& self.content@.len() <= MAX_GRID
        &&& forall|i: int| 0 <= i < self.content@.len() ==> (#[trigger] self.content@[i]).wf()
        &&& forall|i: int|
            0 <= i < self.content@.len() ==> (#[trigger] self.content@[i]).spec_size_range().0.min
                <= self.layout.item_width && self.content@[i].spec_size_range().1.min
                <= self.layout.item_height
        &&& self.spec_grid_width() <= MAX_SIZE
        &&& self.spec_grid_height() <= MAX_SIZE
    }

    open spec fn spec_size_range(&self) -> (SizeRange, SizeRange) {
        (
            SizeRange {
                min: self.spec_grid_width() as i64,
                max: Some(self.spec_grid_width() as i64),
            },
            SizeRange {
                min: self.spec_grid_height() as i64,
                max: Some(self.spec_grid_height() as i64),
            },
        )
    }

    proof fn lemma_size_range_wf(&self) {
        self.lemma_grid_measures();
    }

    fn size_range(&self) -> (r: (SizeRange, SizeRange)) {
        proof {
            self.lemma_grid_measures();
        }
        let cols = self.layout.num_columns;
        let len = self.content.len() as i64;
        let used_cols = if len >= cols {
            cols
        } else {
            len
        };
        let rows = ((len as u64 + cols as u64 - 1) / cols as u64) as i64;
        let width = if used_cols == 0 {
            0
        } else {
            used_cols * (self.layout.item_width + self.layout.column_gap) - self.layout.column_gap
        };
        let height = if rows == 0 {
            0
        } else {
            rows * (self.layout.item_height + self.layout.row_gap) - self.layout.row_gap
        };
        (SizeRange::exact(width), SizeRange::exact(height))
    }

    open spec fn spec_bounds(&self, slot: Rect) -> Rect {
        spec_default_bounds(slot, self.spec_size_range())
    }

    open spec fn placement_req(&self, slot: Rect) -> bool {
        true
    }

    proof fn lemma_bounds_in_slot(&self, slot: Rect) {
        self.lemma_grid_measures();
        lemma_default_bounds(slot, self.spec_size_range());
    }

    fn bounds(&self, slot: Rect) -> (r: Rect) {
        proof {
            self.lemma_grid_measures();
        }
        default_bounds(slot, self.size_range())
    }
}

impl<T: Node> UniformGridNode<T> {
    /// The grid's overall measures are non-negative and the row count
    /// matches the children, so the declared range is well formed.
    proof fn lemma_grid_measures(&self)
        requires
            self.wf(),
        ensures
            0 <= self.spec_grid_width() <= MAX_SIZE,
            0 <= self.spec_grid_height() <= MAX_SIZE,
            0 <= self.spec_used_cols() <= MAX_GRID,
            0 <= self.spec_rows() <= MAX_GRID,
            self.spec_size_range().0.wf(),
            self.spec_size_range().1.wf(),
    {
        let cols = self.layout.num_columns as int;
        let len = self.content@.len() as int;
        vstd::arithmetic::div_mod::lemma_div_pos_is_pos(len + cols - 1, cols);
        assert(self.spec_rows() <= MAX_GRID) by {
            vstd::arithmetic::div_mod::lemma_div_is_ordered(
                len + cols - 1,
                MAX_GRID * cols + cols - 1,
                cols,
            );
            lemma_mul_inequality(len, MAX_GRID as int, cols);
            lemma_fundamental_div_mod(MAX_GRID * cols + cols - 1, cols);
            lemma_fundamental_div_mod_converse_div(
                MAX_GRID * cols + cols - 1,
                cols,
                MAX_GRID as int,
                cols - 1,
            );
        };
        if self.spec_used_cols() > 0 {
            vstd::arithmetic::mul::lemma_mul_strictly_positive(
                self.spec_used_cols(),
                self.layout.spec_pitch_x(),
            );
            lemma_mul_inequality(1, self.spec_used_cols(), self.layout.spec_pitch_x());
        }
        if self.spec_rows() > 0 {
            lemma_mul_inequality(1, self.spec_rows(), self.layout.spec_pitch_y());
        }
    }
}

impl<TB, T: TickNode<TB>> TickNode<TB> for UniformGridNode<T> {
    open spec fn spec_dibs_events(&self, slot: Rect, events: Events) -> Events {
        spec_dibs_children_events::<TB, T>(self.content@, self.spec_child_rects(slot), events)
    }

    open spec fn dibs_next(&self, slot: Rect, events: Events, next: &Self) -> bool {
        &&& next.layout == self.layout
        &&& dibs_children_next::<TB, T>(
            self.content@,
            self.spec_child_rects(slot),
            events,
            next.content@,
        )
    }

    open spec fn spec_active_events(&self, slot: Rect, events: Events) -> Events {
        spec_active_children_events::<TB, T>(self.content@, self.spec_child_rects(slot), events)
    }

    open spec fn active_next(&self, slot: Rect, events: Events, next: &Self) -> bool {
        &&& next.layout == self.layout
        &&& active_children_next::<TB, T>(
            self.content@,
            self.spec_child_rects(slot),
            events,
            next.content@,
        )
    }

    open spec fn inactive_next(&self, slot: Rect, events: Events, next: &Self) -> bool {
        &&& next.layout == self.layout
        &&& inactive_children_next::<TB, T>(
            self.content@,
            self.spec_child_rects(slot),
            events,
            next.content@,
        )
    }

    fn dibs_tick(&mut self, tb: &mut TB, slot: Rect, events: &mut Events) {
        let rects = self.child_rects(slot);
        dibs_children(&mut self.content, &rects, tb, events);
    }

    fn active_tick(&mut self, tb: &mut TB, slot: Rect, events: &mut Events) {
        let rects = self.child_rects(slot);
        active_children(&mut self.content, &rects, tb, events);
    }

    fn inactive_tick(&mut self, tb: &mut TB, slot: Rect, events: &Events) {
        let rects = self.child_rects(slot);
        inactive_children(&mut self.content, &rects, tb, events);
    }
}

impl<DB: DrawBackend, T: DrawNode<DB>> DrawNode<DB> for UniformGridNode<T> {
    open spec fn spec_draw(&self, slot: Rect) -> Seq<DrawCommand<DB::Color>> {
        spec_draw_children::<DB, T>(self.content@, self.spec_child_rects(slot))
    }

    fn draw(&self, d: &mut DB, slot: Rect) {
        let rects = self.child_rects(slot);
        draw_children(&self.content, &rects, d);
    }
}

/// The center of a cell, relative to the grid's origin.
pub open spec fn spec_cell_center_rel<T: Node>(node: UniformGridNode<T>, i: int) -> Point {
    Point {
        x: (node.spec_col(i) * node.layout.spec_pitch_x() + node.layout.item_width / 2) as i64,
        y: (node.spec_row(i) * node.layout.spec_pitch_y() + node.layout.item_height / 2) as i64,
    }
}

/// UniformGrid inverse law, cell side: for every child index, hit-testing
/// the center of that child's cell (taken relative to the grid's origin)
/// finds exactly that index; and the relative center is the center of the
/// cell rectangle within any slot.
pub proof fn lemma_grid_position_inverse<T: Node>(node: UniformGridNode<T>, slot: Rect, i: int)
    requires
        node.wf(),
        slot_ok(slot, node.spec_size_range()),
        0 <= i < node.content@.len(),
        node.layout.spec_pitch_x() > 0,
        node.layout.spec_pitch_y() > 0,
    ensures
        node.spec_position(spec_cell_center_rel(node, i)) == Some(i as usize),
        spec_cell_center_rel(node, i).x == (node.spec_cell_rect(slot, i).x_min
            + node.spec_cell_rect(slot, i).x_max) / 2 - slot.x_min,
        spec_cell_center_rel(node, i).y == (node.spec_cell_rect(slot, i).y_min
            + node.spec_cell_rect(slot, i).y_max) / 2 - slot.y_min,
{
    let cols = node.layout.num_columns as int;
    let col = node.spec_col(i);
    let row = node.spec_row(i);
    let pitch_x = node.layout.spec_pitch_x();
    let pitch_y = node.layout.spec_pitch_y();
    let w = node.layout.item_width as int;
    let h = node.layout.item_height as int;
    node.lemma_cell_rect_ok(slot, i);
    let p = spec_cell_center_rel(node, i);
    // the center's coordinates decompose over the pitch with the half-size
    // as the remainder
    assert(w / 2 < pitch_x && h / 2 < pitch_y) by {
        vstd::arithmetic::div_mod::lemma_remainder_lower(w, 2);
        vstd::arithmetic::div_mod::lemma_remainder_lower(h, 2);
        lemma_fundamental_div_mod(w, 2);
        lemma_fundamental_div_mod(h, 2);
    };
    assert(0 <= w / 2 && 0 <= h / 2) by {
        vstd::arithmetic::div_mod::lemma_div_pos_is_pos(w, 2);
        vstd::arithmetic::div_mod::lemma_div_pos_is_pos(h, 2);
    };
    vstd::arithmetic::mul::lemma_mul_nonnegative(col, pitch_x);
    vstd::arithmetic::mul::lemma_mul_nonnegative(row, pitch_y);
    lemma_fundamental_div_mod_converse_div(col * pitch_x + w / 2, pitch_x, col, w / 2);
    lemma_fundamental_div_mod_converse_mod(col * pitch_x + w / 2, pitch_x, col, w / 2);
    lemma_fundamental_div_mod_converse_div(row * pitch_y + h / 2, pitch_y, row, h / 2);
    lemma_fundamental_div_mod_converse_mod(row * pitch_y + h / 2, pitch_y, row, h / 2);
    lemma_fundamental_div_mod(i, cols);
    assert(w / 2 <= w && h / 2 <= h) by {
        vstd::arithmetic::div_mod::lemma_div_is_ordered_by_denominator(w, 1, 2);
        vstd::arithmetic::div_mod::lemma_div_is_ordered_by_denominator(h, 1, 2);
        vstd::arithmetic::div_mod::lemma_div_by_self(1);
    };
    // the relative center against the cell rectangle in the slot
    assert(0 <= col * pitch_x + w / 2 <= MAX_SIZE);
    assert(0 <= row * pitch_y + h / 2 <= MAX_SIZE);
    assert(p.x as int == col * pitch_x + w / 2);
    assert(p.y as int == row * pitch_y + h / 2);
    assert(p.x as int / pitch_x == col && p.x as int % pitch_x == w / 2);
    assert(p.y as int / pitch_y == row && p.y as int % pitch_y == h / 2);
    assert(row * (node.layout.num_columns as int) + col == i) by {
        lemma_fundamental_div_mod(i, cols);
        assert(cols * (i / cols) == (i / cols) * cols) by (nonlinear_arith);
    };
    assert((slot.x_min + col * pitch_x + (slot.x_min + col * pitch_x + w)) / 2 == slot.x_min + col
        * pitch_x + w / 2) by {
        vstd::arithmetic::div_mod::lemma_hoist_over_denominator(
            w,
            slot.x_min + col * pitch_x,
            2nat,
        );
    };
    assert((slot.y_min + row * pitch_y + (slot.y_min + row * pitch_y + h)) / 2 == slot.y_min + row
        * pitch_y + h / 2) by {
        vstd::arithmetic::div_mod::lemma_hoist_over_denominator(
            h,
            slot.y_min + row * pitch_y,
            2nat,
        );
    };
}

/// UniformGrid inverse law, gap side: a point that falls strictly inside a
/// gap margin, past a cell's span on either axis, hits nothing.
pub proof fn lemma_grid_position_gap<T: Node>(node: UniformGridNode<T>, p: Point)
    requires
        node.wf(),
        p.x >= 0,
        p.y >= 0,
        node.layout.spec_pitch_x() > 0,
        node.layout.spec_pitch_y() > 0,
        p.x as int % node.layout.spec_pitch_x() > node.layout.item_width || p.y as int
            % node.layout.spec_pitch_y() > node.layout.item_height,
    ensures
        node.spec_position(p) is None,
{
}

} // verus!
