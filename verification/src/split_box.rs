//! SplitBox: a combinator that displays exactly two children sharing the
//! slot, split at an absolute coordinate along the configured direction.
//! Along that direction it sums the children's minimums (and, when both are
//! finite, their maximums); on the cross axis it takes the largest opinion.
//! The split coordinate is clamped so that each child keeps at least its
//! declared minimum.

use vstd::prelude::*;
use crate::events::Events;
use crate::geometry::{clamp_i64, size_add, spec_clamp, spec_size_add, Rect, SizeRange, MAX_COORD, MAX_SIZE};
use crate::node::{
    active_children, active_children_next, children_ok, default_bounds, dibs_children,
    dibs_children_next, draw_children, inactive_children, inactive_children_next,
    lemma_default_bounds, slot_ok, spec_active_children_events, spec_default_bounds,
    spec_dibs_children_events, spec_draw_children, DrawBackend, DrawCommand, Direction, DrawNode,
    Node, TickNode,
};
use crate::overlay_box::spec_axis_join;

verus! {

#[derive(Clone, Copy, Debug)]
pub struct SplitBoxLayout {
    pub direction: Direction,
    pub split_point: i64,
}

impl SplitBoxLayout {
    pub open spec fn wf(self) -> bool {
        -MAX_COORD <= self.split_point <= MAX_COORD
    }
}

/// A UI element that displays two children sharing a variable amount of
/// space.
pub struct SplitBoxNode<T> {
    pub layout: SplitBoxLayout,
    pub content: Vec<T>,
}

impl<T> SplitBoxNode<T> {
    pub fn new(direction: Direction, split_point: i64, item1: T, item2: T) -> (r: SplitBoxNode<T>)
        ensures
            r.layout == (SplitBoxLayout { direction, split_point }),
            r.content@.len() == 2,
            r.content@[0] == item1,
            r.content@[1] == item2,
    {
        let mut content = Vec::new();
        content.push(item1);
        content.push(item2);
        SplitBoxNode { layout: SplitBoxLayout { direction, split_point }, content }
    }
}

impl<T: Node> SplitBoxNode<T> {
    pub open spec fn spec_horizontal(&self) -> bool {
        self.layout.direction is Row
    }

    /// The two children's ranges along the split direction.
    pub open spec fn spec_along(&self, i: int) -> SizeRange {
        if self.spec_horizontal() {
            self.content@[i].spec_size_range().0
        } else {
            self.content@[i].spec_size_range().1
        }
    }

    /// The split coordinate, clamped so that each side keeps at least its
    /// child's declared minimum. When the caller's split honors both
    /// minimums the clamp is the identity.
    pub open spec fn spec_effective_split(&self, slot: Rect) -> int {
        if self.spec_horizontal() {
            spec_clamp(
                self.layout.split_point as int,
                slot.x_min + self.spec_along(0).min,
                slot.x_max - self.spec_along(1).min,
            )
        } else {
            spec_clamp(
                self.layout.split_point as int,
                slot.y_min + self.spec_along(0).min,
                slot.y_max - self.spec_along(1).min,
            )
        }
    }

    /// The sub-rectangle child `i` receives: the slot up to the split, and
    /// the slot from the split on.
    pub open spec fn spec_child_rect(&self, slot: Rect, i: int) -> Rect {
        let split = self.spec_effective_split(slot);
        if self.spec_horizontal() {
            if i == 0 {
                Rect { x_min: slot.x_min, y_min: slot.y_min, x_max: split as i64, y_max: slot.y_max }
            } else {
                Rect { x_min: split as i64, y_min: slot.y_min, x_max: slot.x_max, y_max: slot.y_max }
            }
        } else {
            if i == 0 {
                Rect { x_min: slot.x_min, y_min: slot.y_min, x_max: slot.x_max, y_max: split as i64 }
            } else {
                Rect { x_min: slot.x_min, y_min: split as i64, x_max: slot.x_max, y_max: slot.y_max }
            }
        }
    }

    pub open spec fn spec_child_rects(&self, slot: Rect) -> Seq<Rect> {
        Seq::new(self.content@.len(), |i: int| self.spec_child_rect(slot, i))
    }

    /// The two sub-rectangles.
    pub fn child_rects(&self, slot: Rect) -> (r: Vec<Rect>)
        requires
            self.wf(),
            slot_ok(slot, self.spec_size_range()),
        ensures
            r@ == self.spec_child_rects(slot),
            children_ok(self.content@, r@),
    {
        proof {
            self.content@[0].lemma_size_range_wf();
            self.content@[1].lemma_size_range_wf();
        }
        let c0 = self.content[0].size_range();
        let c1 = self.content[1].size_range();
        let horizontal = matches!(self.layout.direction, Direction::Row);
        let mut rects: Vec<Rect> = Vec::new();
        if horizontal {
            let split = clamp_i64(
                self.layout.split_point,
                slot.x_min + c0.0.min,
                slot.x_max - c1.0.min,
            );
            rects.push(
                Rect { x_min: slot.x_min, y_min: slot.y_min, x_max: split, y_max: slot.y_max },
            );
            rects.push(
                Rect { x_min: split, y_min: slot.y_min, x_max: slot.x_max, y_max: slot.y_max },
            );
        } else {
            let split = clamp_i64(
                self.layout.split_point,
                slot.y_min + c0.1.min,
                slot.y_max - c1.1.min,
            );
            rects.push(
                Rect { x_min: slot.x_min, y_min: slot.y_min, x_max: slot.x_max, y_max: split },
            );
            rects.push(
                Rect { x_min: slot.x_min, y_min: split, x_max: slot.x_max, y_max: slot.y_max },
            );
        }
        proof {
            assert(rects@ =~= self.spec_child_rects(slot));
        }
        rects
    }
}

impl<T: Node> Node for SplitBoxNode<T> {
    open spec fn wf(&self) -> bool {
        &&& self.layout.wf()
        &&& self.content@.len() == 2
        &&& self.content@[0].wf()
        &&& self.content@[1].wf()
        &&& self.spec_along(0).min + self.spec_along(1).min <= MAX_SIZE
    }

    open spec fn spec_size_range(&self) -> (SizeRange, SizeRange) {
        let a0 = self.spec_along(0);
        let a1 = self.spec_along(1);
        let along = SizeRange {
            min: (a0.min + a1.min) as i64,
            max: match (a0.max, a1.max) {
                (Some(x), Some(y)) => Some(spec_size_add(x as int, y as int) as i64),
                _ => None,
            },
        };
        let cross = if self.spec_horizontal() {
            spec_axis_join(
                self.content@[0].spec_size_range().1,
                self.content@[1].spec_size_range().1,
            )
        } else {
            spec_axis_join(
                self.content@[0].spec_size_range().0,
                self.content@[1].spec_size_range().0,
            )
        };
        if self.spec_horizontal() {
            (along, cross)
        } else {
            (cross, along)
        }
    }

    proof fn lemma_size_range_wf(&self) {
        self.content@[0].lemma_size_range_wf();
        self.content@[1].lemma_size_range_wf();
    }

    fn size_range(&self) -> (r: (SizeRange, SizeRange)) {
        proof {
            self.content@[0].lemma_size_range_wf();
            self.content@[1].lemma_size_range_wf();
        }
        let c0 = self.content[0].size_range();
        let c1 = self.content[1].size_range();
        let horizontal = matches!(self.layout.direction, Direction::Row);
        if horizontal {
            let along = SizeRange {
                min: c0.0.min + c1.0.min,
                max: match (c0.0.max, c1.0.max) {
                    (Some(x), Some(y)) => Some(size_add(x, y)),
                    _ => None,
                },
            };
            let cross = SizeRange {
                min: if c0.1.min >= c1.1.min {
                    c0.1.min
                } else {
                    c1.1.min
                },
                max: match (c0.1.max, c1.1.max) {
                    (Some(x), Some(y)) => Some(
                        if x >= y {
                            x
                        } else {
                            y
                        },
                    ),
                    _ => None,
                },
            };
            (along, cross)
        } else {
            let along = SizeRange {
                min: c0.1.min + c1.1.min,
                max: match (c0.1.max, c1.1.max) {
                    (Some(x), Some(y)) => Some(size_add(x, y)),
                    _ => None,
                },
            };
            let cross = SizeRange {
                min: if c0.0.min >= c1.0.min {
                    c0.0.min
                } else {
                    c1.0.min
                },
                max: match (c0.0.max, c1.0.max) {
                    (Some(x), Some(y)) => Some(
                        if x >= y {
                            x
                        } else {
                            y
                        },
                    ),
                    _ => None,
                },
            };
            (cross, along)
        }
    }

    open spec fn spec_bounds(&self, slot: Rect) -> Rect {
        spec_default_bounds(slot, self.spec_size_range())
    }

    open spec fn placement_req(&self, slot: Rect) -> bool {
        true
    }

    proof fn lemma_bounds_in_slot(&self, slot: Rect) {
        self.lemma_size_range_wf();
        lemma_default_bounds(slot, self.spec_size_range());
    }

    fn bounds(&self, slot: Rect) -> (r: Rect) {
        proof {
            self.lemma_size_range_wf();
        }
        default_bounds(slot, self.size_range())
    }
}

impl<TB, T: TickNode<TB>> TickNode<TB> for SplitBoxNode<T> {
    open spec fn spec_dibs_events(&self, slot: Rect, events: Events) -> Events {
        spec_dibs_children_events::<TB, T>(self.content@, self.spec_child_rects(slot), events)
    }

    open spec fn dibs_next(&self, slot: Rect, events: Events, next: &Self) -> bool {
        &&& next.layout == self.layout
        &&& dibs_children_next::<TB, T>(
            self.content@,
            self.spec_child_rects(slot),
            events,
            next.content@,
        )
    }

    open spec fn spec_active_events(&self, slot: Rect, events: Events) -> Events {
        spec_active_children_events::<TB, T>(self.content@, self.spec_child_rects(slot), events)
    }

    open spec fn active_next(&self, slot: Rect, events: Events, next: &Self) -> bool {
        &&& next.layout == self.layout
        &&& active_children_next::<TB, T>(
            self.content@,
            self.spec_child_rects(slot),
            events,
            next.content@,
        )
    }

    open spec fn inactive_next(&self, slot: Rect, events: Events, next: &Self) -> bool {
        &&& next.layout == self.layout
        &&& inactive_children_next::<TB, T>(
            self.content@,
            self.spec_child_rects(slot),
            events,
            next.content@,
        )
    }

    fn dibs_tick(&mut self, tb: &mut TB, slot: Rect, events: &mut Events) {
        let rects = self.child_rects(slot);
        dibs_children(&mut self.content, &rects, tb, events);
    }

    fn active_tick(&mut self, tb: &mut TB, slot: Rect, events: &mut Events) {
        let rects = self.child_rects(slot);
        active_children(&mut self.content, &rects, tb, events);
    }

    fn inactive_tick(&mut self, tb: &mut TB, slot: Rect, events: &Events) {
        let rects = self.child_rects(slot);
        inactive_children(&mut self.content, &rects, tb, events);
    }
}

impl<DB: DrawBackend, T: DrawNode<DB>> DrawNode<DB> for SplitBoxNode<T> {
    open spec fn spec_draw(&self, slot: Rect) -> Seq<DrawCommand<DB::Color>> {
        spec_draw_children::<DB, T>(self.content@, self.spec_child_rects(slot))
    }

    fn draw(&self, d: &mut DB, slot: Rect) {
        let rects = self.child_rects(slot);
        draw_children(&self.content, &rects, d);
    }
}

} // verus!
