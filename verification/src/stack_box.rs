//! StackBox: a collection combinator that lays its children out along one
//! direction with a fixed gap between consecutive items. Along the stacking
//! direction its minimum is the sum of the children's minimums plus the total
//! gap, and its maximum the sum of their maximums (unbounded as soon as any
//! child is); on the cross axis it takes the largest opinion. Each child is
//! placed sequentially and receives exactly its declared minimum along the
//! stacking direction, and the full slot on the cross axis.

use vstd::prelude::*;
use crate::events::Events;
use crate::geometry::{size_add, spec_size_add, Rect, SizeRange, MAX_SIZE};
use crate::node::{
    active_children, active_children_next, children_ok, default_bounds, dibs_children,
    dibs_children_next, draw_children, inactive_children, inactive_children_next,
    lemma_default_bounds, slot_ok, spec_active_children_events, spec_default_bounds,
    spec_dibs_children_events, spec_draw_children, DrawBackend, DrawCommand, Direction, DrawNode,
    Node, TickNode,
};

verus! {

/// A child's declared range along the stacking direction.
pub open spec fn spec_along<T: Node>(item: T, horizontal: bool) -> SizeRange {
    if horizontal {
        item.spec_size_range().0
    } else {
        item.spec_size_range().1
    }
}

/// A child's declared range across the stacking direction.
pub open spec fn spec_cross<T: Node>(item: T, horizontal: bool) -> SizeRange {
    if horizontal {
        item.spec_size_range().1
    } else {
        item.spec_size_range().0
    }
}

/// The offset of child `i` from the slot's minimum edge along the stacking
/// direction: every earlier child's minimum plus one gap each.
pub open spec fn spec_stack_offset<T: Node>(items: Seq<T>, horizontal: bool, gap: int, i: int) -> int
    decreases i,
{
    if i <= 0 {
        0
    } else {
        spec_stack_offset(items, horizontal, gap, i - 1) + spec_along(items[i - 1], horizontal).min
            + gap
    }
}

/// The summed minimum along the stacking direction, total gap included.
pub open spec fn spec_stack_min_along<T: Node>(items: Seq<T>, horizontal: bool, gap: int) -> int {
    if items.len() == 0 {
        0
    } else {
        spec_stack_offset(items, horizontal, gap, items.len() as int) - gap
    }
}

/// The summed maximum along the stacking direction, total gap included;
/// `None` as soon as any child is unbounded. The sum saturates at
/// `MAX_SIZE`, which a declared size can never exceed anyway.
pub open spec fn spec_stack_max_along<T: Node>(items: Seq<T>, horizontal: bool, gap: int) -> Option<
    int,
>
    decreases items.len(),
{
    if items.len() == 0 {
        Some(0)
    } else if items.len() == 1 {
        match spec_along(items[0], horizontal).max {
            Some(m) => Some(m as int),
            None => None,
        }
    } else {
        match (
            spec_stack_max_along(items.drop_last(), horizontal, gap),
            spec_along(items.last(), horizontal).max,
        ) {
            (Some(a), Some(b)) => Some(spec_size_add(spec_size_add(a, gap), b as int)),
            _ => None,
        }
    }
}

/// The cross-axis rule: the largest minimum, and the largest maximum
/// (unbounded as soon as any child is).
pub open spec fn spec_stack_cross<T: Node>(items: Seq<T>, horizontal: bool) -> (int, Option<int>)
    decreases items.len(),
{
    if items.len() == 0 {
        (0, Some(0))
    } else {
        let rest = spec_stack_cross(items.drop_last(), horizontal);
        let c = spec_cross(items.last(), horizontal);
        (
            if rest.0 >= c.min {
                rest.0
            } else {
                c.min as int
            },
            match (rest.1, c.max) {
                (Some(x), Some(y)) => Some(
                    if x >= y {
                        x
                    } else {
                        y as int
                    },
                ),
                _ => None,
            },
        )
    }
}

/// Offsets grow with the index, each child's span ends where the next
/// offset begins, and the cross rule dominates every child.
pub proof fn lemma_stack_measures<T: Node>(items: Seq<T>, horizontal: bool, gap: int)
    requires
        0 <= gap,
        forall|i: int| 0 <= i < items.len() ==> (#[trigger] items[i]).wf(),
    ensures
        forall|i: int, j: int|
            0 <= i <= j <= items.len() ==> #[trigger] spec_stack_offset(items, horizontal, gap, i)
                <= #[trigger] spec_stack_offset(items, horizontal, gap, j),
        forall|i: int|
            0 <= i < items.len() ==> #[trigger] spec_stack_offset(items, horizontal, gap, i)
                + spec_along(items[i], horizontal).min <= spec_stack_min_along(
                items,
                horizontal,
                gap,
            ),
        0 <= spec_stack_min_along(items, horizontal, gap) || items.len() == 0,
        0 <= spec_stack_cross(items, horizontal).0 <= MAX_SIZE,
        (spec_stack_cross(items, horizontal).1 matches Some(m) ==> 0 <= m <= MAX_SIZE
            && spec_stack_cross(items, horizontal).0 <= m),
        (spec_stack_max_along(items, horizontal, gap) matches Some(m) ==> 0 <= m <= MAX_SIZE
            && spec_stack_min_along(items, horizontal, gap) <= m) || spec_stack_min_along(
            items,
            horizontal,
            gap,
        ) > MAX_SIZE,
        forall|i: int|
            0 <= i < items.len() ==> spec_stack_cross(items, horizontal).0 >= (
            #[trigger] items[i]).spec_size_range().0.min || horizontal,
        forall|i: int|
            0 <= i < items.len() ==> spec_stack_cross(items, horizontal).0 >= (
            #[trigger] items[i]).spec_size_range().1.min || !horizontal,
    decreases items.len(),
{
    if items.len() > 0 {
        assert(forall|i: int| 0 <= i < items.len() - 1 ==> items.drop_last()[i] == items[i]);
        lemma_stack_measures(items.drop_last(), horizontal, gap);
        items.last().lemma_size_range_wf();
        assert forall|i: int| 0 <= i <= items.len() implies 0 <= #[trigger] spec_stack_offset(
            items,
            horizontal,
            gap,
            i,
        ) && (i < items.len() ==> spec_stack_offset(items, horizontal, gap, i) == spec_stack_offset(
            items.drop_last(),
            horizontal,
            gap,
            i,
        )) by {
            lemma_stack_offset_nonneg(items, horizontal, gap, i);
            if i < items.len() {
                lemma_stack_offset_agree(items, items.drop_last(), horizontal, gap, i);
            }
        };
        assert forall|i: int, j: int| 0 <= i <= j <= items.len() implies #[trigger] spec_stack_offset(
            items,
            horizontal,
            gap,
            i,
        ) <= #[trigger] spec_stack_offset(items, horizontal, gap, j) by {
            lemma_stack_offset_monotone(items, horizontal, gap, i, j);
        };
        assert forall|i: int| 0 <= i < items.len() implies #[trigger] spec_stack_offset(
            items,
            horizontal,
            gap,
            i,
        ) + spec_along(items[i], horizontal).min <= spec_stack_min_along(items, horizontal, gap) by {
            assert(spec_stack_offset(items, horizontal, gap, i + 1) == spec_stack_offset(
                items,
                horizontal,
                gap,
                i,
            ) + spec_along(items[i], horizontal).min + gap);
            lemma_stack_offset_monotone(items, horizontal, gap, i + 1, items.len() as int);
        };
        assert(spec_stack_offset(items, horizontal, gap, items.len() as int) == spec_stack_offset(
            items,
            horizontal,
            gap,
            items.len() - 1,
        ) + spec_along(items[items.len() - 1], horizontal).min + gap);
        lemma_stack_offset_nonneg(items, horizontal, gap, items.len() - 1);
        lemma_stack_max_bounds(items, horizontal, gap);
        lemma_stack_max_bounds(items.drop_last(), horizontal, gap);
        lemma_stack_offset_agree(items.drop_last(), items, horizontal, gap, items.len() - 1);
    }
}

/// Offsets are sums of non-negative terms.
proof fn lemma_stack_offset_nonneg<T: Node>(items: Seq<T>, horizontal: bool, gap: int, i: int)
    requires
        0 <= gap,
        forall|k: int| 0 <= k < items.len() ==> (#[trigger] items[k]).wf(),
        i <= items.len(),
    ensures
        spec_stack_offset(items, horizontal, gap, i) >= 0,
    decreases i,
{
    if i > 0 {
        lemma_stack_offset_nonneg(items, horizontal, gap, i - 1);
        items[i - 1].lemma_size_range_wf();
    }
}

/// An offset only looks at the children before it.
proof fn lemma_stack_offset_agree<T: Node>(
    a: Seq<T>,
    b: Seq<T>,
    horizontal: bool,
    gap: int,
    i: int,
)
    requires
        0 <= i,
        i <= a.len(),
        i <= b.len(),
        forall|k: int| 0 <= k < i ==> a[k] == b[k],
    ensures
        spec_stack_offset(a, horizontal, gap, i) == spec_stack_offset(b, horizontal, gap, i),
    decreases i,
{
    if i > 0 {
        lemma_stack_offset_agree(a, b, horizontal, gap, i - 1);
    }
}

/// Offsets grow with the index.
proof fn lemma_stack_offset_monotone<T: Node>(
    items: Seq<T>,
    horizontal: bool,
    gap: int,
    i: int,
    j: int,
)
    requires
        0 <= gap,
        forall|k: int| 0 <= k < items.len() ==> (#[trigger] items[k]).wf(),
        0 <= i <= j <= items.len(),
    ensures
        spec_stack_offset(items, horizontal, gap, i) <= spec_stack_offset(items, horizontal, gap, j),
    decreases j - i,
{
    if i < j {
        lemma_stack_offset_monotone(items, horizontal, gap, i, j - 1);
        items[j - 1].lemma_size_range_wf();
    }
}

#[derive(Clone, Copy, Debug)]
pub struct StackBoxLayout {
    pub direction: Direction,
    pub gap: i64,
}

impl StackBoxLayout {
    pub open spec fn wf(self) -> bool {
        0 <= self.gap <= MAX_SIZE
    }
}

pub struct StackBoxNode<T> {
    pub layout: StackBoxLayout,
    pub content: Vec<T>,
}

impl<T> StackBoxNode<T> {
    pub fn new(direction: Direction, gap: i64) -> (r: StackBoxNode<T>)
        ensures
            r.layout == (StackBoxLayout { direction, gap }),
            r.content@ == Seq::<T>::empty(),
    {
        StackBoxNode { layout: StackBoxLayout { direction, gap }, content: Vec::new() }
    }

    pub fn with_content(direction: Direction, gap: i64, content: Vec<T>) -> (r: StackBoxNode<T>)
        ensures
            r.layout == (StackBoxLayout { direction, gap }),
            r.content == content,
    {
        StackBoxNode { layout: StackBoxLayout { direction, gap }, content }
    }

    /// Build from an already-collected child sequence.
    pub fn from_iter(direction: Direction, gap: i64, content: Vec<T>) -> (r: StackBoxNode<T>)
        ensures
            r.layout == (StackBoxLayout { direction, gap }),
            r.content == content,
    {
        StackBoxNode { layout: StackBoxLayout { direction, gap }, content }
    }
}

impl<T: Node> StackBoxNode<T> {
    pub open spec fn spec_horizontal(&self) -> bool {
        self.layout.direction is Row
    }

    /// Where child `i` goes: its offset along the stacking direction, with
    /// exactly its declared minimum as its span, and the full slot across.
    pub open spec fn spec_child_rect(&self, slot: Rect, i: int) -> Rect {
        let off = spec_stack_offset(self.content@, self.spec_horizontal(), self.layout.gap as int, i);
        let span = spec_along(self.content@[i], self.spec_horizontal()).min as int;
        if self.spec_horizontal() {
            Rect {
                x_min: (slot.x_min + off) as i64,
                y_min: slot.y_min,
                x_max: (slot.x_min + off + span) as i64,
                y_max: slot.y_max,
            }
        } else {
            Rect {
                x_min: slot.x_min,
                y_min: (slot.y_min + off) as i64,
                x_max: slot.x_max,
                y_max: (slot.y_min + off + span) as i64,
            }
        }
    }

    pub open spec fn spec_child_rects(&self, slot: Rect) -> Seq<Rect> {
        Seq::new(self.content@.len(), |i: int| self.spec_child_rect(slot, i))
    }

    /// Sequential placement with cumulative offset and gap.
    pub fn child_rects(&self, slot: Rect) -> (r: Vec<Rect>)
        requires
            self.wf(),
            slot_ok(slot, self.spec_size_range()),
        ensures
            r@ == self.spec_child_rects(slot),
            children_ok(self.content@, r@),
    {
        let ghost items = self.content@;
        let ghost horizontal = self.spec_horizontal();
        let ghost gap_i = self.layout.gap as int;
        proof {
            lemma_stack_measures(items, horizontal, gap_i);
        }
        let horizontal_e = matches!(self.layout.direction, Direction::Row);
        let mut rects: Vec<Rect> = Vec::new();
        let n = self.content.len();
        let mut cursor: i64 = if horizontal_e {
            slot.x_min
        } else {
            slot.y_min
        };
        let ghost base = cursor as int;
        let mut i: usize = 0;
        while i < n
            invariant
                i <= n,
                n == items.len(),
                items == self.content@,
                self.wf(),
                slot_ok(slot, self.spec_size_range()),
                horizontal == self.spec_horizontal(),
                gap_i == self.layout.gap as int,
                horizontal_e == horizontal,
                base == if horizontal {
                    slot.x_min as int
                } else {
                    slot.y_min as int
                },
                cursor as int == base + spec_stack_offset(items, horizontal, gap_i, i as int),
                rects@.len() == i,
                forall|j: int| 0 <= j < i ==> rects@[j] == self.spec_child_rect(slot, j),
                forall|i2: int, j2: int|
                    0 <= i2 <= j2 <= items.len() ==> #[trigger] spec_stack_offset(
                        items,
                        horizontal,
                        gap_i,
                        i2,
                    ) <= #[trigger] spec_stack_offset(items, horizontal, gap_i, j2),
                forall|j: int|
                    0 <= j < items.len() ==> #[trigger] spec_stack_offset(items, horizontal, gap_i, j)
                        + spec_along(items[j], horizontal).min <= spec_stack_min_along(
                        items,
                        horizontal,
                        gap_i,
                    ),
            decreases n - i,
        {
            proof {
                assert(items[i as int].wf());
                items[i as int].lemma_size_range_wf();
                assert(spec_stack_offset(items, horizontal, gap_i, i as int) <= spec_stack_offset(
                    items,
                    horizontal,
                    gap_i,
                    items.len() as int,
                ));
            }
            let c = self.content[i].size_range();
            let span = if horizontal_e {
                c.0.min
            } else {
                c.1.min
            };
            let rect = if horizontal_e {
                Rect { x_min: cursor, y_min: slot.y_min, x_max: cursor + span, y_max: slot.y_max }
            } else {
                Rect { x_min: slot.x_min, y_min: cursor, x_max: slot.x_max, y_max: cursor + span }
            };
            rects.push(rect);
            cursor = cursor + span + self.layout.gap;
            i = i + 1;
        }
        proof {
            lemma_stack_measures(items, horizontal, gap_i);
            assert(rects@ =~= self.spec_child_rects(slot));
            assert forall|j: int| 0 <= j < items.len() implies (#[trigger] items[j]).wf() && slot_ok(
                self.spec_child_rects(slot)[j],
                items[j].spec_size_range(),
            ) by {
                items[j].lemma_size_range_wf();
                lemma_stack_offset_nonneg(items, horizontal, gap_i, j);
                assert(spec_stack_offset(items, horizontal, gap_i, j) + spec_along(
                    items[j],
                    horizontal,
                ).min <= spec_stack_min_along(items, horizontal, gap_i));
                assert(spec_stack_min_along(items, horizontal, gap_i) <= MAX_SIZE);
            };
        }
        rects
    }
}

impl<T: Node> Node for StackBoxNode<T> {
    open spec fn wf(&self) -> bool {
        &&& self.layout.wf()
        &&& forall|i: int| 0 <= i < self.content@.len() ==> (#[trigger] self.content@[i]).wf()
        &&& self.spec_size_range().0.wf()
        &&& self.spec_size_range().1.wf()
        &&& spec_stack_min_along(self.content@, self.spec_horizontal(), self.layout.gap as int)
            <= MAX_SIZE
        &&& (spec_stack_max_along(self.content@, self.spec_horizontal(), self.layout.gap as int)
            matches Some(m) ==> m <= MAX_SIZE)
    }

    open spec fn spec_size_range(&self) -> (SizeRange, SizeRange) {
        let items = self.content@;
        let horizontal = self.spec_horizontal();
        let gap = self.layout.gap as int;
        let along = SizeRange {
            min: spec_stack_min_along(items, horizontal, gap) as i64,
            max: match spec_stack_max_along(items, horizontal, gap) {
                Some(m) => Some(m as i64),
                None => None,
            },
        };
        let cross_raw = spec_stack_cross(items, horizontal);
        let cross = SizeRange {
            min: cross_raw.0 as i64,
            max: match cross_raw.1 {
                Some(m) => Some(m as i64),
                None => None,
            },
        };
        if horizontal {
            (along, cross)
        } else {
            (cross, along)
        }
    }

    proof fn lemma_size_range_wf(&self) {
    }

    fn size_range(&self) -> (r: (SizeRange, SizeRange)) {
        let ghost items = self.content@;
        let ghost horizontal = self.spec_horizontal();
        let ghost gap_i = self.layout.gap as int;
        let horizontal_e = matches!(self.layout.direction, Direction::Row);
        let n = self.content.len();
        let mut along_min: i64 = 0;
        let mut along_max: Option<i64> = Some(0);
        let mut cross_min: i64 = 0;
        let mut cross_max: Option<i64> = Some(0);
        let mut i: usize = 0;
        proof {
            assert(items.subrange(0, 0) =~= Seq::<T>::empty());
        }
        while i < n
            invariant
                i <= n,
                n == items.len(),
                items == self.content@,
                self.wf(),
                horizontal == self.spec_horizontal(),
                gap_i == self.layout.gap as int,
                horizontal_e == horizontal,
                along_min as int == spec_stack_min_along(
                    items.subrange(0, i as int),
                    horizontal,
                    gap_i,
                ),
                match along_max {
                    Some(m) => spec_stack_max_along(items.subrange(0, i as int), horizontal, gap_i)
                        == Some(m as int),
                    None => spec_stack_max_along(items.subrange(0, i as int), horizontal, gap_i)
                        is None,
                },
                cross_min as int == spec_stack_cross(items.subrange(0, i as int), horizontal).0,
                match cross_max {
                    Some(m) => spec_stack_cross(items.subrange(0, i as int), horizontal).1 == Some(
                        m as int,
                    ),
                    None => spec_stack_cross(items.subrange(0, i as int), horizontal).1 is None,
                },
            decreases n - i,
        {
            proof {
                assert(items[i as int].wf());
                items[i as int].lemma_size_range_wf();
                let p0 = items.subrange(0, i as int);
                let p1 = items.subrange(0, i as int + 1);
                assert(p1.drop_last() =~= p0);
                assert(p1.last() == items[i as int]);
                lemma_stack_prefix_bounds(items, horizontal, gap_i, i as int + 1);
                lemma_stack_prefix_bounds(items, horizontal, gap_i, i as int);
                lemma_stack_max_bounds(p0, horizontal, gap_i);
                lemma_stack_max_bounds(p1, horizontal, gap_i);
                lemma_stack_offset_agree(p0, p1, horizontal, gap_i, i as int);
                assert(spec_stack_offset(p1, horizontal, gap_i, i as int + 1) == spec_stack_offset(
                    p1,
                    horizontal,
                    gap_i,
                    i as int,
                ) + spec_along(items[i as int], horizontal).min + gap_i);
            }
            let c = self.content[i].size_range();
            let along_c = if horizontal_e {
                c.0
            } else {
                c.1
            };
            let cross_c = if horizontal_e {
                c.1
            } else {
                c.0
            };
            if i == 0 {
                along_min = along_c.min;
                along_max = along_c.max;
            } else {
                along_min = along_min + self.layout.gap + along_c.min;
                along_max = match (along_max, along_c.max) {
                    (Some(a), Some(b)) => Some(size_add(size_add(a, self.layout.gap), b)),
                    _ => None,
                };
            }
            cross_min = if cross_min >= cross_c.min {
                cross_min
            } else {
                cross_c.min
            };
            cross_max = match (cross_max, cross_c.max) {
                (Some(x), Some(y)) => Some(
                    if x >= y {
                        x
                    } else {
                        y
                    },
                ),
                _ => None,
            };
            i = i + 1;
            proof {
                let prefix_long = items.subrange(0, i as int);
                assert(prefix_long.drop_last() =~= items.subrange(0, i - 1));
                assert(prefix_long.last() == items[i - 1]);
                lemma_stack_offset_agree(prefix_long, items, horizontal, gap_i, i as int);
                lemma_stack_offset_agree(
                    items.subrange(0, i - 1),
                    items,
                    horizontal,
                    gap_i,
                    i - 1,
                );
            }
        }
        proof {
            assert(items.subrange(0, n as int) =~= items);
        }
        let along = SizeRange { min: along_min, max: along_max };
        let cross = SizeRange { min: cross_min, max: cross_max };
        if horizontal_e {
            (along, cross)
        } else {
            (cross, along)
        }
    }

    open spec fn spec_bounds(&self, slot: Rect) -> Rect {
        spec_default_bounds(slot, self.spec_size_range())
    }

    open spec fn placement_req(&self, slot: Rect) -> bool {
        true
    }

    proof fn lemma_bounds_in_slot(&self, slot: Rect) {
        lemma_default_bounds(slot, self.spec_size_range());
    }

    fn bounds(&self, slot: Rect) -> (r: Rect) {
        default_bounds(slot, self.size_range())
    }
}

/// A prefix of the stack never asks for more than the whole stack does,
/// along the stacking direction.
proof fn lemma_stack_prefix_bounds<T: Node>(items: Seq<T>, horizontal: bool, gap: int, i: int)
    requires
        0 <= gap,
        forall|k: int| 0 <= k < items.len() ==> (#[trigger] items[k]).wf(),
        0 <= i <= items.len(),
    ensures
        spec_stack_min_along(items.subrange(0, i), horizontal, gap) <= spec_stack_min_along(
            items,
            horizontal,
            gap,
        ),
        0 <= spec_stack_min_along(items.subrange(0, i), horizontal, gap),
    decreases items.len() - i,
{
    let prefix = items.subrange(0, i);
    lemma_stack_measures(prefix, horizontal, gap);
    lemma_stack_measures(items, horizontal, gap);
    if i < items.len() {
        lemma_stack_prefix_bounds(items, horizontal, gap, i + 1);
        let longer = items.subrange(0, i + 1);
        assert(longer.drop_last() =~= prefix);
        assert(longer.last() == items[i]);
        items[i].lemma_size_range_wf();
        lemma_stack_offset_agree(longer, items, horizontal, gap, i + 1);
        lemma_stack_offset_agree(prefix, items, horizontal, gap, i);
        lemma_stack_offset_agree(prefix, longer, horizontal, gap, i);
        assert(spec_stack_offset(longer, horizontal, gap, i + 1) == spec_stack_offset(
            longer,
            horizontal,
            gap,
            i,
        ) + spec_along(items[i], horizontal).min + gap);
    } else {
        assert(prefix =~= items);
    }
}

/// The summed maximum, when finite, stays within the size bound.
proof fn lemma_stack_max_bounds<T: Node>(items: Seq<T>, horizontal: bool, gap: int)
    requires
        0 <= gap,
        forall|k: int| 0 <= k < items.len() ==> (#[trigger] items[k]).wf(),
    ensures
        (spec_stack_max_along(items, horizontal, gap) matches Some(m) ==> 0 <= m <= MAX_SIZE),
    decreases items.len(),
{
    if items.len() > 0 {
        assert(forall|k: int| 0 <= k < items.len() - 1 ==> items.drop_last()[k] == items[k]);
        lemma_stack_max_bounds(items.drop_last(), horizontal, gap);
        items.last().lemma_size_range_wf();
        if items.len() == 1 {
            items[0].lemma_size_range_wf();
        }
    }
}

impl<TB, T: TickNode<TB>> TickNode<TB> for StackBoxNode<T> {
    open spec fn spec_dibs_events(&self, slot: Rect, events: Events) -> Events {
        spec_dibs_children_events::<TB, T>(self.content@, self.spec_child_rects(slot), events)
    }

    open spec fn dibs_next(&self, slot: Rect, events: Events, next: &Self) -> bool {
        &&& next.layout == self.layout
        &&& dibs_children_next::<TB, T>(
            self.content@,
            self.spec_child_rects(slot),
            events,
            next.content@,
        )
    }

    open spec fn spec_active_events(&self, slot: Rect, events: Events) -> Events {
        spec_active_children_events::<TB, T>(self.content@, self.spec_child_rects(slot), events)
    }

    open spec fn active_next(&self, slot: Rect, events: Events, next: &Self) -> bool {
        &&& next.layout == self.layout
        &&& active_children_next::<TB, T>(
            self.content@,
            self.spec_child_rects(slot),
            events,
            next.content@,
        )
    }

    open spec fn inactive_next(&self, slot: Rect, events: Events, next: &Self) -> bool {
        &&& next.layout == self.layout
        &&& inactive_children_next::<TB, T>(
            self.content@,
            self.spec_child_rects(slot),
            events,
            next.content@,
        )
    }

    fn dibs_tick(&mut self, tb: &mut TB, slot: Rect, events: &mut Events) {
        let ghost before = self.content@;
        let rects = self.child_rects(slot);
        dibs_children(&mut self.content, &rects, tb, events);
        proof {
            lemma_stack_congruence(*self, before, self.content@);
        }
    }

    fn active_tick(&mut self, tb: &mut TB, slot: Rect, events: &mut Events) {
        let ghost before = self.content@;
        let rects = self.child_rects(slot);
        active_children(&mut self.content, &rects, tb, events);
        proof {
            lemma_stack_congruence(*self, before, self.content@);
        }
    }

    fn inactive_tick(&mut self, tb: &mut TB, slot: Rect, events: &Events) {
        let ghost before = self.content@;
        let rects = self.child_rects(slot);
        inactive_children(&mut self.content, &rects, tb, events);
        proof {
            lemma_stack_congruence(*self, before, self.content@);
        }
    }
}

/// Two child sequences whose members report the same sizes make the same
/// stack measures.
proof fn lemma_stack_congruence<T: Node>(node: StackBoxNode<T>, a: Seq<T>, b: Seq<T>)
    requires
        a.len() == b.len(),
        forall|i: int|
            0 <= i < a.len() ==> (#[trigger] b[i]).spec_size_range() == a[i].spec_size_range(),
    ensures
        spec_stack_min_along(b, node.spec_horizontal(), node.layout.gap as int)
            == spec_stack_min_along(a, node.spec_horizontal(), node.layout.gap as int),
        spec_stack_max_along(b, node.spec_horizontal(), node.layout.gap as int)
            == spec_stack_max_along(a, node.spec_horizontal(), node.layout.gap as int),
        spec_stack_cross(b, node.spec_horizontal()) == spec_stack_cross(a, node.spec_horizontal()),
        forall|i: int|
            0 <= i <= a.len() ==> #[trigger] spec_stack_offset(
                b,
                node.spec_horizontal(),
                node.layout.gap as int,
                i,
            ) == spec_stack_offset(a, node.spec_horizontal(), node.layout.gap as int, i),
    decreases a.len(),
{
    let horizontal = node.spec_horizontal();
    let gap = node.layout.gap as int;
    assert forall|i: int| 0 <= i <= a.len() implies #[trigger] spec_stack_offset(b, horizontal, gap, i)
        == spec_stack_offset(a, horizontal, gap, i) by {
        lemma_stack_offset_congruence(a, b, horizontal, gap, i);
    };
    if a.len() > 0 {
        assert(forall|i: int| 0 <= i < a.len() - 1 ==> a.drop_last()[i] == a[i]);
        assert(forall|i: int| 0 <= i < b.len() - 1 ==> b.drop_last()[i] == b[i]);
        lemma_stack_congruence(node, a.drop_last(), b.drop_last());
    }
}

/// Offsets agree between size-matched sequences.
proof fn lemma_stack_offset_congruence<T: Node>(
    a: Seq<T>,
    b: Seq<T>,
    horizontal: bool,
    gap: int,
    i: int,
)
    requires
        a.len() == b.len(),
        forall|k: int|
            0 <= k < a.len() ==> (#[trigger] b[k]).spec_size_range() == a[k].spec_size_range(),
        i <= a.len(),
    ensures
        spec_stack_offset(b, horizontal, gap, i) == spec_stack_offset(a, horizontal, gap, i),
    decreases i,
{
    if i > 0 {
        lemma_stack_offset_congruence(a, b, horizontal, gap, i - 1);
    }
}

impl<DB: DrawBackend, T: DrawNode<DB>> DrawNode<DB> for StackBoxNode<T> {
    open spec fn spec_draw(&self, slot: Rect) -> Seq<DrawCommand<DB::Color>> {
        spec_draw_children::<DB, T>(self.content@, self.spec_child_rects(slot))
    }

    fn draw(&self, d: &mut DB, slot: Rect) {
        let rects = self.child_rects(slot);
        draw_children(&self.content, &rects, d);
    }
}

} // verus!
