//! OverlayBox: a collection combinator whose children all share the same
//! space: every child receives the combinator's own bounded slot. Its
//! minimum and maximum per axis are the largest any child asks for.

use vstd::prelude::*;
use crate::events::Events;
use crate::geometry::{Rect, SizeRange};
use crate::node::{
    active_children, active_children_next, children_ok, default_bounds, dibs_children,
    dibs_children_next, draw_children, inactive_children, inactive_children_next,
    lemma_default_bounds, slot_ok, spec_active_children_events, spec_default_bounds,
    spec_dibs_children_events, spec_draw_children, DrawBackend, DrawCommand, DrawNode, Node,
    TickNode,
};

verus! {

/// The larger minimum of the two, and the larger maximum (unbounded as soon
/// as either side is).
pub open spec fn spec_axis_join(a: SizeRange, b: SizeRange) -> SizeRange {
    SizeRange {
        min: if a.min >= b.min {
            a.min
        } else {
            b.min
        },
        max: match (a.max, b.max) {
            (Some(x), Some(y)) => Some(
                if x >= y {
                    x
                } else {
                    y
                },
            ),
            _ => None,
        },
    }
}

/// The overlay sizing rule: per axis, the largest minimum and the largest
/// maximum over all children.
pub open spec fn spec_overlay_range<T: Node>(items: Seq<T>) -> (SizeRange, SizeRange)
    decreases items.len(),
{
    if items.len() == 0 {
        (SizeRange { min: 0, max: Some(0) }, SizeRange { min: 0, max: Some(0) })
    } else {
        let rest = spec_overlay_range(items.drop_last());
        let c = items.last().spec_size_range();
        (spec_axis_join(rest.0, c.0), spec_axis_join(rest.1, c.1))
    }
}

/// The overlay sizing rule yields a well-formed range that dominates every
/// child's minimum.
pub proof fn lemma_overlay_range<T: Node>(items: Seq<T>)
    requires
        forall|i: int| 0 <= i < items.len() ==> (#[trigger] items[i]).wf(),
    ensures
        spec_overlay_range(items).0.wf(),
        spec_overlay_range(items).1.wf(),
        forall|i: int|
            0 <= i < items.len() ==> spec_overlay_range(items).0.min
                >= (#[trigger] items[i]).spec_size_range().0.min && spec_overlay_range(items).1.min
                >= items[i].spec_size_range().1.min,
    decreases items.len(),
{
    if items.len() > 0 {
        lemma_overlay_range(items.drop_last());
        items.last().lemma_size_range_wf();
        assert(forall|i: int| 0 <= i < items.len() - 1 ==> items.drop_last()[i] == items[i]);
    }
}

/// Two child sequences whose members report the same sizes make the same
/// overlay range.
pub proof fn lemma_overlay_range_congruence<T: Node>(a: Seq<T>, b: Seq<T>)
    requires
        a.len() == b.len(),
        forall|i: int|
            0 <= i < a.len() ==> (#[trigger] b[i]).spec_size_range() == a[i].spec_size_range(),
    ensures
        spec_overlay_range(b) == spec_overlay_range(a),
    decreases a.len(),
{
    if a.len() > 0 {
        assert(forall|i: int| 0 <= i < a.len() - 1 ==> a.drop_last()[i] == a[i]);
        assert(forall|i: int| 0 <= i < b.len() - 1 ==> b.drop_last()[i] == b[i]);
        lemma_overlay_range_congruence(a.drop_last(), b.drop_last());
        assert(b.last().spec_size_range() == a.last().spec_size_range());
    }
}

/// Display multiple UI layers sharing the same space.
pub struct OverlayBox<T> {
    pub content: Vec<T>,
}

impl<T> OverlayBox<T> {
    pub fn new() -> (r: OverlayBox<T>)
        ensures
            r.content@ == Seq::<T>::empty(),
    {
        OverlayBox { content: Vec::new() }
    }

    pub fn with_content(content: Vec<T>) -> (r: OverlayBox<T>)
        ensures
            r.content == content,
    {
        OverlayBox { content }
    }

    /// Build from an already-collected child sequence.
    pub fn from_iter(content: Vec<T>) -> (r: OverlayBox<T>)
        ensures
            r.content == content,
    {
        OverlayBox { content }
    }
}

impl<T: Node> OverlayBox<T> {
    /// Every child gets the same rectangle: the overlay's own bounds.
    pub open spec fn spec_child_rects(&self, slot: Rect) -> Seq<Rect> {
        Seq::new(self.content@.len(), |i: int| self.spec_bounds(slot))
    }

    /// One copy of the overlay's bounds per child.
    pub fn child_rects(&self, slot: Rect) -> (r: Vec<Rect>)
        requires
            self.wf(),
            slot_ok(slot, self.spec_size_range()),
        ensures
            r@ == self.spec_child_rects(slot),
            children_ok(self.content@, r@),
    {
        proof {
            lemma_overlay_range(self.content@);
            lemma_default_bounds(slot, self.spec_size_range());
        }
        let b = self.bounds(slot);
        let mut rects: Vec<Rect> = Vec::new();
        let n = self.content.len();
        let mut i: usize = 0;
        while i < n
            invariant
                i <= n,
                rects@.len() == i,
                forall|j: int| 0 <= j < i ==> rects@[j] == b,
                b == self.spec_bounds(slot),
            decreases n - i,
        {
            rects.push(b);
            i = i + 1;
        }
        proof {
            assert(rects@ =~= self.spec_child_rects(slot));
        }
        rects
    }
}

impl<T: Node> Node for OverlayBox<T> {
    open spec fn wf(&self) -> bool {
        forall|i: int| 0 <= i < self.content@.len() ==> (#[trigger] self.content@[i]).wf()
    }

    open spec fn spec_size_range(&self) -> (SizeRange, SizeRange) {
        spec_overlay_range(self.content@)
    }

    proof fn lemma_size_range_wf(&self) {
        lemma_overlay_range(self.content@);
    }

    fn size_range(&self) -> (r: (SizeRange, SizeRange)) {
        let ghost items = self.content@;
        let mut w = SizeRange { min: 0, max: Some(0) };
        let mut h = SizeRange { min: 0, max: Some(0) };
        let n = self.content.len();
        let mut i: usize = 0;
        proof {
            assert(items.subrange(0, 0) =~= Seq::<T>::empty());
        }
        while i < n
            invariant
                i <= n,
                n == items.len(),
                items == self.content@,
                self.wf(),
                (w, h) == spec_overlay_range(items.subrange(0, i as int)),
            decreases n - i,
        {
            proof {
                assert(items[i as int].wf());
            }
            let c = self.content[i].size_range();
            w = SizeRange {
                min: if w.min >= c.0.min {
                    w.min
                } else {
                    c.0.min
                },
                max: match (w.max, c.0.max) {
                    (Some(x), Some(y)) => Some(
                        if x >= y {
                            x
                        } else {
                            y
                        },
                    ),
                    _ => None,
                },
            };
            h = SizeRange {
                min: if h.min >= c.1.min {
                    h.min
                } else {
                    c.1.min
                },
                max: match (h.max, c.1.max) {
                    (Some(x), Some(y)) => Some(
                        if x >= y {
                            x
                        } else {
                            y
                        },
                    ),
                    _ => None,
                },
            };
            i = i + 1;
            proof {
                let prefix_long = items.subrange(0, i as int);
                assert(prefix_long.drop_last() =~= items.subrange(0, i - 1));
                assert(prefix_long.last() == items[i - 1]);
            }
        }
        proof {
            assert(items.subrange(0, n as int) =~= items);
        }
        (w, h)
    }

    open spec fn spec_bounds(&self, slot: Rect) -> Rect {
        spec_default_bounds(slot, self.spec_size_range())
    }

    open spec fn placement_req(&self, slot: Rect) -> bool {
        true
    }

    proof fn lemma_bounds_in_slot(&self, slot: Rect) {
        self.lemma_size_range_wf();
        lemma_default_bounds(slot, self.spec_size_range());
    }

    fn bounds(&self, slot: Rect) -> (r: Rect) {
        proof {
            self.lemma_size_range_wf();
        }
        default_bounds(slot, self.size_range())
    }
}

impl<TB, T: TickNode<TB>> TickNode<TB> for OverlayBox<T> {
    open spec fn spec_dibs_events(&self, slot: Rect, events: Events) -> Events {
        spec_dibs_children_events::<TB, T>(self.content@, self.spec_child_rects(slot), events)
    }

    open spec fn dibs_next(&self, slot: Rect, events: Events, next: &Self) -> bool {
        dibs_children_next::<TB, T>(self.content@, self.spec_child_rects(slot), events, next.content@)
    }

    open spec fn spec_active_events(&self, slot: Rect, events: Events) -> Events {
        spec_active_children_events::<TB, T>(self.content@, self.spec_child_rects(slot), events)
    }

    open spec fn active_next(&self, slot: Rect, events: Events, next: &Self) -> bool {
        active_children_next::<TB, T>(self.content@, self.spec_child_rects(slot), events, next.content@)
    }

    open spec fn inactive_next(&self, slot: Rect, events: Events, next: &Self) -> bool {
        inactive_children_next::<TB, T>(self.content@, self.spec_child_rects(slot), events, next.content@)
    }

    fn dibs_tick(&mut self, tb: &mut TB, slot: Rect, events: &mut Events) {
        let ghost before = self.content@;
        let rects = self.child_rects(slot);
        dibs_children(&mut self.content, &rects, tb, events);
        proof {
            lemma_overlay_range_congruence(before, self.content@);
        }
    }

    fn active_tick(&mut self, tb: &mut TB, slot: Rect, events: &mut Events) {
        let ghost before = self.content@;
        let rects = self.child_rects(slot);
        active_children(&mut self.content, &rects, tb, events);
        proof {
            lemma_overlay_range_congruence(before, self.content@);
        }
    }

    fn inactive_tick(&mut self, tb: &mut TB, slot: Rect, events: &Events) {
        let ghost before = self.content@;
        let rects = self.child_rects(slot);
        inactive_children(&mut self.content, &rects, tb, events);
        proof {
            lemma_overlay_range_congruence(before, self.content@);
        }
    }
}

impl<DB: DrawBackend, T: DrawNode<DB>> DrawNode<DB> for OverlayBox<T> {
    open spec fn spec_draw(&self, slot: Rect) -> Seq<DrawCommand<DB::Color>> {
        spec_draw_children::<DB, T>(self.content@, self.spec_child_rects(slot))
    }

    fn draw(&self, d: &mut DB, slot: Rect) {
        let rects = self.child_rects(slot);
        draw_children(&self.content, &rects, d);
    }
}

} // verus!
