//! AreaBox: a single-child combinator that clamps its child's declared
//! minimum and maximum into a configured range on each axis. The child
//! receives the combinator's own (clamped) bounds.

use vstd::prelude::*;
use crate::events::Events;
use crate::geometry::{clamp_i64, spec_clamp, Rect, SizeRange, MAX_SIZE};
use crate::node::{
    default_bounds, lemma_default_bounds, slot_ok, spec_default_bounds, DrawBackend, DrawCommand,
    DrawNode, Node, ParentNode, TickNode,
};

verus! {

/// The configured clamping range per axis.
#[derive(Clone, Copy, Debug)]
pub struct AreaBoxLayout {
    pub min_width: i64,
    pub max_width: i64,
    pub min_height: i64,
    pub max_height: i64,
}

impl AreaBoxLayout {
    pub open spec fn wf(self) -> bool {
        &&& 0 <= self.min_width <= self.max_width <= MAX_SIZE
        &&& 0 <= self.min_height <= self.max_height <= MAX_SIZE
    }
}

pub struct AreaBoxNode<T> {
    pub layout: AreaBoxLayout,
    pub content: T,
}

impl<T> AreaBoxNode<T> {
    pub fn new(layout: AreaBoxLayout, content: T) -> (r: AreaBoxNode<T>)
        ensures
            r.layout == layout,
            r.content == content,
    {
        AreaBoxNode { layout, content }
    }
}

impl<T: Node> AreaBoxNode<T> {
    /// The rectangle handed to the child: the combinator's own bounds.
    pub fn child_rect(&self, slot: Rect) -> (r: Rect)
        requires
            self.wf(),
            slot_ok(slot, self.spec_size_range()),
        ensures
            r == self.spec_bounds(slot),
            slot_ok(r, self.content.spec_size_range()),
            r.spec_fits_in(slot),
    {
        proof {
            self.content.lemma_size_range_wf();
            lemma_default_bounds(slot, self.spec_size_range());
        }
        self.bounds(slot)
    }
}

impl<T: Node> Node for AreaBoxNode<T> {
    open spec fn wf(&self) -> bool {
        let c = self.content.spec_size_range();
        &&& self.layout.wf()
        &&& self.content.wf()
        &&& c.0.min <= self.layout.max_width
        &&& c.1.min <= self.layout.max_height
    }

    open spec fn spec_size_range(&self) -> (SizeRange, SizeRange) {
        let c = self.content.spec_size_range();
        (
            SizeRange {
                min: spec_clamp(c.0.min as int, self.layout.min_width as int, self.layout.max_width as int) as i64,
                max: Some(
                    match c.0.max {
                        Some(m) => spec_clamp(
                            m as int,
                            self.layout.min_width as int,
                            self.layout.max_width as int,
                        ) as i64,
                        None => self.layout.max_width,
                    },
                ),
            },
            SizeRange {
                min: spec_clamp(c.1.min as int, self.layout.min_height as int, self.layout.max_height as int) as i64,
                max: Some(
                    match c.1.max {
                        Some(m) => spec_clamp(
                            m as int,
                            self.layout.min_height as int,
                            self.layout.max_height as int,
                        ) as i64,
                        None => self.layout.max_height,
                    },
                ),
            },
        )
    }

    proof fn lemma_size_range_wf(&self) {
        self.content.lemma_size_range_wf();
    }

    fn size_range(&self) -> (r: (SizeRange, SizeRange)) {
        proof {
            self.content.lemma_size_range_wf();
        }
        let c = self.content.size_range();
        (
            SizeRange {
                min: clamp_i64(c.0.min, self.layout.min_width, self.layout.max_width),
                max: Some(
                    match c.0.max {
                        Some(m) => clamp_i64(m, self.layout.min_width, self.layout.max_width),
                        None => self.layout.max_width,
                    },
                ),
            },
            SizeRange {
                min: clamp_i64(c.1.min, self.layout.min_height, self.layout.max_height),
                max: Some(
                    match c.1.max {
                        Some(m) => clamp_i64(m, self.layout.min_height, self.layout.max_height),
                        None => self.layout.max_height,
                    },
                ),
            },
        )
    }

    open spec fn spec_bounds(&self, slot: Rect) -> Rect {
        spec_default_bounds(slot, self.spec_size_range())
    }

    open spec fn placement_req(&self, slot: Rect) -> bool {
        true
    }

    proof fn lemma_bounds_in_slot(&self, slot: Rect) {
        self.lemma_size_range_wf();
        lemma_default_bounds(slot, self.spec_size_range());
    }

    fn bounds(&self, slot: Rect) -> (r: Rect) {
        proof {
            self.lemma_size_range_wf();
        }
        default_bounds(slot, self.size_range())
    }
}

impl<TB, T: TickNode<TB>> TickNode<TB> for AreaBoxNode<T> {
    open spec fn spec_dibs_events(&self, slot: Rect, events: Events) -> Events {
        <T as TickNode<TB>>::spec_dibs_events(&self.content, self.spec_bounds(slot), events)
    }

    open spec fn dibs_next(&self, slot: Rect, events: Events, next: &Self) -> bool {
        &&& next.layout == self.layout
        &&& <T as TickNode<TB>>::dibs_next(&self.content, self.spec_bounds(slot), events, &next.content)
    }

    open spec fn spec_active_events(&self, slot: Rect, events: Events) -> Events {
        let rect = self.spec_bounds(slot);
        if events.mouse_event.spec_overlapping(rect) {
            <T as TickNode<TB>>::spec_active_events(&self.content, rect, events)
        } else {
            events
        }
    }

    open spec fn active_next(&self, slot: Rect, events: Events, next: &Self) -> bool {
        let rect = self.spec_bounds(slot);
        &&& next.layout == self.layout
        &&& if events.mouse_event.spec_overlapping(rect) {
            <T as TickNode<TB>>::active_next(&self.content, rect, events, &next.content)
        } else {
            <T as TickNode<TB>>::inactive_next(&self.content, rect, events, &next.content)
        }
    }

    open spec fn inactive_next(&self, slot: Rect, events: Events, next: &Self) -> bool {
        &&& next.layout == self.layout
        &&& <T as TickNode<TB>>::inactive_next(&self.content, self.spec_bounds(slot), events, &next.content)
    }

    fn dibs_tick(&mut self, tb: &mut TB, slot: Rect, events: &mut Events) {
        let rect = self.child_rect(slot);
        self.content.dibs_tick(tb, rect, events);
    }

    fn active_tick(&mut self, tb: &mut TB, slot: Rect, events: &mut Events) {
        let rect = self.child_rect(slot);
        if events.mouse_event.is_some_and_overlapping(rect) {
            self.content.active_tick(tb, rect, events);
        } else {
            self.content.inactive_tick(tb, rect, events);
        }
    }

    fn inactive_tick(&mut self, tb: &mut TB, slot: Rect, events: &Events) {
        let rect = self.child_rect(slot);
        self.content.inactive_tick(tb, rect, events);
    }
}

impl<DB: DrawBackend, T: DrawNode<DB>> DrawNode<DB> for AreaBoxNode<T> {
    open spec fn spec_draw(&self, slot: Rect) -> Seq<DrawCommand<DB::Color>> {
        <T as DrawNode<DB>>::spec_draw(&self.content, self.spec_bounds(slot))
    }

    fn draw(&self, d: &mut DB, slot: Rect) {
        let rect = self.child_rect(slot);
        self.content.draw(d, rect);
    }
}

impl<T: Node> ParentNode for AreaBoxNode<T> {
    type Item = T;

    open spec fn spec_content(&self) -> T {
        self.content
    }

    open spec fn spec_with_content(&self, content: T) -> Self {
        AreaBoxNode { layout: self.layout, content }
    }

    fn content(&self) -> (r: &T) {
        &self.content
    }

    fn content_mut(&mut self) -> (r: &mut T) {
        &mut self.content
    }
}

} // verus!

