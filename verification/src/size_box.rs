//! SizeBox: a single-child combinator that reports a fixed exact size on
//! both axes, regardless of its child's opinion, and clips the slot to
//! exactly that size at the slot's origin.

use vstd::prelude::*;
use crate::events::Events;
use crate::geometry::{Rect, SizeRange, MAX_SIZE};
use crate::node::{
    default_bounds, lemma_default_bounds, slot_ok, spec_default_bounds, DrawBackend, DrawCommand,
    DrawNode, Node, ParentNode, TickNode,
};

verus! {

/// The fixed size, both axes.
#[derive(Clone, Copy, Debug)]
pub struct SizeBoxLayout {
    pub width: i64,
    pub height: i64,
}

impl SizeBoxLayout {
    pub open spec fn wf(self) -> bool {
        &&& 0 <= self.width <= MAX_SIZE
        &&& 0 <= self.height <= MAX_SIZE
    }
}

pub struct SizeBoxNode<T> {
    pub layout: SizeBoxLayout,
    pub content: T,
}

impl<T> SizeBoxNode<T> {
    pub fn new(width: i64, height: i64, content: T) -> (r: SizeBoxNode<T>)
        ensures
            r.layout == (SizeBoxLayout { width, height }),
            r.content == content,
    {
        SizeBoxNode { layout: SizeBoxLayout { width, height }, content }
    }
}

impl<T: Node> SizeBoxNode<T> {
    /// The rectangle handed to the child: the slot clipped to exactly the
    /// fixed size at the slot's origin.
    pub fn child_rect(&self, slot: Rect) -> (r: Rect)
        requires
            self.wf(),
            slot_ok(slot, self.spec_size_range()),
        ensures
            r == self.spec_bounds(slot),
            slot_ok(r, self.content.spec_size_range()),
            r.spec_fits_in(slot),
    {
        proof {
            self.content.lemma_size_range_wf();
            lemma_default_bounds(slot, self.spec_size_range());
        }
        self.bounds(slot)
    }
}

impl<T: Node> Node for SizeBoxNode<T> {
    open spec fn wf(&self) -> bool {
        let c = self.content.spec_size_range();
        &&& self.layout.wf()
        &&& self.content.wf()
        &&& c.0.min <= self.layout.width
        &&& c.1.min <= self.layout.height
    }

    open spec fn spec_size_range(&self) -> (SizeRange, SizeRange) {
        (
            SizeRange { min: self.layout.width, max: Some(self.layout.width) },
            SizeRange { min: self.layout.height, max: Some(self.layout.height) },
        )
    }

    proof fn lemma_size_range_wf(&self) {
    }

    fn size_range(&self) -> (r: (SizeRange, SizeRange)) {
        (SizeRange::exact(self.layout.width), SizeRange::exact(self.layout.height))
    }

    open spec fn spec_bounds(&self, slot: Rect) -> Rect {
        spec_default_bounds(slot, self.spec_size_range())
    }

    open spec fn placement_req(&self, slot: Rect) -> bool {
        true
    }

    proof fn lemma_bounds_in_slot(&self, slot: Rect) {
        lemma_default_bounds(slot, self.spec_size_range());
    }

    fn bounds(&self, slot: Rect) -> (r: Rect) {
        default_bounds(slot, self.size_range())
    }
}

impl<TB, T: TickNode<TB>> TickNode<TB> for SizeBoxNode<T> {
    open spec fn spec_dibs_events(&self, slot: Rect, events: Events) -> Events {
        <T as TickNode<TB>>::spec_dibs_events(&self.content, self.spec_bounds(slot), events)
    }

    open spec fn dibs_next(&self, slot: Rect, events: Events, next: &Self) -> bool {
        &&& next.layout == self.layout
        &&& <T as TickNode<TB>>::dibs_next(&self.content, self.spec_bounds(slot), events, &next.content)
    }

    open spec fn spec_active_events(&self, slot: Rect, events: Events) -> Events {
        let rect = self.spec_bounds(slot);
        if events.mouse_event.spec_overlapping(rect) {
            <T as TickNode<TB>>::spec_active_events(&self.content, rect, events)
        } else {
            events
        }
    }

    open spec fn active_next(&self, slot: Rect, events: Events, next: &Self) -> bool {
        let rect = self.spec_bounds(slot);
        &&& next.layout == self.layout
        &&& if events.mouse_event.spec_overlapping(rect) {
            <T as TickNode<TB>>::active_next(&self.content, rect, events, &next.content)
        } else {
            <T as TickNode<TB>>::inactive_next(&self.content, rect, events, &next.content)
        }
    }

    open spec fn inactive_next(&self, slot: Rect, events: Events, next: &Self) -> bool {
        &&& next.layout == self.layout
        &&& <T as TickNode<TB>>::inactive_next(&self.content, self.spec_bounds(slot), events, &next.content)
    }

    fn dibs_tick(&mut self, tb: &mut TB, slot: Rect, events: &mut Events) {
        let rect = self.child_rect(slot);
        self.content.dibs_tick(tb, rect, events);
    }

    fn active_tick(&mut self, tb: &mut TB, slot: Rect, events: &mut Events) {
        let rect = self.child_rect(slot);
        if events.mouse_event.is_some_and_overlapping(rect) {
            self.content.active_tick(tb, rect, events);
        } else {
            self.content.inactive_tick(tb, rect, events);
        }
    }

    fn inactive_tick(&mut self, tb: &mut TB, slot: Rect, events: &Events) {
        let rect = self.child_rect(slot);
        self.content.inactive_tick(tb, rect, events);
    }
}

impl<DB: DrawBackend, T: DrawNode<DB>> DrawNode<DB> for SizeBoxNode<T> {
    open spec fn spec_draw(&self, slot: Rect) -> Seq<DrawCommand<DB::Color>> {
        <T as DrawNode<DB>>::spec_draw(&self.content, self.spec_bounds(slot))
    }

    fn draw(&self, d: &mut DB, slot: Rect) {
        let rect = self.child_rect(slot);
        self.content.draw(d, rect);
    }
}

impl<T: Node> ParentNode for SizeBoxNode<T> {
    type Item = T;

    open spec fn spec_content(&self) -> T {
        self.content
    }

    open spec fn spec_with_content(&self, content: T) -> Self {
        SizeBoxNode { layout: self.layout, content }
    }

    fn content(&self) -> (r: &T) {
        &self.content
    }

    fn content_mut(&mut self) -> (r: &mut T) {
        &mut self.content
    }
}

} // verus!

