//! Region: a single-child combinator that reports a fixed absolute rectangle
//! as both its size and its bounds, ignoring where the offered slot would
//! place it. A parent is expected to offer a slot containing the rectangle;
//! if it does not, the rectangle is clipped into the slot, and the child is
//! ticked and drawn only while its minimum still fits.

use vstd::prelude::*;
use crate::events::Events;
use crate::geometry::{clamp_i64, spec_clamp, Rect, SizeRange, MAX_SIZE};
use crate::node::{slot_ok, DrawBackend, DrawCommand, DrawNode, Node, ParentNode, TickNode};

verus! {

pub struct Region<T> {
    pub layout: Rect,
    pub content: T,
}

impl<T> Region<T> {
    pub fn new(layout: Rect, content: T) -> (r: Region<T>)
        ensures
            r.layout == layout,
            r.content == content,
    {
        Region { layout, content }
    }
}

impl<T: Node> Region<T> {
    /// The stored rectangle, clipped into the offered slot. Whenever the
    /// caller honors the placement contract the clip is the identity.
    pub open spec fn spec_clipped(&self, slot: Rect) -> Rect {
        Rect {
            x_min: spec_clamp(self.layout.x_min as int, slot.x_min as int, slot.x_max as int) as i64,
            y_min: spec_clamp(self.layout.y_min as int, slot.y_min as int, slot.y_max as int) as i64,
            x_max: spec_clamp(self.layout.x_max as int, slot.x_min as int, slot.x_max as int) as i64,
            y_max: spec_clamp(self.layout.y_max as int, slot.y_min as int, slot.y_max as int) as i64,
        }
    }

    /// Does the clipped rectangle still hold the child's minimum?
    pub open spec fn spec_child_fits(&self, slot: Rect) -> bool {
        slot_ok(self.spec_clipped(slot), self.content.spec_size_range())
    }

    /// The rectangle handed to the child, and whether the child's minimum
    /// still fits in it.
    pub fn child_rect(&self, slot: Rect) -> (r: (Rect, bool))
        requires
            self.wf(),
            slot_ok(slot, self.spec_size_range()),
        ensures
            r.0 == self.spec_clipped(slot),
            r.1 == self.spec_child_fits(slot),
            r.0.wf(),
            r.0.spec_fits_in(slot),
    {
        proof {
            self.content.lemma_size_range_wf();
        }
        let clipped = Rect {
            x_min: clamp_i64(self.layout.x_min, slot.x_min, slot.x_max),
            y_min: clamp_i64(self.layout.y_min, slot.y_min, slot.y_max),
            x_max: clamp_i64(self.layout.x_max, slot.x_min, slot.x_max),
            y_max: clamp_i64(self.layout.y_max, slot.y_min, slot.y_max),
        };
        let c = self.content.size_range();
        let fits = clipped.width() >= c.0.min && clipped.height() >= c.1.min;
        (clipped, fits)
    }
}

impl<T: Node> Node for Region<T> {
    open spec fn wf(&self) -> bool {
        let c = self.content.spec_size_range();
        &&& self.layout.wf()
        &&& self.layout.spec_width() <= MAX_SIZE
        &&& self.layout.spec_height() <= MAX_SIZE
        &&& self.content.wf()
        &&& c.0.min <= self.layout.spec_width()
        &&& c.1.min <= self.layout.spec_height()
    }

    open spec fn spec_size_range(&self) -> (SizeRange, SizeRange) {
        (
            SizeRange {
                min: self.layout.spec_width() as i64,
                max: Some(self.layout.spec_width() as i64),
            },
            SizeRange {
                min: self.layout.spec_height() as i64,
                max: Some(self.layout.spec_height() as i64),
            },
        )
    }

    proof fn lemma_size_range_wf(&self) {
    }

    fn size_range(&self) -> (r: (SizeRange, SizeRange)) {
        (SizeRange::exact(self.layout.width()), SizeRange::exact(self.layout.height()))
    }

    open spec fn spec_bounds(&self, slot: Rect) -> Rect {
        self.spec_clipped(slot)
    }

    open spec fn placement_req(&self, slot: Rect) -> bool {
        self.layout.spec_fits_in(slot)
    }

    proof fn lemma_bounds_in_slot(&self, slot: Rect) {
    }

    fn bounds(&self, slot: Rect) -> (r: Rect) {
        let (clipped, _) = self.child_rect(slot);
        clipped
    }
}

impl<TB, T: TickNode<TB>> TickNode<TB> for Region<T> {
    open spec fn spec_dibs_events(&self, slot: Rect, events: Events) -> Events {
        if self.spec_child_fits(slot) {
            <T as TickNode<TB>>::spec_dibs_events(&self.content, self.spec_clipped(slot), events)
        } else {
            events
        }
    }

    open spec fn dibs_next(&self, slot: Rect, events: Events, next: &Self) -> bool {
        &&& next.layout == self.layout
        &&& if self.spec_child_fits(slot) {
            <T as TickNode<TB>>::dibs_next(&self.content, self.spec_clipped(slot), events, &next.content)
        } else {
            next.content == self.content
        }
    }

    open spec fn spec_active_events(&self, slot: Rect, events: Events) -> Events {
        let rect = self.spec_clipped(slot);
        if self.spec_child_fits(slot) && events.mouse_event.spec_overlapping(rect) {
            <T as TickNode<TB>>::spec_active_events(&self.content, rect, events)
        } else {
            events
        }
    }

    open spec fn active_next(&self, slot: Rect, events: Events, next: &Self) -> bool {
        let rect = self.spec_clipped(slot);
        &&& next.layout == self.layout
        &&& if self.spec_child_fits(slot) {
            if events.mouse_event.spec_overlapping(rect) {
                <T as TickNode<TB>>::active_next(&self.content, rect, events, &next.content)
            } else {
                <T as TickNode<TB>>::inactive_next(&self.content, rect, events, &next.content)
            }
        } else {
            next.content == self.content
        }
    }

    open spec fn inactive_next(&self, slot: Rect, events: Events, next: &Self) -> bool {
        &&& next.layout == self.layout
        &&& if self.spec_child_fits(slot) {
            <T as TickNode<TB>>::inactive_next(&self.content, self.spec_clipped(slot), events, &next.content)
        } else {
            next.content == self.content
        }
    }

    fn dibs_tick(&mut self, tb: &mut TB, slot: Rect, events: &mut Events) {
        let (rect, fits) = self.child_rect(slot);
        if fits {
            self.content.dibs_tick(tb, rect, events);
        }
    }

    fn active_tick(&mut self, tb: &mut TB, slot: Rect, events: &mut Events) {
        let (rect, fits) = self.child_rect(slot);
        if fits {
            if events.mouse_event.is_some_and_overlapping(rect) {
                self.content.active_tick(tb, rect, events);
            } else {
                self.content.inactive_tick(tb, rect, events);
            }
        }
    }

    fn inactive_tick(&mut self, tb: &mut TB, slot: Rect, events: &Events) {
        let (rect, fits) = self.child_rect(slot);
        if fits {
            self.content.inactive_tick(tb, rect, events);
        }
    }
}

impl<DB: DrawBackend, T: DrawNode<DB>> DrawNode<DB> for Region<T> {
    open spec fn spec_draw(&self, slot: Rect) -> Seq<DrawCommand<DB::Color>> {
        if self.spec_child_fits(slot) {
            <T as DrawNode<DB>>::spec_draw(&self.content, self.spec_clipped(slot))
        } else {
            Seq::empty()
        }
    }

    fn draw(&self, d: &mut DB, slot: Rect) {
        let (rect, fits) = self.child_rect(slot);
        if fits {
            self.content.draw(d, rect);
        } else {
            proof {
                assert(d.log() + <Region<T> as DrawNode<DB>>::spec_draw(self, slot) =~= d.log());
            }
        }
    }
}

impl<T: Node> ParentNode for Region<T> {
    type Item = T;

    open spec fn spec_content(&self) -> T {
        self.content
    }

    open spec fn spec_with_content(&self, content: T) -> Self {
        Region { layout: self.layout, content }
    }

    fn content(&self) -> (r: &T) {
        &self.content
    }

    fn content_mut(&mut self) -> (r: &mut T) {
        &mut self.content
    }
}

} // verus!

