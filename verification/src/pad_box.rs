//! PadBox: a single-child combinator that adds fixed insets on all four
//! sides. It widens its child's declared sizes by the insets, and shrinks the
//! offered slot by the insets before handing it to the child.

use vstd::prelude::*;
use crate::events::Events;
use crate::geometry::{Rect, SizeRange, MAX_SIZE};
use crate::node::{
    default_bounds, lemma_default_bounds, slot_ok, spec_default_bounds, DrawBackend, DrawCommand,
    DrawNode, Node, ParentNode, TickNode,
};

verus! {

/// The four insets, each non-negative.
#[derive(Clone, Copy, Debug)]
pub struct PadBoxLayout {
    pub pad_left: i64,
    pub pad_top: i64,
    pub pad_right: i64,
    pub pad_bottom: i64,
}

impl PadBoxLayout {
    pub open spec fn wf(self) -> bool {
        &&& 0 <= self.pad_left <= MAX_SIZE
        &&& 0 <= self.pad_top <= MAX_SIZE
        &&& 0 <= self.pad_right <= MAX_SIZE
        &&& 0 <= self.pad_bottom <= MAX_SIZE
    }
}

pub struct PadBoxNode<T> {
    pub layout: PadBoxLayout,
    pub content: T,
}

impl<T> PadBoxNode<T> {
    /// The same inset on all four sides.
    pub fn new(pad: i64, content: T) -> (r: PadBoxNode<T>)
        ensures
            r.layout == (PadBoxLayout {
                pad_left: pad,
                pad_top: pad,
                pad_right: pad,
                pad_bottom: pad,
            }),
            r.content == content,
    {
        PadBoxNode {
            layout: PadBoxLayout { pad_left: pad, pad_top: pad, pad_right: pad, pad_bottom: pad },
            content,
        }
    }

    /// One inset for both horizontal sides, one for both vertical sides.
    pub fn new_vh(pad_horizontal: i64, pad_vertical: i64, content: T) -> (r: PadBoxNode<T>)
        ensures
            r.layout == (PadBoxLayout {
                pad_left: pad_horizontal,
                pad_top: pad_vertical,
                pad_right: pad_horizontal,
                pad_bottom: pad_vertical,
            }),
            r.content == content,
    {
        PadBoxNode {
            layout: PadBoxLayout {
                pad_left: pad_horizontal,
                pad_top: pad_vertical,
                pad_right: pad_horizontal,
                pad_bottom: pad_vertical,
            },
            content,
        }
    }

    /// A top inset, one inset for both horizontal sides, and a bottom inset.
    pub fn new_thb(pad_top: i64, pad_horizontal: i64, pad_bottom: i64, content: T) -> (r:
        PadBoxNode<T>)
        ensures
            r.layout == (PadBoxLayout {
                pad_left: pad_horizontal,
                pad_top,
                pad_right: pad_horizontal,
                pad_bottom,
            }),
            r.content == content,
    {
        PadBoxNode {
            layout: PadBoxLayout {
                pad_left: pad_horizontal,
                pad_top,
                pad_right: pad_horizontal,
                pad_bottom,
            },
            content,
        }
    }

    /// Four insets, clockwise from the top.
    pub fn new_cw(pad_top: i64, pad_right: i64, pad_bottom: i64, pad_left: i64, content: T) -> (r:
        PadBoxNode<T>)
        ensures
            r.layout == (PadBoxLayout { pad_left, pad_top, pad_right, pad_bottom }),
            r.content == content,
    {
        PadBoxNode { layout: PadBoxLayout { pad_left, pad_top, pad_right, pad_bottom }, content }
    }
}

impl<T: Node> PadBoxNode<T> {
    /// Total horizontal inset.
    pub open spec fn spec_pad_w(&self) -> int {
        self.layout.pad_left + self.layout.pad_right
    }

    /// Total vertical inset.
    pub open spec fn spec_pad_h(&self) -> int {
        self.layout.pad_top + self.layout.pad_bottom
    }

    /// The slot shrunk by the insets on all four sides.
    pub open spec fn spec_child_rect(&self, slot: Rect) -> Rect {
        Rect {
            x_min: (slot.x_min + self.layout.pad_left) as i64,
            y_min: (slot.y_min + self.layout.pad_top) as i64,
            x_max: (slot.x_max - self.layout.pad_right) as i64,
            y_max: (slot.y_max - self.layout.pad_bottom) as i64,
        }
    }

    /// The rectangle handed to the child: the slot shrunk by the insets.
    pub fn child_rect(&self, slot: Rect) -> (r: Rect)
        requires
            self.wf(),
            slot_ok(slot, self.spec_size_range()),
        ensures
            r == self.spec_child_rect(slot),
            slot_ok(r, self.content.spec_size_range()),
            r.spec_fits_in(slot),
    {
        proof {
            self.content.lemma_size_range_wf();
        }
        Rect {
            x_min: slot.x_min + self.layout.pad_left,
            y_min: slot.y_min + self.layout.pad_top,
            x_max: slot.x_max - self.layout.pad_right,
            y_max: slot.y_max - self.layout.pad_bottom,
        }
    }
}

impl<T: Node> Node for PadBoxNode<T> {
    open spec fn wf(&self) -> bool {
        let c = self.content.spec_size_range();
        &&& self.layout.wf()
        &&& self.content.wf()
        &&& c.0.min + self.spec_pad_w() <= MAX_SIZE
        &&& c.1.min + self.spec_pad_h() <= MAX_SIZE
        &&& (c.0.max matches Some(m) ==> m + self.spec_pad_w() <= MAX_SIZE)
        &&& (c.1.max matches Some(m) ==> m + self.spec_pad_h() <= MAX_SIZE)
    }

    open spec fn spec_size_range(&self) -> (SizeRange, SizeRange) {
        let c = self.content.spec_size_range();
        (
            SizeRange {
                min: (c.0.min + self.spec_pad_w()) as i64,
                max: match c.0.max {
                    Some(m) => Some((m + self.spec_pad_w()) as i64),
                    None => None,
                },
            },
            SizeRange {
                min: (c.1.min + self.spec_pad_h()) as i64,
                max: match c.1.max {
                    Some(m) => Some((m + self.spec_pad_h()) as i64),
                    None => None,
                },
            },
        )
    }

    proof fn lemma_size_range_wf(&self) {
        self.content.lemma_size_range_wf();
    }

    fn size_range(&self) -> (r: (SizeRange, SizeRange)) {
        proof {
            self.content.lemma_size_range_wf();
        }
        let c = self.content.size_range();
        let pw = self.layout.pad_left + self.layout.pad_right;
        let ph = self.layout.pad_top + self.layout.pad_bottom;
        (
            SizeRange {
                min: c.0.min + pw,
                max: match c.0.max {
                    Some(m) => Some(m + pw),
                    None => None,
                },
            },
            SizeRange {
                min: c.1.min + ph,
                max: match c.1.max {
                    Some(m) => Some(m + ph),
                    None => None,
                },
            },
        )
    }

    open spec fn spec_bounds(&self, slot: Rect) -> Rect {
        spec_default_bounds(slot, self.spec_size_range())
    }

    open spec fn placement_req(&self, slot: Rect) -> bool {
        true
    }

    proof fn lemma_bounds_in_slot(&self, slot: Rect) {
        self.lemma_size_range_wf();
        lemma_default_bounds(slot, self.spec_size_range());
    }

    fn bounds(&self, slot: Rect) -> (r: Rect) {
        proof {
            self.lemma_size_range_wf();
        }
        default_bounds(slot, self.size_range())
    }
}

impl<TB, T: TickNode<TB>> TickNode<TB> for PadBoxNode<T> {
    open spec fn spec_dibs_events(&self, slot: Rect, events: Events) -> Events {
        <T as TickNode<TB>>::spec_dibs_events(&self.content, self.spec_child_rect(slot), events)
    }

    open spec fn dibs_next(&self, slot: Rect, events: Events, next: &Self) -> bool {
        &&& next.layout == self.layout
        &&& <T as TickNode<TB>>::dibs_next(&self.content, self.spec_child_rect(slot), events, &next.content)
    }

    open spec fn spec_active_events(&self, slot: Rect, events: Events) -> Events {
        let rect = self.spec_child_rect(slot);
        if events.mouse_event.spec_overlapping(rect) {
            <T as TickNode<TB>>::spec_active_events(&self.content, rect, events)
        } else {
            events
        }
    }

    open spec fn active_next(&self, slot: Rect, events: Events, next: &Self) -> bool {
        let rect = self.spec_child_rect(slot);
        &&& next.layout == self.layout
        &&& if events.mouse_event.spec_overlapping(rect) {
            <T as TickNode<TB>>::active_next(&self.content, rect, events, &next.content)
        } else {
            <T as TickNode<TB>>::inactive_next(&self.content, rect, events, &next.content)
        }
    }

    open spec fn inactive_next(&self, slot: Rect, events: Events, next: &Self) -> bool {
        &&& next.layout == self.layout
        &&& <T as TickNode<TB>>::inactive_next(&self.content, self.spec_child_rect(slot), events, &next.content)
    }

    fn dibs_tick(&mut self, tb: &mut TB, slot: Rect, events: &mut Events) {
        let rect = self.child_rect(slot);
        self.content.dibs_tick(tb, rect, events);
    }

    fn active_tick(&mut self, tb: &mut TB, slot: Rect, events: &mut Events) {
        let rect = self.child_rect(slot);
        if events.mouse_event.is_some_and_overlapping(rect) {
            self.content.active_tick(tb, rect, events);
        } else {
            self.content.inactive_tick(tb, rect, events);
        }
    }

    fn inactive_tick(&mut self, tb: &mut TB, slot: Rect, events: &Events) {
        let rect = self.child_rect(slot);
        self.content.inactive_tick(tb, rect, events);
    }
}

impl<DB: DrawBackend, T: DrawNode<DB>> DrawNode<DB> for PadBoxNode<T> {
    open spec fn spec_draw(&self, slot: Rect) -> Seq<DrawCommand<DB::Color>> {
        <T as DrawNode<DB>>::spec_draw(&self.content, self.spec_child_rect(slot))
    }

    fn draw(&self, d: &mut DB, slot: Rect) {
        let rect = self.child_rect(slot);
        self.content.draw(d, rect);
    }
}

/// PadBox round-trip: the child rectangle is the slot less the insets on
/// both axes, and the declared minimum is the child's minimum plus the
/// insets on both axes.
pub proof fn lemma_pad_box_round_trip<T: Node>(node: PadBoxNode<T>, slot: Rect)
    requires
        node.wf(),
        slot_ok(slot, node.spec_size_range()),
    ensures
        node.spec_child_rect(slot).spec_width() == slot.spec_width() - (node.layout.pad_left
            + node.layout.pad_right),
        node.spec_child_rect(slot).spec_height() == slot.spec_height() - (node.layout.pad_top
            + node.layout.pad_bottom),
        node.spec_size_range().0.min == node.content.spec_size_range().0.min + (node.layout.pad_left
            + node.layout.pad_right),
        node.spec_size_range().1.min == node.content.spec_size_range().1.min + (node.layout.pad_top
            + node.layout.pad_bottom),
{
    node.content.lemma_size_range_wf();
}

impl<T: Node> ParentNode for PadBoxNode<T> {
    type Item = T;

    open spec fn spec_content(&self) -> T {
        self.content
    }

    open spec fn spec_with_content(&self, content: T) -> Self {
        PadBoxNode { layout: self.layout, content }
    }

    fn content(&self) -> (r: &T) {
        &self.content
    }

    fn content_mut(&mut self) -> (r: &mut T) {
        &mut self.content
    }
}

} // verus!

