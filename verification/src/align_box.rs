//! AlignBox: a single-child combinator that places its child inside the slot
//! at the start, center or end of each axis, or stretches it across the
//! axis. It forwards the child's minimum and, unless stretching, the child's
//! maximum.

use vstd::prelude::*;
use crate::events::Events;
use crate::geometry::{min_i64, Rect, SizeRange, MAX_COORD, MAX_SIZE};
use crate::node::{
    default_bounds, lemma_default_bounds, slot_ok, spec_default_bounds, DrawBackend, DrawCommand,
    DrawNode, Node, ParentNode, TickNode,
};

verus! {

/// Placement along one axis.
#[derive(Clone, Copy, Debug)]
pub enum Align {
    Start,
    Center,
    End,
    Stretch,
}

#[derive(Clone, Copy, Debug)]
pub struct AlignBoxLayout {
    pub horizontal: Align,
    pub vertical: Align,
}

pub struct AlignBoxNode<T> {
    pub layout: AlignBoxLayout,
    pub content: T,
}

impl<T> AlignBoxNode<T> {
    pub fn new(horizontal: Align, vertical: Align, content: T) -> (r: AlignBoxNode<T>)
        ensures
            r.layout == (AlignBoxLayout { horizontal, vertical }),
            r.content == content,
    {
        AlignBoxNode { layout: AlignBoxLayout { horizontal, vertical }, content }
    }
}

/// The span `[min, max)` the child receives along one axis: the full slot
/// axis when stretching, otherwise the child's size (its maximum, clipped to
/// the slot) placed at offset `0`, `(slot − size) / 2` or `slot − size` from
/// the slot's minimum edge.
pub open spec fn spec_align_span(align: Align, slot_min: int, slot_max: int, c_max: Option<i64>) -> (
    int,
    int,
) {
    match align {
        Align::Stretch => (slot_min, slot_max),
        _ => {
            let avail = slot_max - slot_min;
            let size = match c_max {
                Some(m) => if avail <= m {
                    avail
                } else {
                    m as int
                },
                None => avail,
            };
            let offset = match align {
                Align::Start => 0int,
                Align::Center => (avail - size) / 2,
                Align::End => avail - size,
                Align::Stretch => 0int,
            };
            (slot_min + offset, slot_min + offset + size)
        },
    }
}

fn align_span(align: Align, slot_min: i64, slot_max: i64, c_max: Option<i64>) -> (r: (i64, i64))
    requires
        slot_min <= slot_max,
        -MAX_COORD <= slot_min,
        slot_max <= MAX_COORD,
        c_max matches Some(m) ==> 0 <= m <= MAX_SIZE,
    ensures
        (r.0 as int, r.1 as int) == spec_align_span(align, slot_min as int, slot_max as int, c_max),
{
    match align {
        Align::Stretch => (slot_min, slot_max),
        _ => {
            let avail = slot_max - slot_min;
            let size = match c_max {
                Some(m) => min_i64(avail, m),
                None => avail,
            };
            let spare = avail - size;
            let offset: i64 = match align {
                Align::Start => 0,
                Align::Center => (((spare as u64) / 2) as i64),
                Align::End => spare,
                Align::Stretch => 0,
            };
            (slot_min + offset, slot_min + offset + size)
        },
    }
}

impl<T: Node> AlignBoxNode<T> {
    /// Where the child goes within the slot.
    pub open spec fn spec_child_rect(&self, slot: Rect) -> Rect {
        let c = self.content.spec_size_range();
        let h = spec_align_span(
            self.layout.horizontal,
            slot.x_min as int,
            slot.x_max as int,
            c.0.max,
        );
        let v = spec_align_span(
            self.layout.vertical,
            slot.y_min as int,
            slot.y_max as int,
            c.1.max,
        );
        Rect { x_min: h.0 as i64, y_min: v.0 as i64, x_max: h.1 as i64, y_max: v.1 as i64 }
    }

    pub fn child_rect(&self, slot: Rect) -> (r: Rect)
        requires
            self.wf(),
            slot_ok(slot, self.spec_size_range()),
        ensures
            r == self.spec_child_rect(slot),
            slot_ok(r, self.content.spec_size_range()),
            r.spec_fits_in(slot),
    {
        proof {
            self.content.lemma_size_range_wf();
        }
        let c = self.content.size_range();
        let h = align_span(self.layout.horizontal, slot.x_min, slot.x_max, c.0.max);
        let v = align_span(self.layout.vertical, slot.y_min, slot.y_max, c.1.max);
        Rect { x_min: h.0, y_min: v.0, x_max: h.1, y_max: v.1 }
    }
}

impl<T: Node> Node for AlignBoxNode<T> {
    open spec fn wf(&self) -> bool {
        self.content.wf()
    }

    open spec fn spec_size_range(&self) -> (SizeRange, SizeRange) {
        let c = self.content.spec_size_range();
        (
            SizeRange {
                min: c.0.min,
                max: match self.layout.horizontal {
                    Align::Stretch => None,
                    _ => c.0.max,
                },
            },
            SizeRange {
                min: c.1.min,
                max: match self.layout.vertical {
                    Align::Stretch => None,
                    _ => c.1.max,
                },
            },
        )
    }

    proof fn lemma_size_range_wf(&self) {
        self.content.lemma_size_range_wf();
    }

    fn size_range(&self) -> (r: (SizeRange, SizeRange)) {
        let c = self.content.size_range();
        (
            SizeRange {
                min: c.0.min,
                max: match self.layout.horizontal {
                    Align::Stretch => None,
                    _ => c.0.max,
                },
            },
            SizeRange {
                min: c.1.min,
                max: match self.layout.vertical {
                    Align::Stretch => None,
                    _ => c.1.max,
                },
            },
        )
    }

    open spec fn spec_bounds(&self, slot: Rect) -> Rect {
        spec_default_bounds(slot, self.spec_size_range())
    }

    open spec fn placement_req(&self, slot: Rect) -> bool {
        true
    }

    proof fn lemma_bounds_in_slot(&self, slot: Rect) {
        self.lemma_size_range_wf();
        lemma_default_bounds(slot, self.spec_size_range());
    }

    fn bounds(&self, slot: Rect) -> (r: Rect) {
        proof {
            self.lemma_size_range_wf();
        }
        default_bounds(slot, self.size_range())
    }
}

impl<TB, T: TickNode<TB>> TickNode<TB> for AlignBoxNode<T> {
    open spec fn spec_dibs_events(&self, slot: Rect, events: Events) -> Events {
        <T as TickNode<TB>>::spec_dibs_events(&self.content, self.spec_child_rect(slot), events)
    }

    open spec fn dibs_next(&self, slot: Rect, events: Events, next: &Self) -> bool {
        &&& next.layout == self.layout
        &&& <T as TickNode<TB>>::dibs_next(&self.content, self.spec_child_rect(slot), events, &next.content)
    }

    open spec fn spec_active_events(&self, slot: Rect, events: Events) -> Events {
        let rect = self.spec_child_rect(slot);
        if events.mouse_event.spec_overlapping(rect) {
            <T as TickNode<TB>>::spec_active_events(&self.content, rect, events)
        } else {
            events
        }
    }

    open spec fn active_next(&self, slot: Rect, events: Events, next: &Self) -> bool {
        let rect = self.spec_child_rect(slot);
        &&& next.layout == self.layout
        &&& if events.mouse_event.spec_overlapping(rect) {
            <T as TickNode<TB>>::active_next(&self.content, rect, events, &next.content)
        } else {
            <T as TickNode<TB>>::inactive_next(&self.content, rect, events, &next.content)
        }
    }

    open spec fn inactive_next(&self, slot: Rect, events: Events, next: &Self) -> bool {
        &&& next.layout == self.layout
        &&& <T as TickNode<TB>>::inactive_next(&self.content, self.spec_child_rect(slot), events, &next.content)
    }

    fn dibs_tick(&mut self, tb: &mut TB, slot: Rect, events: &mut Events) {
        let rect = self.child_rect(slot);
        self.content.dibs_tick(tb, rect, events);
    }

    fn active_tick(&mut self, tb: &mut TB, slot: Rect, events: &mut Events) {
        let rect = self.child_rect(slot);
        if events.mouse_event.is_some_and_overlapping(rect) {
            self.content.active_tick(tb, rect, events);
        } else {
            self.content.inactive_tick(tb, rect, events);
        }
    }

    fn inactive_tick(&mut self, tb: &mut TB, slot: Rect, events: &Events) {
        let rect = self.child_rect(slot);
        self.content.inactive_tick(tb, rect, events);
    }
}

impl<DB: DrawBackend, T: DrawNode<DB>> DrawNode<DB> for AlignBoxNode<T> {
    open spec fn spec_draw(&self, slot: Rect) -> Seq<DrawCommand<DB::Color>> {
        <T as DrawNode<DB>>::spec_draw(&self.content, self.spec_child_rect(slot))
    }

    fn draw(&self, d: &mut DB, slot: Rect) {
        let rect = self.child_rect(slot);
        self.content.draw(d, rect);
    }
}

/// AlignBox coefficients: for a fixed-size child in a larger slot, the
/// child's offset from the slot origin is exactly `0` for Start, half the
/// spare space for Center, and all the spare space for End, while Stretch
/// spans the full slot axis regardless of the child's own maximum.
pub proof fn lemma_align_box_coefficients<T: Node>(node: AlignBoxNode<T>, slot: Rect)
    requires
        node.wf(),
        slot_ok(slot, node.spec_size_range()),
        node.content.spec_size_range().0.max == Some(node.content.spec_size_range().0.min),
        node.content.spec_size_range().1.max == Some(node.content.spec_size_range().1.min),
    ensures
        ({
            let r = node.spec_child_rect(slot);
            let sw = node.content.spec_size_range().0.min as int;
            let sh = node.content.spec_size_range().1.min as int;
            &&& (node.layout.horizontal matches Align::Start ==> r.x_min - slot.x_min == 0
                && r.spec_width() == sw)
            &&& (node.layout.horizontal matches Align::Center ==> r.x_min - slot.x_min == (
            slot.spec_width() - sw) / 2 && r.spec_width() == sw)
            &&& (node.layout.horizontal matches Align::End ==> r.x_min - slot.x_min
                == slot.spec_width() - sw && r.spec_width() == sw)
            &&& (node.layout.horizontal matches Align::Stretch ==> r.x_min == slot.x_min && r.x_max
                == slot.x_max)
            &&& (node.layout.vertical matches Align::Start ==> r.y_min - slot.y_min == 0
                && r.spec_height() == sh)
            &&& (node.layout.vertical matches Align::Center ==> r.y_min - slot.y_min == (
            slot.spec_height() - sh) / 2 && r.spec_height() == sh)
            &&& (node.layout.vertical matches Align::End ==> r.y_min - slot.y_min
                == slot.spec_height() - sh && r.spec_height() == sh)
            &&& (node.layout.vertical matches Align::Stretch ==> r.y_min == slot.y_min && r.y_max
                == slot.y_max)
        }),
{
    node.content.lemma_size_range_wf();
}

impl<T: Node> ParentNode for AlignBoxNode<T> {
    type Item = T;

    open spec fn spec_content(&self) -> T {
        self.content
    }

    open spec fn spec_with_content(&self, content: T) -> Self {
        AlignBoxNode { layout: self.layout, content }
    }

    fn content(&self) -> (r: &T) {
        &self.content
    }

    fn content_mut(&mut self) -> (r: &mut T) {
        &mut self.content
    }
}

} // verus!

