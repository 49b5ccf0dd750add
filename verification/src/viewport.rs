//! Viewport: a fixed-size combinator whose content sees pan+zoom-remapped
//! pointer coordinates. The remapping is a scoped transform: it holds for
//! the duration of one tick call into the content, and the original pointer
//! position is restored before the call returns. Painting the content is the
//! host's business (it owns the render target the content is composited
//! into), so the viewport itself appends no draw commands.

use vstd::prelude::*;
use crate::events::{Event, Events, MouseEvent};
use crate::geometry::{clamp_i64, spec_clamp, Point, Rect, SizeRange, MAX_COORD, MAX_SIZE, MAX_ZOOM};
use crate::node::{
    default_bounds, lemma_default_bounds, slot_ok, spec_default_bounds, DrawBackend, DrawCommand,
    DrawNode, Node, ParentNode, TickNode,
};

verus! {

/// A pointer coordinate remapped into viewport space: `(raw + pan) · zoom`,
/// clamped into the engine's coordinate bound.
pub open spec fn spec_viewport_coord(pan: int, zoom: int, x: int) -> int {
    spec_clamp((x + pan) * zoom, -MAX_COORD as int, MAX_COORD as int)
}

/// A panned coordinate times a bounded zoom stays within the machine range.
proof fn lemma_zoom_product_bounded(s: int, zoom: int)
    requires
        -2 * MAX_COORD <= s <= 2 * MAX_COORD,
        1 <= zoom <= MAX_ZOOM,
    ensures
        -2 * MAX_COORD * MAX_ZOOM <= s * zoom <= 2 * MAX_COORD * MAX_ZOOM,
{
    assert(-2 * MAX_COORD * MAX_ZOOM <= s * zoom <= 2 * MAX_COORD * MAX_ZOOM)
        by (nonlinear_arith)
        requires
            -2 * MAX_COORD <= s <= 2 * MAX_COORD,
            1 <= zoom <= MAX_ZOOM,
    ;
}

pub struct Viewport<T> {
    pub pan: Point,
    pub zoom: i64,
    pub width: i64,
    pub height: i64,
    pub content: T,
}

impl<T: Node> Viewport<T> {
    /// The snapshot as the content sees it: the pointer position remapped
    /// by the pan and zoom, everything else untouched.
    pub open spec fn spec_map_events(&self, events: Events) -> Events {
        match events.mouse_event.spec_get() {
            Some(e) => Events {
                mouse_event: Event {
                    event: Some(
                        MouseEvent {
                            position: Point {
                                x: spec_viewport_coord(
                                    self.pan.x as int,
                                    self.zoom as int,
                                    e.position.x as int,
                                ) as i64,
                                y: spec_viewport_coord(
                                    self.pan.y as int,
                                    self.zoom as int,
                                    e.position.y as int,
                                ) as i64,
                            },
                            ..e
                        },
                    ),
                },
                ..events
            },
            None => events,
        }
    }

    /// The snapshot after the scoped transform ends: whatever the content
    /// left of the pointer event, with the original position put back if the
    /// event is still unclaimed.
    pub open spec fn spec_restore_events(&self, orig: Events, after: Events) -> Events {
        match (orig.mouse_event.spec_get(), after.mouse_event.spec_get()) {
            (Some(o), Some(a)) => Events {
                mouse_event: Event { event: Some(MouseEvent { position: o.position, ..a }) },
                ..after
            },
            _ => after,
        }
    }

    /// Remap the pointer position into viewport space, in place.
    fn map_events(&self, events: &mut Events)
        requires
            self.wf(),
            old(events).wf(),
        ensures
            *final(events) == self.spec_map_events(*old(events)),
            final(events).wf(),
    {
        let taken = events.mouse_event.take();
        match taken {
            Some(e) => {
                let sx = e.position.x + self.pan.x;
                let sy = e.position.y + self.pan.y;
                proof {
                    lemma_zoom_product_bounded(sx as int, self.zoom as int);
                    lemma_zoom_product_bounded(sy as int, self.zoom as int);
                }
                let x = clamp_i64(sx * self.zoom, -MAX_COORD, MAX_COORD);
                let y = clamp_i64(sy * self.zoom, -MAX_COORD, MAX_COORD);
                events.mouse_event = Event::new(
                    Some(MouseEvent { position: Point { x, y }, ..e }),
                );
            },
            None => {},
        }
    }

    /// End the scoped transform: put the original pointer position back if
    /// the pointer event is still unclaimed.
    fn restore_events(&self, events: &mut Events, orig_position: Option<Point>, Ghost(orig): Ghost<Events>)
        requires
            orig.mouse_event.spec_get() matches Some(o) ==> orig_position == Some(o.position),
            orig.mouse_event.spec_get() is None ==> orig_position is None,
            orig.wf(),
        ensures
            *final(events) == self.spec_restore_events(orig, *old(events)),
            old(events).wf() ==> final(events).wf(),
    {
        let taken = events.mouse_event.take();
        match (taken, orig_position) {
            (Some(a), Some(p)) => {
                events.mouse_event = Event::new(Some(MouseEvent { position: p, ..a }));
            },
            (Some(a), None) => {
                events.mouse_event = Event::new(Some(a));
            },
            (None, _) => {},
        }
    }

    /// The rectangle handed to the content: the viewport's full bounds.
    pub fn child_rect(&self, slot: Rect) -> (r: Rect)
        requires
            self.wf(),
            slot_ok(slot, self.spec_size_range()),
        ensures
            r == self.spec_bounds(slot),
            slot_ok(r, self.content.spec_size_range()),
            r.spec_fits_in(slot),
    {
        proof {
            self.content.lemma_size_range_wf();
            lemma_default_bounds(slot, self.spec_size_range());
        }
        self.bounds(slot)
    }
}

impl<T: Node> Node for Viewport<T> {
    open spec fn wf(&self) -> bool {
        let c = self.content.spec_size_range();
        &&& 0 <= self.width <= MAX_SIZE
        &&& 0 <= self.height <= MAX_SIZE
        &&& self.pan.wf()
        &&& 1 <= self.zoom <= MAX_ZOOM
        &&& self.content.wf()
        &&& c.0.min <= self.width
        &&& c.1.min <= self.height
    }

    open spec fn spec_size_range(&self) -> (SizeRange, SizeRange) {
        (
            SizeRange { min: self.width, max: Some(self.width) },
            SizeRange { min: self.height, max: Some(self.height) },
        )
    }

    proof fn lemma_size_range_wf(&self) {
    }

    fn size_range(&self) -> (r: (SizeRange, SizeRange)) {
        (SizeRange::exact(self.width), SizeRange::exact(self.height))
    }

    open spec fn spec_bounds(&self, slot: Rect) -> Rect {
        spec_default_bounds(slot, self.spec_size_range())
    }

    open spec fn placement_req(&self, slot: Rect) -> bool {
        true
    }

    proof fn lemma_bounds_in_slot(&self, slot: Rect) {
        lemma_default_bounds(slot, self.spec_size_range());
    }

    fn bounds(&self, slot: Rect) -> (r: Rect) {
        default_bounds(slot, self.size_range())
    }
}

impl<TB, T: TickNode<TB>> TickNode<TB> for Viewport<T> {
    open spec fn spec_dibs_events(&self, slot: Rect, events: Events) -> Events {
        self.spec_restore_events(
            events,
            <T as TickNode<TB>>::spec_dibs_events(
                &self.content,
                self.spec_bounds(slot),
                self.spec_map_events(events),
            ),
        )
    }

    open spec fn dibs_next(&self, slot: Rect, events: Events, next: &Self) -> bool {
        &&& next.pan == self.pan
        &&& next.zoom == self.zoom
        &&& next.width == self.width
        &&& next.height == self.height
        &&& <T as TickNode<TB>>::dibs_next(
            &self.content,
            self.spec_bounds(slot),
            self.spec_map_events(events),
            &next.content,
        )
    }

    open spec fn spec_active_events(&self, slot: Rect, events: Events) -> Events {
        self.spec_restore_events(
            events,
            <T as TickNode<TB>>::spec_active_events(
                &self.content,
                self.spec_bounds(slot),
                self.spec_map_events(events),
            ),
        )
    }

    open spec fn active_next(&self, slot: Rect, events: Events, next: &Self) -> bool {
        &&& next.pan == self.pan
        &&& next.zoom == self.zoom
        &&& next.width == self.width
        &&& next.height == self.height
        &&& <T as TickNode<TB>>::active_next(
            &self.content,
            self.spec_bounds(slot),
            self.spec_map_events(events),
            &next.content,
        )
    }

    open spec fn inactive_next(&self, slot: Rect, events: Events, next: &Self) -> bool {
        &&& next.pan == self.pan
        &&& next.zoom == self.zoom
        &&& next.width == self.width
        &&& next.height == self.height
        &&& <T as TickNode<TB>>::inactive_next(
            &self.content,
            self.spec_bounds(slot),
            self.spec_map_events(events),
            &next.content,
        )
    }

    fn dibs_tick(&mut self, tb: &mut TB, slot: Rect, events: &mut Events) {
        let ghost orig = *events;
        let orig_position = match &events.mouse_event.event {
            Some(e) => Some(e.position),
            None => None,
        };
        let rect = self.child_rect(slot);
        self.map_events(events);
        self.content.dibs_tick(tb, rect, events);
        self.restore_events(events, orig_position, Ghost(orig));
    }

    fn active_tick(&mut self, tb: &mut TB, slot: Rect, events: &mut Events) {
        let ghost orig = *events;
        let orig_position = match &events.mouse_event.event {
            Some(e) => Some(e.position),
            None => None,
        };
        let rect = self.child_rect(slot);
        self.map_events(events);
        self.content.active_tick(tb, rect, events);
        self.restore_events(events, orig_position, Ghost(orig));
    }

    fn inactive_tick(&mut self, tb: &mut TB, slot: Rect, events: &Events) {
        let mut local = *events;
        let rect = self.child_rect(slot);
        self.map_events(&mut local);
        self.content.inactive_tick(tb, rect, &local);
    }
}

impl<DB: DrawBackend, T: DrawNode<DB>> DrawNode<DB> for Viewport<T> {
    open spec fn spec_draw(&self, slot: Rect) -> Seq<DrawCommand<DB::Color>> {
        Seq::empty()
    }

    fn draw(&self, d: &mut DB, slot: Rect) {
        proof {
            assert(d.log() + <Viewport<T> as DrawNode<DB>>::spec_draw(self, slot) =~= d.log());
        }
    }
}

impl<T: Node> ParentNode for Viewport<T> {
    type Item = T;

    open spec fn spec_content(&self) -> T {
        self.content
    }

    open spec fn spec_with_content(&self, content: T) -> Self {
        Viewport { content, ..*self }
    }

    fn content(&self) -> (r: &T) {
        &self.content
    }

    fn content_mut(&mut self) -> (r: &mut T) {
        &mut self.content
    }
}

} // verus!

