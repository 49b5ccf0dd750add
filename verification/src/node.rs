//! The node capability contracts: sizing, event arbitration (dibs pass,
//! active pass, inactive pass) and drawing, together with the draw-command
//! recorder and the shared child-traversal routines that collection
//! combinators build on.
//!
//! The load-bearing discipline of the engine: the tick passes walk children
//! in reverse composition order (the child composed last is visually
//! frontmost, so it gets first refusal on claiming input), while the draw
//! pass walks them in forward order (so later children paint on top).

use vstd::prelude::*;
use crate::events::Events;
use crate::geometry::{min_i64, Point, Rect, SizeRange};

verus! {

/// How a node asks to take part in hit-testing and painting. Declared on
/// interactive widgets as a matter of policy; the current combinators do
/// not yet consult it, so it is carried, not enforced.
#[derive(Clone, Copy, Debug, PartialEq, Eq, Structural)]
pub enum Visibility {
    /// Occlude hit test from parent nodes.
    Occlude,
    /// Skip hit test for this node, still perform it on children.
    PassthroughSelf,
    /// Skip hit test for children, still perform it on self.
    PassthroughChildren,
    /// Skip hit test for self and children, still appear visible.
    Passthrough,
    /// Hide self and children from hit test and painting, still take space.
    Phantom,
    /// Hide self and children from hit test and painting, take no space.
    Collapsed,
}

/// The axis along which a combinator lays out its children.
#[derive(Clone, Copy, Debug, PartialEq, Eq, Structural, Default)]
pub enum Direction {
    #[default]
    Row,
    Column,
}

/// Does `slot` satisfy the offer contract for a node of size range `sr`:
/// a parent must never offer less than a child's declared minimum.
pub open spec fn slot_ok(slot: Rect, sr: (SizeRange, SizeRange)) -> bool {
    &&& slot.wf()
    &&& slot.spec_width() >= sr.0.min
    &&& slot.spec_height() >= sr.1.min
}

/// The default bounds rule: honor the node's own maximum on each axis,
/// anchored at the slot's minimum corner.
pub open spec fn spec_default_bounds(slot: Rect, sr: (SizeRange, SizeRange)) -> Rect {
    let width = match sr.0.max {
        Some(m) => if slot.spec_width() <= m {
            slot.spec_width()
        } else {
            m as int
        },
        None => slot.spec_width(),
    };
    let height = match sr.1.max {
        Some(m) => if slot.spec_height() <= m {
            slot.spec_height()
        } else {
            m as int
        },
        None => slot.spec_height(),
    };
    Rect {
        x_min: slot.x_min,
        y_min: slot.y_min,
        x_max: (slot.x_min + width) as i64,
        y_max: (slot.y_min + height) as i64,
    }
}

/// The default bounds rule as executable code.
pub fn default_bounds(slot: Rect, sr: (SizeRange, SizeRange)) -> (r: Rect)
    requires
        sr.0.wf(),
        sr.1.wf(),
        slot_ok(slot, sr),
    ensures
        r == spec_default_bounds(slot, sr),
{
    let width = match sr.0.max {
        Some(m) => min_i64(slot.width(), m),
        None => slot.width(),
    };
    let height = match sr.1.max {
        Some(m) => min_i64(slot.height(), m),
        None => slot.height(),
    };
    Rect { x_min: slot.x_min, y_min: slot.y_min, x_max: slot.x_min + width, y_max: slot.y_min + height }
}

/// The default bounds lie in the slot, are well formed, and honor the
/// declared minimum whenever the slot does.
pub proof fn lemma_default_bounds(slot: Rect, sr: (SizeRange, SizeRange))
    requires
        sr.0.wf(),
        sr.1.wf(),
        slot_ok(slot, sr),
    ensures
        spec_default_bounds(slot, sr).wf(),
        spec_default_bounds(slot, sr).spec_fits_in(slot),
        spec_default_bounds(slot, sr).spec_width() >= sr.0.min,
        spec_default_bounds(slot, sr).spec_height() >= sr.1.min,
{
}

/// The sizing capability every node exposes.
///
/// `spec_size_range` is the node's sizing opinion per axis; `spec_bounds`
/// derives the rectangle the node will actually occupy from the slot the
/// parent offers. `placement_req` names the slots on which the node's own
/// minimum is honored (everything the offer contract allows, except that a
/// node reporting an absolute rectangle additionally needs a slot that
/// contains it).
pub trait Node: Sized {
    /// The node's structural invariant.
    spec fn wf(&self) -> bool;

    /// Minimum and maximum for the node's width and height. `None`
    /// represents an unbounded maximum, filled by whatever the slot offers.
    spec fn spec_size_range(&self) -> (SizeRange, SizeRange);

    /// A well-formed node declares a well-formed size range.
    proof fn lemma_size_range_wf(&self)
        requires
            self.wf(),
        ensures
            self.spec_size_range().0.wf(),
            self.spec_size_range().1.wf(),
    ;

    fn size_range(&self) -> (r: (SizeRange, SizeRange))
        requires
            self.wf(),
        ensures
            r == self.spec_size_range(),
    ;

    /// The rectangle this node will occupy within the offered slot.
    spec fn spec_bounds(&self, slot: Rect) -> Rect;

    /// The slots on which `spec_bounds` honors the declared minimum.
    spec fn placement_req(&self, slot: Rect) -> bool;

    /// Minimum respected: for every offered slot that satisfies the offer
    /// contract, the occupied rectangle is well formed and contained in the
    /// slot, and on every slot satisfying `placement_req` it is at least the
    /// declared minimum on both axes.
    proof fn lemma_bounds_in_slot(&self, slot: Rect)
        requires
            self.wf(),
            slot_ok(slot, self.spec_size_range()),
        ensures
            self.spec_bounds(slot).wf(),
            self.spec_bounds(slot).spec_fits_in(slot),
            self.placement_req(slot) ==> self.spec_bounds(slot).spec_width()
                >= self.spec_size_range().0.min,
            self.placement_req(slot) ==> self.spec_bounds(slot).spec_height()
                >= self.spec_size_range().1.min,
    ;

    fn bounds(&self, slot: Rect) -> (r: Rect)
        requires
            self.wf(),
            slot_ok(slot, self.spec_size_range()),
        ensures
            r == self.spec_bounds(slot),
    ;
}

/// A marker capability for the opaque context the host backend threads
/// through the tick passes.
pub trait TickBackend {

}

/// The event-arbitration capability: a three-phase, single-threaded,
/// per-frame protocol. Each pass is a deterministic transition of the node's
/// own state and the frame snapshot, named by the `spec_*` functions; a pass
/// never changes the node's sizing opinion, so the rectangles derived during
/// the tick passes remain valid for the draw pass of the same frame.
pub trait TickNode<TB>: Node {
    /// What the dibs pass leaves of the snapshot.
    spec fn spec_dibs_events(&self, slot: Rect, events: Events) -> Events;

    /// Exactly how the dibs pass changes this node's state.
    spec fn dibs_next(&self, slot: Rect, events: Events, next: &Self) -> bool;

    /// What the active pass leaves of the snapshot.
    spec fn spec_active_events(&self, slot: Rect, events: Events) -> Events;

    /// Exactly how the active pass changes this node's state.
    spec fn active_next(&self, slot: Rect, events: Events, next: &Self) -> bool;

    /// Exactly how the inactive pass changes this node's state. The
    /// inactive pass may read but never claim the snapshot.
    spec fn inactive_next(&self, slot: Rect, events: Events, next: &Self) -> bool;

    /// Reserve events for nodes whose current state gives them exclusive
    /// rights to those events, ahead of ordinary hit-testing.
    fn dibs_tick(&mut self, tb: &mut TB, slot: Rect, events: &mut Events)
        requires
            old(self).wf(),
            slot_ok(slot, old(self).spec_size_range()),
            old(events).wf(),
        ensures
            *final(events) == old(self).spec_dibs_events(slot, *old(events)),
            old(self).dibs_next(slot, *old(events), final(self)),
            final(self).wf(),
            final(self).spec_size_range() == old(self).spec_size_range(),
            final(events).wf(),
    ;

    /// Tick while this subtree is under the pointer.
    fn active_tick(&mut self, tb: &mut TB, slot: Rect, events: &mut Events)
        requires
            old(self).wf(),
            slot_ok(slot, old(self).spec_size_range()),
            old(events).wf(),
        ensures
            *final(events) == old(self).spec_active_events(slot, *old(events)),
            old(self).active_next(slot, *old(events), final(self)),
            final(self).wf(),
            final(self).spec_size_range() == old(self).spec_size_range(),
            final(events).wf(),
    ;

    /// Tick while this subtree is not under the pointer.
    fn inactive_tick(&mut self, tb: &mut TB, slot: Rect, events: &Events)
        requires
            old(self).wf(),
            slot_ok(slot, old(self).spec_size_range()),
            events.wf(),
        ensures
            old(self).inactive_next(slot, *events, final(self)),
            final(self).wf(),
            final(self).spec_size_range() == old(self).spec_size_range(),
    ;
}

/// A node with exactly one child. `content_mut` hands the child out for
/// mutation: afterwards the parent is itself with the child replaced by
/// whatever the caller left behind.
pub trait ParentNode: Node {
    type Item: Node;

    /// The child.
    spec fn spec_content(&self) -> Self::Item;

    /// This node with its child replaced.
    spec fn spec_with_content(&self, content: Self::Item) -> Self;

    fn content(&self) -> (r: &Self::Item)
        ensures
            *r == self.spec_content(),
    ;

    fn content_mut(&mut self) -> (r: &mut Self::Item)
        ensures
            *r == old(self).spec_content(),
            *final(self) == old(self).spec_with_content(*final(r)),
    ;
}

/// One primitive paint operation.
#[derive(Clone, Debug)]
pub enum DrawCommand<Color> {
    FillRect { rect: Rect, color: Color },
    Text { text: String, top_left: Point, font_size: i64, color: Color },
}

/// The draw capability the host backend implements. Every paint operation a
/// node issues is appended to an abstract log, so the exact sequence of
/// commands a tree emits is part of each node's contract.
pub trait DrawBackend: Sized {
    type Color: Copy;

    /// The paint operations issued so far, in order.
    spec fn log(&self) -> Seq<DrawCommand<Self::Color>>;

    fn draw_rect(&mut self, rect: &Rect, color: &Self::Color)
        ensures
            final(self).log() == old(self).log().push(
                DrawCommand::FillRect { rect: *rect, color: *color },
            ),
    ;

    fn draw_text(&mut self, text: &String, top_left: Point, font_size: i64, color: &Self::Color)
        ensures
            final(self).log() == old(self).log().push(
                DrawCommand::Text { text: *text, top_left, font_size, color: *color },
            ),
    ;
}

/// The drawing capability: paint this node and its children into the draw
/// context, in order. `spec_draw` names exactly the commands the node
/// appends for a given slot.
pub trait DrawNode<DB: DrawBackend>: Node {
    /// The paint operations this node appends when drawn into `slot`.
    spec fn spec_draw(&self, slot: Rect) -> Seq<DrawCommand<DB::Color>>;

    fn draw(&self, d: &mut DB, slot: Rect)
        requires
            self.wf(),
            slot_ok(slot, self.spec_size_range()),
        ensures
            final(d).log() == old(d).log() + self.spec_draw(slot),
    ;
}

/// Anything that can size, tick and draw.
pub trait GUINode<TB, DB: DrawBackend>: Node + TickNode<TB> + DrawNode<DB> {

}

impl<TB, DB: DrawBackend, T: Node + TickNode<TB> + DrawNode<DB>> GUINode<TB, DB> for T {

}

/// A draw context that records the commands instead of rasterizing them.
/// The host backend replays the recorded commands with whatever concrete
/// renderer it owns.
pub struct DrawList<Color> {
    pub commands: Vec<DrawCommand<Color>>,
}

impl<Color> DrawList<Color> {
    pub fn new() -> (r: DrawList<Color>)
        ensures
            r.commands@ == Seq::<DrawCommand<Color>>::empty(),
    {
        DrawList { commands: Vec::new() }
    }
}

impl<Color: Copy> DrawBackend for DrawList<Color> {
    type Color = Color;

    open spec fn log(&self) -> Seq<DrawCommand<Color>> {
        self.commands@
    }

    fn draw_rect(&mut self, rect: &Rect, color: &Color) {
        self.commands.push(DrawCommand::FillRect { rect: *rect, color: *color });
    }

    fn draw_text(&mut self, text: &String, top_left: Point, font_size: i64, color: &Color) {
        self.commands.push(
            DrawCommand::Text { text: text.clone(), top_left, font_size, color: *color },
        );
    }
}

/// Every child is well formed and is offered a slot satisfying the offer
/// contract.
pub open spec fn children_ok<T: Node>(items: Seq<T>, rects: Seq<Rect>) -> bool {
    &&& items.len() == rects.len()
    &&& forall|i: int|
        0 <= i < items.len() ==> (#[trigger] items[i]).wf() && slot_ok(
            rects[i],
            items[i].spec_size_range(),
        )
}

/// `b` is `a` after a tick pass: element for element well formed, with the
/// sizing opinion unchanged.
pub open spec fn sizes_match<T: Node>(a: Seq<T>, b: Seq<T>) -> bool {
    &&& a.len() == b.len()
    &&& forall|i: int|
        0 <= i < a.len() ==> (#[trigger] b[i]).wf() && b[i].spec_size_range()
            == a[i].spec_size_range()
}

/// The snapshot after the dibs pass has visited every child, in reverse
/// composition order: the child composed first is processed last, on the
/// snapshot the rest of the children left behind.
pub open spec fn spec_dibs_children_events<TB, T: TickNode<TB>>(
    items: Seq<T>,
    rects: Seq<Rect>,
    events: Events,
) -> Events
    decreases items.len(),
{
    if items.len() == 0 {
        events
    } else {
        <T as TickNode<TB>>::spec_dibs_events(
            &items.first(),
            rects.first(),
            spec_dibs_children_events::<TB, T>(items.drop_first(), rects.drop_first(), events),
        )
    }
}

/// The snapshot a given child sees during the dibs pass: whatever the
/// children after it (visited before it) left behind.
pub open spec fn spec_dibs_events_at<TB, T: TickNode<TB>>(
    items: Seq<T>,
    rects: Seq<Rect>,
    events: Events,
    j: int,
) -> Events {
    spec_dibs_children_events::<TB, T>(
        items.subrange(j + 1, items.len() as int),
        rects.subrange(j + 1, rects.len() as int),
        events,
    )
}

/// Exactly how the dibs pass changes a child sequence.
pub open spec fn dibs_children_next<TB, T: TickNode<TB>>(
    items: Seq<T>,
    rects: Seq<Rect>,
    events: Events,
    next: Seq<T>,
) -> bool {
    &&& next.len() == items.len()
    &&& forall|j: int|
        0 <= j < items.len() ==> <T as TickNode<TB>>::dibs_next(
            &items[j],
            rects[j],
            spec_dibs_events_at::<TB, T>(items, rects, events, j),
            &(#[trigger] next[j]),
        )
}

/// Run the dibs pass over a child sequence, in reverse composition order.
pub fn dibs_children<TB, T: TickNode<TB>>(
    items: &mut Vec<T>,
    rects: &Vec<Rect>,
    tb: &mut TB,
    events: &mut Events,
)
    requires
        children_ok(old(items)@, rects@),
        old(events).wf(),
    ensures
        *final(events) == spec_dibs_children_events::<TB, T>(old(items)@, rects@, *old(events)),
        dibs_children_next::<TB, T>(old(items)@, rects@, *old(events), final(items)@),
        sizes_match(old(items)@, final(items)@),
        final(events).wf(),
{
    let ghost items0 = items@;
    let ghost events0 = *events;
    let mut i: usize = items.len();
    proof {
        assert(items0.subrange(i as int, items0.len() as int) =~= Seq::<T>::empty());
        assert(rects@.subrange(i as int, rects@.len() as int) =~= Seq::<Rect>::empty());
    }
    while i > 0
        invariant
            i <= items0.len(),
            items@.len() == items0.len(),
            rects@.len() == items0.len(),
            children_ok(items0, rects@),
            forall|j: int| 0 <= j < i ==> items@[j] == items0[j],
            forall|j: int|
                i <= j < items@.len() ==> (#[trigger] items@[j]).wf() && items@[j].spec_size_range()
                    == items0[j].spec_size_range(),
            forall|j: int|
                i <= j < items@.len() ==> <T as TickNode<TB>>::dibs_next(
                    &items0[j],
                    rects@[j],
                    spec_dibs_events_at::<TB, T>(items0, rects@, events0, j),
                    &(#[trigger] items@[j]),
                ),
            events.wf(),
            *events == spec_dibs_children_events::<TB, T>(
                items0.subrange(i as int, items0.len() as int),
                rects@.subrange(i as int, rects@.len() as int),
                events0,
            ),
        decreases i,
    {
        i = i - 1;
        proof {
            assert(items@[i as int] == items0[i as int]);
            assert(items0[i as int].wf());
            let suffix = items0.subrange(i as int, items0.len() as int);
            let rsuffix = rects@.subrange(i as int, rects@.len() as int);
            assert(suffix.drop_first() =~= items0.subrange(i + 1, items0.len() as int));
            assert(rsuffix.drop_first() =~= rects@.subrange(i + 1, rects@.len() as int));
            assert(suffix.first() == items0[i as int]);
            assert(rsuffix.first() == rects@[i as int]);
        }
        let slot = rects[i];
        let child = &mut items[i];
        child.dibs_tick(tb, slot, events);
    }
    proof {
        assert(items0.subrange(0, items0.len() as int) =~= items0);
        assert(rects@.subrange(0, rects@.len() as int) =~= rects@);
    }
}

/// The snapshot after the active pass has visited every child, in reverse
/// composition order; only the child whose rectangle is under the
/// still-unclaimed pointer ticks actively.
pub open spec fn spec_active_children_events<TB, T: TickNode<TB>>(
    items: Seq<T>,
    rects: Seq<Rect>,
    events: Events,
) -> Events
    decreases items.len(),
{
    if items.len() == 0 {
        events
    } else {
        let rest = spec_active_children_events::<TB, T>(
            items.drop_first(),
            rects.drop_first(),
            events,
        );
        if rest.mouse_event.spec_overlapping(rects.first()) {
            <T as TickNode<TB>>::spec_active_events(&items.first(), rects.first(), rest)
        } else {
            rest
        }
    }
}

/// The snapshot a given child sees during the active pass.
pub open spec fn spec_active_events_at<TB, T: TickNode<TB>>(
    items: Seq<T>,
    rects: Seq<Rect>,
    events: Events,
    j: int,
) -> Events {
    spec_active_children_events::<TB, T>(
        items.subrange(j + 1, items.len() as int),
        rects.subrange(j + 1, rects.len() as int),
        events,
    )
}

/// Exactly how the active pass changes a child sequence: each child ticks
/// actively when the snapshot its later siblings left still carries a
/// pointer event over the child's rectangle, and inactively otherwise.
pub open spec fn active_children_next<TB, T: TickNode<TB>>(
    items: Seq<T>,
    rects: Seq<Rect>,
    events: Events,
    next: Seq<T>,
) -> bool {
    &&& next.len() == items.len()
    &&& forall|j: int|
        #![trigger next[j]]
        0 <= j < items.len() ==> {
            let seen = spec_active_events_at::<TB, T>(items, rects, events, j);
            if seen.mouse_event.spec_overlapping(rects[j]) {
                <T as TickNode<TB>>::active_next(&items[j], rects[j], seen, &next[j])
            } else {
                <T as TickNode<TB>>::inactive_next(&items[j], rects[j], seen, &next[j])
            }
        }
}

/// Run the active pass over a child sequence, in reverse composition order,
/// so the frontmost overlapping child claims the pointer first.
pub fn active_children<TB, T: TickNode<TB>>(
    items: &mut Vec<T>,
    rects: &Vec<Rect>,
    tb: &mut TB,
    events: &mut Events,
)
    requires
        children_ok(old(items)@, rects@),
        old(events).wf(),
    ensures
        *final(events) == spec_active_children_events::<TB, T>(old(items)@, rects@, *old(events)),
        active_children_next::<TB, T>(old(items)@, rects@, *old(events), final(items)@),
        sizes_match(old(items)@, final(items)@),
        final(events).wf(),
{
    let ghost items0 = items@;
    let ghost events0 = *events;
    let mut i: usize = items.len();
    proof {
        assert(items0.subrange(i as int, items0.len() as int) =~= Seq::<T>::empty());
        assert(rects@.subrange(i as int, rects@.len() as int) =~= Seq::<Rect>::empty());
    }
    while i > 0
        invariant
            i <= items0.len(),
            items@.len() == items0.len(),
            rects@.len() == items0.len(),
            children_ok(items0, rects@),
            forall|j: int| 0 <= j < i ==> items@[j] == items0[j],
            forall|j: int|
                i <= j < items@.len() ==> (#[trigger] items@[j]).wf() && items@[j].spec_size_range()
                    == items0[j].spec_size_range(),
            forall|j: int|
                #![trigger items@[j]]
                i <= j < items@.len() ==> {
                    let seen = spec_active_events_at::<TB, T>(items0, rects@, events0, j);
                    if seen.mouse_event.spec_overlapping(rects@[j]) {
                        <T as TickNode<TB>>::active_next(&items0[j], rects@[j], seen, &items@[j])
                    } else {
                        <T as TickNode<TB>>::inactive_next(&items0[j], rects@[j], seen, &items@[j])
                    }
                },
            events.wf(),
            *events == spec_active_children_events::<TB, T>(
                items0.subrange(i as int, items0.len() as int),
                rects@.subrange(i as int, rects@.len() as int),
                events0,
            ),
        decreases i,
    {
        i = i - 1;
        proof {
            assert(items@[i as int] == items0[i as int]);
            assert(items0[i as int].wf());
            let suffix = items0.subrange(i as int, items0.len() as int);
            let rsuffix = rects@.subrange(i as int, rects@.len() as int);
            assert(suffix.drop_first() =~= items0.subrange(i + 1, items0.len() as int));
            assert(rsuffix.drop_first() =~= rects@.subrange(i + 1, rects@.len() as int));
            assert(suffix.first() == items0[i as int]);
            assert(rsuffix.first() == rects@[i as int]);
        }
        let slot = rects[i];
        let overlapping = events.mouse_event.is_some_and_overlapping(slot);
        let child = &mut items[i];
        if overlapping {
            child.active_tick(tb, slot, events);
        } else {
            child.inactive_tick(tb, slot, events);
        }
    }
    proof {
        assert(items0.subrange(0, items0.len() as int) =~= items0);
        assert(rects@.subrange(0, rects@.len() as int) =~= rects@);
    }
}

/// Exactly how the inactive pass changes a child sequence: each child ticks
/// inactively on the unchanged snapshot.
pub open spec fn inactive_children_next<TB, T: TickNode<TB>>(
    items: Seq<T>,
    rects: Seq<Rect>,
    events: Events,
    next: Seq<T>,
) -> bool {
    &&& next.len() == items.len()
    &&& forall|j: int|
        0 <= j < items.len() ==> <T as TickNode<TB>>::inactive_next(
            &items[j],
            rects[j],
            events,
            &(#[trigger] next[j]),
        )
}

/// Run the inactive pass over a child sequence, in reverse composition order.
pub fn inactive_children<TB, T: TickNode<TB>>(
    items: &mut Vec<T>,
    rects: &Vec<Rect>,
    tb: &mut TB,
    events: &Events,
)
    requires
        children_ok(old(items)@, rects@),
        events.wf(),
    ensures
        inactive_children_next::<TB, T>(old(items)@, rects@, *events, final(items)@),
        sizes_match(old(items)@, final(items)@),
{
    let ghost items0 = items@;
    let mut i: usize = items.len();
    while i > 0
        invariant
            i <= items0.len(),
            items@.len() == items0.len(),
            rects@.len() == items0.len(),
            children_ok(items0, rects@),
            events.wf(),
            forall|j: int| 0 <= j < i ==> items@[j] == items0[j],
            forall|j: int|
                i <= j < items@.len() ==> <T as TickNode<TB>>::inactive_next(
                    &items0[j],
                    rects@[j],
                    *events,
                    &(#[trigger] items@[j]),
                ),
            forall|j: int|
                i <= j < items@.len() ==> (#[trigger] items@[j]).wf() && items@[j].spec_size_range()
                    == items0[j].spec_size_range(),
        decreases i,
    {
        i = i - 1;
        proof {
            assert(items@[i as int] == items0[i as int]);
            assert(items0[i as int].wf());
        }
        let slot = rects[i];
        let child = &mut items[i];
        child.inactive_tick(tb, slot, events);
    }
}

/// The draw pass over a child sequence: the commands of every child in
/// forward composition order, so later children paint on top.
pub open spec fn spec_draw_children<DB: DrawBackend, T: DrawNode<DB>>(
    items: Seq<T>,
    rects: Seq<Rect>,
) -> Seq<DrawCommand<DB::Color>>
    decreases items.len(),
{
    if items.len() == 0 {
        Seq::empty()
    } else {
        spec_draw_children::<DB, T>(items.drop_last(), rects.drop_last())
            + <T as DrawNode<DB>>::spec_draw(&items.last(), rects.last())
    }
}

/// Draw a child sequence, in forward composition order.
pub fn draw_children<DB: DrawBackend, T: DrawNode<DB>>(
    items: &Vec<T>,
    rects: &Vec<Rect>,
    d: &mut DB,
)
    requires
        children_ok(items@, rects@),
    ensures
        final(d).log() == old(d).log() + spec_draw_children::<DB, T>(items@, rects@),
{
    let ghost log0 = d.log();
    let mut i: usize = 0;
    proof {
        assert(items@.subrange(0, 0) =~= Seq::<T>::empty());
        assert(rects@.subrange(0, 0) =~= Seq::<Rect>::empty());
        assert(log0 + spec_draw_children::<DB, T>(items@.subrange(0, 0), rects@.subrange(0, 0))
            =~= log0);
    }
    while i < items.len()
        invariant
            i <= items@.len(),
            items@.len() == rects@.len(),
            children_ok(items@, rects@),
            d.log() == log0 + spec_draw_children::<DB, T>(
                items@.subrange(0, i as int),
                rects@.subrange(0, i as int),
            ),
        decreases items@.len() - i,
    {
        let slot = rects[i];
        let child = &items[i];
        child.draw(d, slot);
        proof {
            let prefix_long = items@.subrange(0, i + 1 as int);
            let rects_long = rects@.subrange(0, i + 1 as int);
            assert(prefix_long.drop_last() =~= items@.subrange(0, i as int));
            assert(rects_long.drop_last() =~= rects@.subrange(0, i as int));
            assert(prefix_long.last() == items@[i as int]);
            assert(rects_long.last() == rects@[i as int]);
            assert(log0 + spec_draw_children::<DB, T>(prefix_long, rects_long) =~= (log0
                + spec_draw_children::<DB, T>(
                items@.subrange(0, i as int),
                rects@.subrange(0, i as int),
            )) + <T as DrawNode<DB>>::spec_draw(&items@[i as int], rects@[i as int]));
        }
        i = i + 1;
    }
    proof {
        assert(items@.subrange(0, items@.len() as int) =~= items@);
        assert(rects@.subrange(0, rects@.len() as int) =~= rects@);
    }
}


/// An optional node: `None` takes no space and does nothing.
impl<T: Node> Node for Option<T> {
    open spec fn wf(&self) -> bool {
        match self {
            Some(inner) => inner.wf(),
            None => true,
        }
    }

    open spec fn spec_size_range(&self) -> (SizeRange, SizeRange) {
        match self {
            Some(inner) => inner.spec_size_range(),
            None => (SizeRange { min: 0, max: None }, SizeRange { min: 0, max: None }),
        }
    }

    proof fn lemma_size_range_wf(&self) {
        match self {
            Some(inner) => inner.lemma_size_range_wf(),
            None => (),
        }
    }

    fn size_range(&self) -> (r: (SizeRange, SizeRange)) {
        match self {
            Some(inner) => inner.size_range(),
            None => (SizeRange::unbounded(), SizeRange::unbounded()),
        }
    }

    open spec fn spec_bounds(&self, slot: Rect) -> Rect {
        match self {
            Some(inner) => inner.spec_bounds(slot),
            None => spec_default_bounds(slot, self.spec_size_range()),
        }
    }

    open spec fn placement_req(&self, slot: Rect) -> bool {
        match self {
            Some(inner) => inner.placement_req(slot),
            None => true,
        }
    }

    proof fn lemma_bounds_in_slot(&self, slot: Rect) {
        match self {
            Some(inner) => inner.lemma_bounds_in_slot(slot),
            None => lemma_default_bounds(slot, self.spec_size_range()),
        }
    }

    fn bounds(&self, slot: Rect) -> (r: Rect) {
        match self {
            Some(inner) => inner.bounds(slot),
            None => default_bounds(slot, self.size_range()),
        }
    }
}

impl<TB, T: TickNode<TB>> TickNode<TB> for Option<T> {
    open spec fn spec_dibs_events(&self, slot: Rect, events: Events) -> Events {
        match self {
            Some(inner) => inner.spec_dibs_events(slot, events),
            None => events,
        }
    }

    open spec fn dibs_next(&self, slot: Rect, events: Events, next: &Self) -> bool {
        match (self, next) {
            (Some(inner), Some(n)) => inner.dibs_next(slot, events, n),
            (None, None) => true,
            _ => false,
        }
    }

    open spec fn spec_active_events(&self, slot: Rect, events: Events) -> Events {
        match self {
            Some(inner) => if events.mouse_event.spec_overlapping(slot) {
                inner.spec_active_events(slot, events)
            } else {
                events
            },
            None => events,
        }
    }

    open spec fn active_next(&self, slot: Rect, events: Events, next: &Self) -> bool {
        match (self, next) {
            (Some(inner), Some(n)) => if events.mouse_event.spec_overlapping(slot) {
                inner.active_next(slot, events, n)
            } else {
                inner.inactive_next(slot, events, n)
            },
            (None, None) => true,
            _ => false,
        }
    }

    open spec fn inactive_next(&self, slot: Rect, events: Events, next: &Self) -> bool {
        match (self, next) {
            (Some(inner), Some(n)) => inner.inactive_next(slot, events, n),
            (None, None) => true,
            _ => false,
        }
    }

    fn dibs_tick(&mut self, tb: &mut TB, slot: Rect, events: &mut Events) {
        match self {
            Some(inner) => inner.dibs_tick(tb, slot, events),
            None => (),
        }
    }

    fn active_tick(&mut self, tb: &mut TB, slot: Rect, events: &mut Events) {
        match self {
            Some(inner) => {
                if events.mouse_event.is_some_and_overlapping(slot) {
                    inner.active_tick(tb, slot, events);
                } else {
                    inner.inactive_tick(tb, slot, events);
                }
            },
            None => (),
        }
    }

    fn inactive_tick(&mut self, tb: &mut TB, slot: Rect, events: &Events) {
        match self {
            Some(inner) => inner.inactive_tick(tb, slot, events),
            None => (),
        }
    }
}

impl<DB: DrawBackend, T: DrawNode<DB>> DrawNode<DB> for Option<T> {
    open spec fn spec_draw(&self, slot: Rect) -> Seq<DrawCommand<DB::Color>> {
        match self {
            Some(inner) => inner.spec_draw(slot),
            None => Seq::empty(),
        }
    }

    fn draw(&self, d: &mut DB, slot: Rect) {
        match self {
            Some(inner) => inner.draw(d, slot),
            None => proof {
                assert(d.log() + <Option<T> as DrawNode<DB>>::spec_draw(self, slot) =~= d.log());
            },
        }
    }
}

/// Draw/tick order symmetry, for a collection of three children composed in
/// the order `a`, `b`, `c`: the draw pass emits `a`'s commands, then `b`'s,
/// then `c`'s, so the child composed last paints on top; the tick passes run
/// the other way around: `c` ticks first, on the raw frame snapshot, `b` on
/// whatever `c` left of it, and `a` on whatever `c` and then `b` left, so
/// the child composed last gets first refusal on claiming input.
pub proof fn lemma_draw_tick_order_symmetry<TB, DB: DrawBackend, T: TickNode<TB> + DrawNode<DB>>(
    a: T,
    b: T,
    c: T,
    ra: Rect,
    rb: Rect,
    rc: Rect,
    events: Events,
)
    ensures
        spec_draw_children::<DB, T>(seq![a, b, c], seq![ra, rb, rc]) == <T as DrawNode<
            DB,
        >>::spec_draw(&a, ra) + <T as DrawNode<DB>>::spec_draw(&b, rb) + <T as DrawNode<
            DB,
        >>::spec_draw(&c, rc),
        spec_dibs_events_at::<TB, T>(seq![a, b, c], seq![ra, rb, rc], events, 2) == events,
        spec_dibs_events_at::<TB, T>(seq![a, b, c], seq![ra, rb, rc], events, 1) == <T as TickNode<
            TB,
        >>::spec_dibs_events(&c, rc, events),
        spec_dibs_events_at::<TB, T>(seq![a, b, c], seq![ra, rb, rc], events, 0) == <T as TickNode<
            TB,
        >>::spec_dibs_events(
            &b,
            rb,
            <T as TickNode<TB>>::spec_dibs_events(&c, rc, events),
        ),
        spec_dibs_children_events::<TB, T>(seq![a, b, c], seq![ra, rb, rc], events)
            == <T as TickNode<TB>>::spec_dibs_events(
            &a,
            ra,
            <T as TickNode<TB>>::spec_dibs_events(
                &b,
                rb,
                <T as TickNode<TB>>::spec_dibs_events(&c, rc, events),
            ),
        ),
        spec_active_events_at::<TB, T>(seq![a, b, c], seq![ra, rb, rc], events, 2) == events,
        spec_active_events_at::<TB, T>(seq![a, b, c], seq![ra, rb, rc], events, 1) == (
        if events.mouse_event.spec_overlapping(rc) {
            <T as TickNode<TB>>::spec_active_events(&c, rc, events)
        } else {
            events
        }),
{
    let items = seq![a, b, c];
    let rects = seq![ra, rb, rc];
    assert(items.subrange(1, 3).drop_first() =~= items.subrange(2, 3));
    assert(rects.subrange(1, 3).drop_first() =~= rects.subrange(2, 3));
    assert(items.subrange(2, 3).drop_first() =~= items.subrange(3, 3));
    assert(rects.subrange(2, 3).drop_first() =~= rects.subrange(3, 3));
    assert(items.subrange(3, 3) =~= Seq::<T>::empty());
    assert(rects.subrange(3, 3) =~= Seq::<Rect>::empty());
    assert(items.drop_first() =~= items.subrange(1, 3));
    assert(rects.drop_first() =~= rects.subrange(1, 3));
    assert(items.subrange(1, 3).first() == b);
    assert(items.subrange(2, 3).first() == c);
    let da = <T as DrawNode<DB>>::spec_draw(&a, ra);
    let db = <T as DrawNode<DB>>::spec_draw(&b, rb);
    let dc = <T as DrawNode<DB>>::spec_draw(&c, rc);
    assert(items.drop_last() =~= seq![a, b]);
    assert(rects.drop_last() =~= seq![ra, rb]);
    assert(seq![a, b].drop_last() =~= seq![a]);
    assert(seq![ra, rb].drop_last() =~= seq![ra]);
    assert(seq![a].drop_last() =~= Seq::<T>::empty());
    assert(seq![ra].drop_last() =~= Seq::<Rect>::empty());
    assert(seq![a, b].last() == b);
    assert(seq![a].last() == a);
    assert(Seq::<DrawCommand<DB::Color>>::empty() + da =~= da);
    assert(spec_draw_children::<DB, T>(Seq::<T>::empty(), Seq::<Rect>::empty())
        == Seq::<DrawCommand<DB::Color>>::empty());
    assert(spec_draw_children::<DB, T>(seq![a], seq![ra]) =~= da);
    assert(spec_draw_children::<DB, T>(seq![a, b], seq![ra, rb]) =~= da + db);
    assert(spec_draw_children::<DB, T>(items, rects) =~= da + db + dc);
}

/// A leaf that takes no space, claims nothing and paints nothing.
#[derive(Clone, Copy, Debug)]
pub struct Empty;

impl Node for Empty {
    open spec fn wf(&self) -> bool {
        true
    }

    open spec fn spec_size_range(&self) -> (SizeRange, SizeRange) {
        (SizeRange { min: 0, max: None }, SizeRange { min: 0, max: None })
    }

    proof fn lemma_size_range_wf(&self) {
    }

    fn size_range(&self) -> (r: (SizeRange, SizeRange)) {
        (SizeRange::unbounded(), SizeRange::unbounded())
    }

    open spec fn spec_bounds(&self, slot: Rect) -> Rect {
        spec_default_bounds(slot, self.spec_size_range())
    }

    open spec fn placement_req(&self, slot: Rect) -> bool {
        true
    }

    proof fn lemma_bounds_in_slot(&self, slot: Rect) {
        lemma_default_bounds(slot, self.spec_size_range());
    }

    fn bounds(&self, slot: Rect) -> (r: Rect) {
        default_bounds(slot, self.size_range())
    }
}

impl<TB> TickNode<TB> for Empty {
    open spec fn spec_dibs_events(&self, slot: Rect, events: Events) -> Events {
        events
    }

    open spec fn dibs_next(&self, slot: Rect, events: Events, next: &Self) -> bool {
        *next == *self
    }

    open spec fn spec_active_events(&self, slot: Rect, events: Events) -> Events {
        events
    }

    open spec fn active_next(&self, slot: Rect, events: Events, next: &Self) -> bool {
        *next == *self
    }

    open spec fn inactive_next(&self, slot: Rect, events: Events, next: &Self) -> bool {
        *next == *self
    }

    fn dibs_tick(&mut self, tb: &mut TB, slot: Rect, events: &mut Events) {
    }

    fn active_tick(&mut self, tb: &mut TB, slot: Rect, events: &mut Events) {
    }

    fn inactive_tick(&mut self, tb: &mut TB, slot: Rect, events: &Events) {
    }
}

impl<DB: DrawBackend> DrawNode<DB> for Empty {
    open spec fn spec_draw(&self, slot: Rect) -> Seq<DrawCommand<DB::Color>> {
        Seq::empty()
    }

    fn draw(&self, d: &mut DB, slot: Rect) {
        proof {
            assert(d.log() + <Empty as DrawNode<DB>>::spec_draw(self, slot) =~= d.log());
        }
    }
}

} // verus!
