//! The per-frame event model: a claimable event wrapper with single-consumer
//! ("dibs") semantics, the pointer snapshot, and the frame snapshot handed to
//! every tick pass.

use vstd::prelude::*;
use crate::geometry::{clamp_i64, Point, Rect, MAX_COORD};

verus! {

/// A claimable value. A consumer may peek at it, take it, or take it "with
/// dibs": a take that is only legitimate while no other consumer has removed
/// the payload this frame.
#[derive(Clone, Copy, Debug)]
pub struct Event<T = ()> {
    pub event: Option<T>,
}

impl<T> Event<T> {
    /// The payload still carried, if any.
    pub open spec fn spec_get(self) -> Option<T> {
        self.event
    }

    pub fn new(event: Option<T>) -> (r: Event<T>)
        ensures
            r.spec_get() == event,
    {
        Event { event }
    }

    /// Remove and return the payload.
    pub fn take(&mut self) -> (r: Option<T>)
        ensures
            r == old(self).spec_get(),
            final(self).spec_get() is None,
    {
        self.event.take()
    }

    /// Remove and return the payload if `predicate` accepts it.
    pub fn take_if<P: FnOnce(&T) -> bool>(&mut self, predicate: P) -> (r: Option<T>)
        requires
            old(self).spec_get() matches Some(v) ==> call_requires(predicate, (&v,)),
        ensures
            match old(self).spec_get() {
                None => r is None && final(self).spec_get() is None,
                Some(v) => {
                    ||| (r == Some(v) && final(self).spec_get() is None && call_ensures(
                        predicate,
                        (&v,),
                        true,
                    ))
                    ||| (r is None && final(self).spec_get() == Some(v) && call_ensures(
                        predicate,
                        (&v,),
                        false,
                    ))
                },
            },
    {
        let matched = match &self.event {
            Some(v) => predicate(v),
            None => false,
        };
        if matched {
            self.event.take()
        } else {
            None
        }
    }

    /// Take the payload of an event this consumer holds exclusive rights to.
    /// Claiming an already-claimed event is a contract violation between UI
    /// elements, so the payload must still be present.
    pub fn take_with_dibs(&mut self) -> (r: T)
        requires
            old(self).spec_get() is Some,
        ensures
            Some(r) == old(self).spec_get(),
            final(self).spec_get() is None,
    {
        self.event.take().unwrap()
    }

    /// Like `take_if`, for a consumer holding exclusive rights to the event.
    pub fn take_with_dibs_if<P: FnOnce(&T) -> bool>(&mut self, predicate: P) -> (r: Option<T>)
        requires
            old(self).spec_get() matches Some(v) ==> call_requires(predicate, (&v,)),
        ensures
            match old(self).spec_get() {
                None => r is None && final(self).spec_get() is None,
                Some(v) => {
                    ||| (r == Some(v) && final(self).spec_get() is None && call_ensures(
                        predicate,
                        (&v,),
                        true,
                    ))
                    ||| (r is None && final(self).spec_get() == Some(v) && call_ensures(
                        predicate,
                        (&v,),
                        false,
                    ))
                },
            },
    {
        self.take_if(predicate)
    }

    pub fn is_some(&self) -> (r: bool)
        ensures
            r == (self.spec_get() is Some),
    {
        self.event.is_some()
    }

    pub fn is_none(&self) -> (r: bool)
        ensures
            r == (self.spec_get() is None),
    {
        self.event.is_none()
    }
}

/// The pointer snapshot: where the pointer is, plus a claimable
/// "primary button just pressed" sub-event and a claimable scroll delta.
#[derive(Clone, Copy, Debug)]
pub struct MouseEvent {
    pub position: Point,
    pub left_mouse_press: Event<()>,
    pub scroll: Event<Point>,
}

impl Event<MouseEvent> {
    /// Is a pointer event still unclaimed, with its position inside `region`?
    pub open spec fn spec_overlapping(self, region: Rect) -> bool {
        match self.spec_get() {
            Some(e) => region.spec_contains(e.position),
            None => false,
        }
    }

    pub fn is_some_and_overlapping(&self, region: Rect) -> (r: bool)
        ensures
            r == self.spec_overlapping(region),
    {
        match &self.event {
            Some(e) => region.contains(e.position),
            None => false,
        }
    }

    /// Claim the pointer event if it is unclaimed and inside `region`.
    pub fn take_if_overlapping(&mut self, region: Rect) -> (r: Option<MouseEvent>)
        ensures
            if old(self).spec_overlapping(region) {
                r == old(self).spec_get() && final(self).spec_get() is None
            } else {
                r is None && *final(self) == *old(self)
            },
    {
        let matched = match &self.event {
            Some(e) => region.contains(e.position),
            None => false,
        };
        if matched {
            self.event.take()
        } else {
            None
        }
    }
}

/// The frame snapshot handed to every tick pass. The pointer event is
/// claimable; the "primary button just released" flag deliberately is not,
/// because every element must be allowed to observe a release even if some
/// other element claimed the press.
#[derive(Clone, Copy, Debug)]
pub struct Events {
    pub mouse_event: Event<MouseEvent>,
    pub left_mouse_release: bool,
}

impl Events {
    /// The pointer position, if present, lies within the coordinate bound.
    pub open spec fn wf(self) -> bool {
        match self.mouse_event.spec_get() {
            Some(e) => e.position.wf(),
            None => true,
        }
    }

    /// Build a frame snapshot from plain backend readings. The pointer
    /// position is clamped into the engine's coordinate bound.
    pub fn new(position: Point, m1_pressed: bool, scroll: Point, m1_released: bool) -> (r: Events)
        ensures
            r.wf(),
            r.mouse_event.spec_get() matches Some(e) && {
                &&& e.position.x == crate::geometry::spec_clamp(
                    position.x as int,
                    -MAX_COORD as int,
                    MAX_COORD as int,
                )
                &&& e.position.y == crate::geometry::spec_clamp(
                    position.y as int,
                    -MAX_COORD as int,
                    MAX_COORD as int,
                )
                &&& e.left_mouse_press.spec_get() == (if m1_pressed {
                    Some(())
                } else {
                    None::<()>
                })
                &&& e.scroll.spec_get() == Some(scroll)
            },
            r.left_mouse_release == m1_released,
    {
        let clamped = Point {
            x: clamp_i64(position.x, -MAX_COORD, MAX_COORD),
            y: clamp_i64(position.y, -MAX_COORD, MAX_COORD),
        };
        Events {
            mouse_event: Event {
                event: Some(
                    MouseEvent {
                        position: clamped,
                        left_mouse_press: Event { event: if m1_pressed { Some(()) } else { None } },
                        scroll: Event { event: Some(scroll) },
                    },
                ),
            },
            left_mouse_release: m1_released,
        }
    }

    /// Poll an input backend once and build this frame's snapshot.
    /// Nothing is assumed of the backend: whatever it reports, the snapshot
    /// is well formed and carries an unclaimed pointer event.
    pub fn check<IB: InputBackend>(tb: &mut IB) -> (r: Events)
        ensures
            r.wf(),
            r.mouse_event.spec_get() is Some,
    {
        let position = tb.mouse_position();
        let m1_pressed = tb.is_m1_pressed();
        let m1_released = tb.is_m1_released();
        let scroll = tb.mouse_wheel_move();
        Events::new(position, m1_pressed, scroll, m1_released)
    }
}

/// The input capability the host backend implements: polled once per frame
/// to build the `Events` snapshot. Nothing is promised of its readings.
pub trait InputBackend {
    fn mouse_position(&mut self) -> Point;

    fn is_m1_pressed(&mut self) -> bool;

    fn is_m1_released(&mut self) -> bool;

    fn mouse_wheel_move(&mut self) -> Point;
}

} // verus!
