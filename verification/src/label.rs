//! Label: a static content leaf. It has no sizing opinion of its own (text
//! measurement is the backend's business) and paints its text at the top
//! left corner of whatever rectangle it is given.

use vstd::prelude::*;
use crate::events::Events;
use crate::geometry::{Point, Rect, SizeRange};
use crate::node::{
    default_bounds, lemma_default_bounds, spec_default_bounds, DrawBackend, DrawCommand, DrawNode,
    Node, TickNode,
};

verus! {

#[derive(Clone, Copy, Debug)]
pub struct LabelStyle<Color: Copy> {
    pub font_size: i64,
    pub color: Color,
}

pub struct Label<Color: Copy> {
    pub style: LabelStyle<Color>,
    pub content: String,
}

impl<Color: Copy> Label<Color> {
    pub fn new(style: LabelStyle<Color>, content: String) -> (r: Label<Color>)
        ensures
            r.style == style,
            r.content == content,
    {
        Label { style, content }
    }
}

impl<Color: Copy> Node for Label<Color> {
    open spec fn wf(&self) -> bool {
        true
    }

    open spec fn spec_size_range(&self) -> (SizeRange, SizeRange) {
        (SizeRange { min: 0, max: None }, SizeRange { min: 0, max: None })
    }

    proof fn lemma_size_range_wf(&self) {
    }

    fn size_range(&self) -> (r: (SizeRange, SizeRange)) {
        (SizeRange::unbounded(), SizeRange::unbounded())
    }

    open spec fn spec_bounds(&self, slot: Rect) -> Rect {
        spec_default_bounds(slot, self.spec_size_range())
    }

    open spec fn placement_req(&self, slot: Rect) -> bool {
        true
    }

    proof fn lemma_bounds_in_slot(&self, slot: Rect) {
        lemma_default_bounds(slot, self.spec_size_range());
    }

    fn bounds(&self, slot: Rect) -> (r: Rect) {
        default_bounds(slot, self.size_range())
    }
}

impl<Color: Copy, TB> TickNode<TB> for Label<Color> {
    open spec fn spec_dibs_events(&self, slot: Rect, events: Events) -> Events {
        events
    }

    open spec fn dibs_next(&self, slot: Rect, events: Events, next: &Self) -> bool {
        *next == *self
    }

    open spec fn spec_active_events(&self, slot: Rect, events: Events) -> Events {
        events
    }

    open spec fn active_next(&self, slot: Rect, events: Events, next: &Self) -> bool {
        *next == *self
    }

    open spec fn inactive_next(&self, slot: Rect, events: Events, next: &Self) -> bool {
        *next == *self
    }

    fn dibs_tick(&mut self, tb: &mut TB, slot: Rect, events: &mut Events) {
    }

    fn active_tick(&mut self, tb: &mut TB, slot: Rect, events: &mut Events) {
    }

    fn inactive_tick(&mut self, tb: &mut TB, slot: Rect, events: &Events) {
    }
}

impl<Color: Copy, DB: DrawBackend<Color = Color>> DrawNode<DB> for Label<Color> {
    open spec fn spec_draw(&self, slot: Rect) -> Seq<DrawCommand<Color>> {
        seq![
            DrawCommand::Text {
                text: self.content,
                top_left: Point { x: slot.x_min, y: slot.y_min },
                font_size: self.style.font_size,
                color: self.style.color,
            },
        ]
    }

    fn draw(&self, d: &mut DB, slot: Rect) {
        let ghost log0 = d.log();
        d.draw_text(&self.content, slot.min_point(), self.style.font_size, &self.style.color);
        proof {
            assert(d.log() =~= log0 + <Label<Color> as DrawNode<DB>>::spec_draw(self, slot));
        }
    }
}

} // verus!
