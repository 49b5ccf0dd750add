//! Button: a stateful widget with a hover/press state machine, evaluated
//! during the active pass while not disabled.
//!
//! Transitions per active tick, in order: a "primary released" flag first
//! returns the button to `Hover`; then, if the still-unclaimed pointer event
//! overlaps the button's slot, the button claims it, moving `Normal` to
//! `Hover` and, when the claimed event carries a "just pressed" sub-event,
//! to `Press`. With no overlapping claim this frame the button resets to
//! `Normal`. While `Disabled`, no transition occurs.

use vstd::prelude::*;
use crate::events::Events;
use crate::geometry::{Rect, SizeRange};
use crate::node::{
    default_bounds, lemma_default_bounds, slot_ok, spec_default_bounds, DrawBackend, DrawCommand,
    DrawNode, Node, ParentNode, TickNode,
};
use crate::node::Visibility;

verus! {

/// One fill color per state.
#[derive(Clone, Copy, Debug)]
pub struct ButtonStyle<Color: Copy> {
    pub disabled_color: Color,
    pub normal_color: Color,
    pub hover_color: Color,
    pub press_color: Color,
}

#[derive(Clone, Copy, Debug, PartialEq, Eq, Structural)]
pub enum ButtonState {
    Disabled,
    Normal,
    Hover,
    Press,
}

/// The widget state a button carries between frames.
#[derive(Clone, Copy, Debug)]
pub struct ButtonData<Color: Copy> {
    pub visibility: Visibility,
    pub state: ButtonState,
    pub style: ButtonStyle<Color>,
}

impl<Color: Copy> ButtonData<Color> {
    /// A button starts `Normal`, occluding the hit test.
    pub fn new(style: ButtonStyle<Color>) -> (r: ButtonData<Color>)
        ensures
            r.visibility == Visibility::Occlude,
            r.state == ButtonState::Normal,
            r.style == style,
    {
        ButtonData { visibility: Visibility::Occlude, state: ButtonState::Normal, style }
    }

    pub fn state(&self) -> (r: ButtonState)
        ensures
            r == self.state,
    {
        self.state
    }

    /// The fill color associated with the current state.
    pub open spec fn spec_color(&self) -> Color {
        match self.state {
            ButtonState::Disabled => self.style.disabled_color,
            ButtonState::Normal => self.style.normal_color,
            ButtonState::Hover => self.style.hover_color,
            ButtonState::Press => self.style.press_color,
        }
    }

    pub fn color(&self) -> (r: &Color)
        ensures
            *r == self.spec_color(),
    {
        match self.state {
            ButtonState::Disabled => &self.style.disabled_color,
            ButtonState::Normal => &self.style.normal_color,
            ButtonState::Hover => &self.style.hover_color,
            ButtonState::Press => &self.style.press_color,
        }
    }
}

/// What one active tick does to the button state and the snapshot, after the
/// content has ticked: the state machine described in this module's
/// documentation.
pub open spec fn spec_button_step<Color: Copy>(
    data: ButtonData<Color>,
    slot: Rect,
    events: Events,
) -> (ButtonData<Color>, Events) {
    if data.state is Disabled {
        (data, events)
    } else {
        let s1 = if events.left_mouse_release {
            ButtonState::Hover
        } else {
            data.state
        };
        if events.mouse_event.spec_overlapping(slot) {
            let hover = events.mouse_event.spec_get()->Some_0;
            let s2 = if s1 is Normal {
                ButtonState::Hover
            } else {
                s1
            };
            let s3 = if hover.left_mouse_press.spec_get() is Some {
                ButtonState::Press
            } else {
                s2
            };
            (
                ButtonData { state: s3, ..data },
                Events { mouse_event: crate::events::Event { event: None }, ..events },
            )
        } else {
            (ButtonData { state: ButtonState::Normal, ..data }, events)
        }
    }
}

pub struct Button<Color: Copy, T> {
    pub data: ButtonData<Color>,
    pub content: T,
}

impl<Color: Copy, T> Button<Color, T> {
    pub fn new(data: ButtonData<Color>, content: T) -> (r: Button<Color, T>)
        ensures
            r.data == data,
            r.content == content,
    {
        Button { data, content }
    }
}

impl<Color: Copy, T: Node> Button<Color, T> {
    /// The rectangle handed to the content: the button's own bounds.
    pub fn child_rect(&self, slot: Rect) -> (r: Rect)
        requires
            self.wf(),
            slot_ok(slot, self.spec_size_range()),
        ensures
            r == self.spec_bounds(slot),
            slot_ok(r, self.content.spec_size_range()),
            r.spec_fits_in(slot),
    {
        proof {
            self.content.lemma_size_range_wf();
            lemma_default_bounds(slot, self.spec_size_range());
        }
        self.bounds(slot)
    }
}

impl<Color: Copy, T: Node> Node for Button<Color, T> {
    open spec fn wf(&self) -> bool {
        self.content.wf()
    }

    open spec fn spec_size_range(&self) -> (SizeRange, SizeRange) {
        self.content.spec_size_range()
    }

    proof fn lemma_size_range_wf(&self) {
        self.content.lemma_size_range_wf();
    }

    fn size_range(&self) -> (r: (SizeRange, SizeRange)) {
        self.content.size_range()
    }

    open spec fn spec_bounds(&self, slot: Rect) -> Rect {
        spec_default_bounds(slot, self.spec_size_range())
    }

    open spec fn placement_req(&self, slot: Rect) -> bool {
        true
    }

    proof fn lemma_bounds_in_slot(&self, slot: Rect) {
        self.lemma_size_range_wf();
        lemma_default_bounds(slot, self.spec_size_range());
    }

    fn bounds(&self, slot: Rect) -> (r: Rect) {
        proof {
            self.lemma_size_range_wf();
        }
        default_bounds(slot, self.size_range())
    }
}

impl<Color: Copy, TB, T: TickNode<TB>> TickNode<TB> for Button<Color, T> {
    open spec fn spec_dibs_events(&self, slot: Rect, events: Events) -> Events {
        <T as TickNode<TB>>::spec_dibs_events(&self.content, self.spec_bounds(slot), events)
    }

    open spec fn dibs_next(&self, slot: Rect, events: Events, next: &Self) -> bool {
        &&& next.data == self.data
        &&& <T as TickNode<TB>>::dibs_next(&self.content, self.spec_bounds(slot), events, &next.content)
    }

    open spec fn spec_active_events(&self, slot: Rect, events: Events) -> Events {
        let rect = self.spec_bounds(slot);
        let seen = if events.mouse_event.spec_overlapping(rect) {
            <T as TickNode<TB>>::spec_active_events(&self.content, rect, events)
        } else {
            events
        };
        spec_button_step(self.data, slot, seen).1
    }

    open spec fn active_next(&self, slot: Rect, events: Events, next: &Self) -> bool {
        let rect = self.spec_bounds(slot);
        let seen = if events.mouse_event.spec_overlapping(rect) {
            <T as TickNode<TB>>::spec_active_events(&self.content, rect, events)
        } else {
            events
        };
        &&& next.data == spec_button_step(self.data, slot, seen).0
        &&& if events.mouse_event.spec_overlapping(rect) {
            <T as TickNode<TB>>::active_next(&self.content, rect, events, &next.content)
        } else {
            <T as TickNode<TB>>::inactive_next(&self.content, rect, events, &next.content)
        }
    }

    open spec fn inactive_next(&self, slot: Rect, events: Events, next: &Self) -> bool {
        &&& next.data == (if self.data.state is Disabled {
            self.data
        } else {
            ButtonData { state: ButtonState::Normal, ..self.data }
        })
        &&& <T as TickNode<TB>>::inactive_next(&self.content, self.spec_bounds(slot), events, &next.content)
    }

    fn dibs_tick(&mut self, tb: &mut TB, slot: Rect, events: &mut Events) {
        let rect = self.child_rect(slot);
        self.content.dibs_tick(tb, rect, events);
    }

    fn active_tick(&mut self, tb: &mut TB, slot: Rect, events: &mut Events) {
        let rect = self.child_rect(slot);
        if events.mouse_event.is_some_and_overlapping(rect) {
            self.content.active_tick(tb, rect, events);
        } else {
            self.content.inactive_tick(tb, rect, events);
        }

        if !matches!(self.data.state, ButtonState::Disabled) {
            if events.left_mouse_release {
                self.data.state = ButtonState::Hover;
            }
            match events.mouse_event.take_if_overlapping(slot) {
                Some(hover) => {
                    if matches!(self.data.state, ButtonState::Normal) {
                        self.data.state = ButtonState::Hover;
                    }
                    if hover.left_mouse_press.is_some() {
                        self.data.state = ButtonState::Press;
                    }
                },
                None => {
                    self.data.state = ButtonState::Normal;
                },
            }
        }
    }

    fn inactive_tick(&mut self, tb: &mut TB, slot: Rect, events: &Events) {
        let rect = self.child_rect(slot);
        self.content.inactive_tick(tb, rect, events);
        if !matches!(self.data.state, ButtonState::Disabled) {
            self.data.state = ButtonState::Normal;
        }
    }
}

impl<Color: Copy, DB: DrawBackend<Color = Color>, T: DrawNode<DB>> DrawNode<DB> for Button<
    Color,
    T,
> {
    open spec fn spec_draw(&self, slot: Rect) -> Seq<DrawCommand<Color>> {
        seq![DrawCommand::FillRect { rect: slot, color: self.data.spec_color() }]
            + <T as DrawNode<DB>>::spec_draw(&self.content, self.spec_bounds(slot))
    }

    fn draw(&self, d: &mut DB, slot: Rect) {
        let ghost log0 = d.log();
        d.draw_rect(&slot, self.data.color());
        let rect = self.child_rect(slot);
        self.content.draw(d, rect);
        proof {
            assert(d.log() =~= log0 + <Button<Color, T> as DrawNode<DB>>::spec_draw(self, slot));
        }
    }
}

impl<Color: Copy, T: Node> ParentNode for Button<Color, T> {
    type Item = T;

    open spec fn spec_content(&self) -> T {
        self.content
    }

    open spec fn spec_with_content(&self, content: T) -> Self {
        Button { data: self.data, content }
    }

    fn content(&self) -> (r: &T) {
        &self.content
    }

    fn content_mut(&mut self) -> (r: &mut T) {
        &mut self.content
    }
}

} // verus!

