//! The tree composition root: a closed tagged union over every concrete
//! node kind, so that heterogeneous node types can be stored in one
//! homogeneous collection. Every capability dispatches on the tag.

use vstd::prelude::*;
use crate::align_box::AlignBoxNode;
use crate::area_box::AreaBoxNode;
use crate::button::Button;
use crate::events::Events;
use crate::geometry::{Rect, SizeRange};
use crate::label::Label;
use crate::node::{DrawBackend, DrawCommand, DrawNode, Empty, Node, TickNode};
use crate::pad_box::PadBoxNode;
use crate::size_box::SizeBoxNode;
use crate::split_box::SplitBoxNode;
use crate::stack_box::StackBoxNode;
use crate::uniform_grid::UniformGridNode;

verus! {

/// A union of every node kind the engine offers.
pub enum AmyGUINode<Color: Copy, T> {
    AlignBox(AlignBoxNode<T>),
    AreaBox(AreaBoxNode<T>),
    Button(Button<Color, T>),
    Label(Label<Color>),
    PadBox(PadBoxNode<T>),
    SizeBox(SizeBoxNode<T>),
    SplitBox(SplitBoxNode<T>),
    StackBox(StackBoxNode<T>),
    UniformGrid(UniformGridNode<T>),
    Empty(Empty),
}

impl<Color: Copy, T: Node> Node for AmyGUINode<Color, T> {
    open spec fn wf(&self) -> bool {
        match self {
            AmyGUINode::AlignBox(node) => node.wf(),
            AmyGUINode::AreaBox(node) => node.wf(),
            AmyGUINode::Button(node) => node.wf(),
            AmyGUINode::Label(node) => node.wf(),
            AmyGUINode::PadBox(node) => node.wf(),
            AmyGUINode::SizeBox(node) => node.wf(),
            AmyGUINode::SplitBox(node) => node.wf(),
            AmyGUINode::StackBox(node) => node.wf(),
            AmyGUINode::UniformGrid(node) => node.wf(),
            AmyGUINode::Empty(node) => node.wf(),
        }
    }

    open spec fn spec_size_range(&self) -> (SizeRange, SizeRange) {
        match self {
            AmyGUINode::AlignBox(node) => node.spec_size_range(),
            AmyGUINode::AreaBox(node) => node.spec_size_range(),
            AmyGUINode::Button(node) => node.spec_size_range(),
            AmyGUINode::Label(node) => node.spec_size_range(),
            AmyGUINode::PadBox(node) => node.spec_size_range(),
            AmyGUINode::SizeBox(node) => node.spec_size_range(),
            AmyGUINode::SplitBox(node) => node.spec_size_range(),
            AmyGUINode::StackBox(node) => node.spec_size_range(),
            AmyGUINode::UniformGrid(node) => node.spec_size_range(),
            AmyGUINode::Empty(node) => node.spec_size_range(),
        }
    }

    proof fn lemma_size_range_wf(&self) {
        match self {
            AmyGUINode::AlignBox(node) => node.lemma_size_range_wf(),
            AmyGUINode::AreaBox(node) => node.lemma_size_range_wf(),
            AmyGUINode::Button(node) => node.lemma_size_range_wf(),
            AmyGUINode::Label(node) => node.lemma_size_range_wf(),
            AmyGUINode::PadBox(node) => node.lemma_size_range_wf(),
            AmyGUINode::SizeBox(node) => node.lemma_size_range_wf(),
            AmyGUINode::SplitBox(node) => node.lemma_size_range_wf(),
            AmyGUINode::StackBox(node) => node.lemma_size_range_wf(),
            AmyGUINode::UniformGrid(node) => node.lemma_size_range_wf(),
            AmyGUINode::Empty(node) => node.lemma_size_range_wf(),
        }
    }

    fn size_range(&self) -> (r: (SizeRange, SizeRange)) {
        match self {
            AmyGUINode::AlignBox(node) => node.size_range(),
            AmyGUINode::AreaBox(node) => node.size_range(),
            AmyGUINode::Button(node) => node.size_range(),
            AmyGUINode::Label(node) => node.size_range(),
            AmyGUINode::PadBox(node) => node.size_range(),
            AmyGUINode::SizeBox(node) => node.size_range(),
            AmyGUINode::SplitBox(node) => node.size_range(),
            AmyGUINode::StackBox(node) => node.size_range(),
            AmyGUINode::UniformGrid(node) => node.size_range(),
            AmyGUINode::Empty(node) => node.size_range(),
        }
    }

    open spec fn spec_bounds(&self, slot: Rect) -> Rect {
        match self {
            AmyGUINode::AlignBox(node) => node.spec_bounds(slot),
            AmyGUINode::AreaBox(node) => node.spec_bounds(slot),
            AmyGUINode::Button(node) => node.spec_bounds(slot),
            AmyGUINode::Label(node) => node.spec_bounds(slot),
            AmyGUINode::PadBox(node) => node.spec_bounds(slot),
            AmyGUINode::SizeBox(node) => node.spec_bounds(slot),
            AmyGUINode::SplitBox(node) => node.spec_bounds(slot),
            AmyGUINode::StackBox(node) => node.spec_bounds(slot),
            AmyGUINode::UniformGrid(node) => node.spec_bounds(slot),
            AmyGUINode::Empty(node) => node.spec_bounds(slot),
        }
    }

    open spec fn placement_req(&self, slot: Rect) -> bool {
        match self {
            AmyGUINode::AlignBox(node) => node.placement_req(slot),
            AmyGUINode::AreaBox(node) => node.placement_req(slot),
            AmyGUINode::Button(node) => node.placement_req(slot),
            AmyGUINode::Label(node) => node.placement_req(slot),
            AmyGUINode::PadBox(node) => node.placement_req(slot),
            AmyGUINode::SizeBox(node) => node.placement_req(slot),
            AmyGUINode::SplitBox(node) => node.placement_req(slot),
            AmyGUINode::StackBox(node) => node.placement_req(slot),
            AmyGUINode::UniformGrid(node) => node.placement_req(slot),
            AmyGUINode::Empty(node) => node.placement_req(slot),
        }
    }

    proof fn lemma_bounds_in_slot(&self, slot: Rect) {
        match self {
            AmyGUINode::AlignBox(node) => node.lemma_bounds_in_slot(slot),
            AmyGUINode::AreaBox(node) => node.lemma_bounds_in_slot(slot),
            AmyGUINode::Button(node) => node.lemma_bounds_in_slot(slot),
            AmyGUINode::Label(node) => node.lemma_bounds_in_slot(slot),
            AmyGUINode::PadBox(node) => node.lemma_bounds_in_slot(slot),
            AmyGUINode::SizeBox(node) => node.lemma_bounds_in_slot(slot),
            AmyGUINode::SplitBox(node) => node.lemma_bounds_in_slot(slot),
            AmyGUINode::StackBox(node) => node.lemma_bounds_in_slot(slot),
            AmyGUINode::UniformGrid(node) => node.lemma_bounds_in_slot(slot),
            AmyGUINode::Empty(node) => node.lemma_bounds_in_slot(slot),
        }
    }

    fn bounds(&self, slot: Rect) -> (r: Rect) {
        match self {
            AmyGUINode::AlignBox(node) => node.bounds(slot),
            AmyGUINode::AreaBox(node) => node.bounds(slot),
            AmyGUINode::Button(node) => node.bounds(slot),
            AmyGUINode::Label(node) => node.bounds(slot),
            AmyGUINode::PadBox(node) => node.bounds(slot),
            AmyGUINode::SizeBox(node) => node.bounds(slot),
            AmyGUINode::SplitBox(node) => node.bounds(slot),
            AmyGUINode::StackBox(node) => node.bounds(slot),
            AmyGUINode::UniformGrid(node) => node.bounds(slot),
            AmyGUINode::Empty(node) => node.bounds(slot),
        }
    }
}

impl<Color: Copy, TB, T: TickNode<TB>> TickNode<TB> for AmyGUINode<Color, T> {
    open spec fn spec_dibs_events(&self, slot: Rect, events: Events) -> Events {
        match self {
            AmyGUINode::AlignBox(node) => <AlignBoxNode<T> as TickNode<TB>>::spec_dibs_events(node, slot, events),
            AmyGUINode::AreaBox(node) => <AreaBoxNode<T> as TickNode<TB>>::spec_dibs_events(node, slot, events),
            AmyGUINode::Button(node) => <Button<Color, T> as TickNode<TB>>::spec_dibs_events(node, slot, events),
            AmyGUINode::Label(node) => <Label<Color> as TickNode<TB>>::spec_dibs_events(node, slot, events),
            AmyGUINode::PadBox(node) => <PadBoxNode<T> as TickNode<TB>>::spec_dibs_events(node, slot, events),
            AmyGUINode::SizeBox(node) => <SizeBoxNode<T> as TickNode<TB>>::spec_dibs_events(node, slot, events),
            AmyGUINode::SplitBox(node) => <SplitBoxNode<T> as TickNode<TB>>::spec_dibs_events(node, slot, events),
            AmyGUINode::StackBox(node) => <StackBoxNode<T> as TickNode<TB>>::spec_dibs_events(node, slot, events),
            AmyGUINode::UniformGrid(node) => <UniformGridNode<T> as TickNode<TB>>::spec_dibs_events(node, slot, events),
            AmyGUINode::Empty(node) => <Empty as TickNode<TB>>::spec_dibs_events(node, slot, events),
        }
    }

    open spec fn dibs_next(&self, slot: Rect, events: Events, next: &Self) -> bool {
        match (self, next) {
            (AmyGUINode::AlignBox(node), AmyGUINode::AlignBox(n)) => <AlignBoxNode<T> as TickNode<TB>>::dibs_next(node, slot, events, n),
            (AmyGUINode::AreaBox(node), AmyGUINode::AreaBox(n)) => <AreaBoxNode<T> as TickNode<TB>>::dibs_next(node, slot, events, n),
            (AmyGUINode::Button(node), AmyGUINode::Button(n)) => <Button<Color, T> as TickNode<TB>>::dibs_next(node, slot, events, n),
            (AmyGUINode::Label(node), AmyGUINode::Label(n)) => <Label<Color> as TickNode<TB>>::dibs_next(node, slot, events, n),
            (AmyGUINode::PadBox(node), AmyGUINode::PadBox(n)) => <PadBoxNode<T> as TickNode<TB>>::dibs_next(node, slot, events, n),
            (AmyGUINode::SizeBox(node), AmyGUINode::SizeBox(n)) => <SizeBoxNode<T> as TickNode<TB>>::dibs_next(node, slot, events, n),
            (AmyGUINode::SplitBox(node), AmyGUINode::SplitBox(n)) => <SplitBoxNode<T> as TickNode<TB>>::dibs_next(node, slot, events, n),
            (AmyGUINode::StackBox(node), AmyGUINode::StackBox(n)) => <StackBoxNode<T> as TickNode<TB>>::dibs_next(node, slot, events, n),
            (AmyGUINode::UniformGrid(node), AmyGUINode::UniformGrid(n)) => <UniformGridNode<T> as TickNode<TB>>::dibs_next(node, slot, events, n),
            (AmyGUINode::Empty(node), AmyGUINode::Empty(n)) => <Empty as TickNode<TB>>::dibs_next(node, slot, events, n),
            _ => false,
        }
    }

    open spec fn spec_active_events(&self, slot: Rect, events: Events) -> Events {
        match self {
            AmyGUINode::AlignBox(node) => <AlignBoxNode<T> as TickNode<TB>>::spec_active_events(node, slot, events),
            AmyGUINode::AreaBox(node) => <AreaBoxNode<T> as TickNode<TB>>::spec_active_events(node, slot, events),
            AmyGUINode::Button(node) => <Button<Color, T> as TickNode<TB>>::spec_active_events(node, slot, events),
            AmyGUINode::Label(node) => <Label<Color> as TickNode<TB>>::spec_active_events(node, slot, events),
            AmyGUINode::PadBox(node) => <PadBoxNode<T> as TickNode<TB>>::spec_active_events(node, slot, events),
            AmyGUINode::SizeBox(node) => <SizeBoxNode<T> as TickNode<TB>>::spec_active_events(node, slot, events),
            AmyGUINode::SplitBox(node) => <SplitBoxNode<T> as TickNode<TB>>::spec_active_events(node, slot, events),
            AmyGUINode::StackBox(node) => <StackBoxNode<T> as TickNode<TB>>::spec_active_events(node, slot, events),
            AmyGUINode::UniformGrid(node) => <UniformGridNode<T> as TickNode<TB>>::spec_active_events(node, slot, events),
            AmyGUINode::Empty(node) => <Empty as TickNode<TB>>::spec_active_events(node, slot, events),
        }
    }

    open spec fn active_next(&self, slot: Rect, events: Events, next: &Self) -> bool {
        match (self, next) {
            (AmyGUINode::AlignBox(node), AmyGUINode::AlignBox(n)) => <AlignBoxNode<T> as TickNode<TB>>::active_next(node, slot, events, n),
            (AmyGUINode::AreaBox(node), AmyGUINode::AreaBox(n)) => <AreaBoxNode<T> as TickNode<TB>>::active_next(node, slot, events, n),
            (AmyGUINode::Button(node), AmyGUINode::Button(n)) => <Button<Color, T> as TickNode<TB>>::active_next(node, slot, events, n),
            (AmyGUINode::Label(node), AmyGUINode::Label(n)) => <Label<Color> as TickNode<TB>>::active_next(node, slot, events, n),
            (AmyGUINode::PadBox(node), AmyGUINode::PadBox(n)) => <PadBoxNode<T> as TickNode<TB>>::active_next(node, slot, events, n),
            (AmyGUINode::SizeBox(node), AmyGUINode::SizeBox(n)) => <SizeBoxNode<T> as TickNode<TB>>::active_next(node, slot, events, n),
            (AmyGUINode::SplitBox(node), AmyGUINode::SplitBox(n)) => <SplitBoxNode<T> as TickNode<TB>>::active_next(node, slot, events, n),
            (AmyGUINode::StackBox(node), AmyGUINode::StackBox(n)) => <StackBoxNode<T> as TickNode<TB>>::active_next(node, slot, events, n),
            (AmyGUINode::UniformGrid(node), AmyGUINode::UniformGrid(n)) => <UniformGridNode<T> as TickNode<TB>>::active_next(node, slot, events, n),
            (AmyGUINode::Empty(node), AmyGUINode::Empty(n)) => <Empty as TickNode<TB>>::active_next(node, slot, events, n),
            _ => false,
        }
    }

    open spec fn inactive_next(&self, slot: Rect, events: Events, next: &Self) -> bool {
        match (self, next) {
            (AmyGUINode::AlignBox(node), AmyGUINode::AlignBox(n)) => <AlignBoxNode<T> as TickNode<TB>>::inactive_next(node, slot, events, n),
            (AmyGUINode::AreaBox(node), AmyGUINode::AreaBox(n)) => <AreaBoxNode<T> as TickNode<TB>>::inactive_next(node, slot, events, n),
            (AmyGUINode::Button(node), AmyGUINode::Button(n)) => <Button<Color, T> as TickNode<TB>>::inactive_next(node, slot, events, n),
            (AmyGUINode::Label(node), AmyGUINode::Label(n)) => <Label<Color> as TickNode<TB>>::inactive_next(node, slot, events, n),
            (AmyGUINode::PadBox(node), AmyGUINode::PadBox(n)) => <PadBoxNode<T> as TickNode<TB>>::inactive_next(node, slot, events, n),
            (AmyGUINode::SizeBox(node), AmyGUINode::SizeBox(n)) => <SizeBoxNode<T> as TickNode<TB>>::inactive_next(node, slot, events, n),
            (AmyGUINode::SplitBox(node), AmyGUINode::SplitBox(n)) => <SplitBoxNode<T> as TickNode<TB>>::inactive_next(node, slot, events, n),
            (AmyGUINode::StackBox(node), AmyGUINode::StackBox(n)) => <StackBoxNode<T> as TickNode<TB>>::inactive_next(node, slot, events, n),
            (AmyGUINode::UniformGrid(node), AmyGUINode::UniformGrid(n)) => <UniformGridNode<T> as TickNode<TB>>::inactive_next(node, slot, events, n),
            (AmyGUINode::Empty(node), AmyGUINode::Empty(n)) => <Empty as TickNode<TB>>::inactive_next(node, slot, events, n),
            _ => false,
        }
    }

    fn dibs_tick(&mut self, tb: &mut TB, slot: Rect, events: &mut Events) {
        match self {
            AmyGUINode::AlignBox(node) => node.dibs_tick(tb, slot, events),
            AmyGUINode::AreaBox(node) => node.dibs_tick(tb, slot, events),
            AmyGUINode::Button(node) => node.dibs_tick(tb, slot, events),
            AmyGUINode::Label(node) => node.dibs_tick(tb, slot, events),
            AmyGUINode::PadBox(node) => node.dibs_tick(tb, slot, events),
            AmyGUINode::SizeBox(node) => node.dibs_tick(tb, slot, events),
            AmyGUINode::SplitBox(node) => node.dibs_tick(tb, slot, events),
            AmyGUINode::StackBox(node) => node.dibs_tick(tb, slot, events),
            AmyGUINode::UniformGrid(node) => node.dibs_tick(tb, slot, events),
            AmyGUINode::Empty(node) => node.dibs_tick(tb, slot, events),
        }
    }

    fn active_tick(&mut self, tb: &mut TB, slot: Rect, events: &mut Events) {
        match self {
            AmyGUINode::AlignBox(node) => node.active_tick(tb, slot, events),
            AmyGUINode::AreaBox(node) => node.active_tick(tb, slot, events),
            AmyGUINode::Button(node) => node.active_tick(tb, slot, events),
            AmyGUINode::Label(node) => node.active_tick(tb, slot, events),
            AmyGUINode::PadBox(node) => node.active_tick(tb, slot, events),
            AmyGUINode::SizeBox(node) => node.active_tick(tb, slot, events),
            AmyGUINode::SplitBox(node) => node.active_tick(tb, slot, events),
            AmyGUINode::StackBox(node) => node.active_tick(tb, slot, events),
            AmyGUINode::UniformGrid(node) => node.active_tick(tb, slot, events),
            AmyGUINode::Empty(node) => node.active_tick(tb, slot, events),
        }
    }

    fn inactive_tick(&mut self, tb: &mut TB, slot: Rect, events: &Events) {
        match self {
            AmyGUINode::AlignBox(node) => node.inactive_tick(tb, slot, events),
            AmyGUINode::AreaBox(node) => node.inactive_tick(tb, slot, events),
            AmyGUINode::Button(node) => node.inactive_tick(tb, slot, events),
            AmyGUINode::Label(node) => node.inactive_tick(tb, slot, events),
            AmyGUINode::PadBox(node) => node.inactive_tick(tb, slot, events),
            AmyGUINode::SizeBox(node) => node.inactive_tick(tb, slot, events),
            AmyGUINode::SplitBox(node) => node.inactive_tick(tb, slot, events),
            AmyGUINode::StackBox(node) => node.inactive_tick(tb, slot, events),
            AmyGUINode::UniformGrid(node) => node.inactive_tick(tb, slot, events),
            AmyGUINode::Empty(node) => node.inactive_tick(tb, slot, events),
        }
    }
}

impl<Color: Copy, DB: DrawBackend<Color = Color>, T: DrawNode<DB>> DrawNode<DB> for AmyGUINode<
    Color,
    T,
> {
    open spec fn spec_draw(&self, slot: Rect) -> Seq<DrawCommand<Color>> {
        match self {
            AmyGUINode::AlignBox(node) => <AlignBoxNode<T> as DrawNode<DB>>::spec_draw(node, slot),
            AmyGUINode::AreaBox(node) => <AreaBoxNode<T> as DrawNode<DB>>::spec_draw(node, slot),
            AmyGUINode::Button(node) => <Button<Color, T> as DrawNode<DB>>::spec_draw(node, slot),
            AmyGUINode::Label(node) => <Label<Color> as DrawNode<DB>>::spec_draw(node, slot),
            AmyGUINode::PadBox(node) => <PadBoxNode<T> as DrawNode<DB>>::spec_draw(node, slot),
            AmyGUINode::SizeBox(node) => <SizeBoxNode<T> as DrawNode<DB>>::spec_draw(node, slot),
            AmyGUINode::SplitBox(node) => <SplitBoxNode<T> as DrawNode<DB>>::spec_draw(node, slot),
            AmyGUINode::StackBox(node) => <StackBoxNode<T> as DrawNode<DB>>::spec_draw(node, slot),
            AmyGUINode::UniformGrid(node) => <UniformGridNode<T> as DrawNode<DB>>::spec_draw(node, slot),
            AmyGUINode::Empty(node) => <Empty as DrawNode<DB>>::spec_draw(node, slot),
        }
    }

    fn draw(&self, d: &mut DB, slot: Rect) {
        match self {
            AmyGUINode::AlignBox(node) => node.draw(d, slot),
            AmyGUINode::AreaBox(node) => node.draw(d, slot),
            AmyGUINode::Button(node) => node.draw(d, slot),
            AmyGUINode::Label(node) => node.draw(d, slot),
            AmyGUINode::PadBox(node) => node.draw(d, slot),
            AmyGUINode::SizeBox(node) => node.draw(d, slot),
            AmyGUINode::SplitBox(node) => node.draw(d, slot),
            AmyGUINode::StackBox(node) => node.draw(d, slot),
            AmyGUINode::UniformGrid(node) => node.draw(d, slot),
            AmyGUINode::Empty(node) => node.draw(d, slot),
        }
    }
}

} // verus!
