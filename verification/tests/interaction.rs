use amygui::button::{Button, ButtonData, ButtonState, ButtonStyle};
use amygui::events::{Event, Events, InputBackend, MouseEvent};
use amygui::geometry::{Point, Rect};
use amygui::label::{Label, LabelStyle};
use amygui::geometry::MAX_COORD;
use amygui::node::{DrawCommand, DrawList, DrawNode, Empty, Node, ParentNode, TickNode, Visibility};
use amygui::node::Direction;
use amygui::overlay_box::OverlayBox;
use amygui::size_box::SizeBoxNode;
use amygui::stack_box::StackBoxNode;
use amygui::uniform_grid::UniformGridNode;
use amygui::viewport::Viewport;
use amygui::AmyGUINode;

const STYLE: ButtonStyle<u32> = ButtonStyle {
    disabled_color: 1,
    normal_color: 2,
    hover_color: 3,
    press_color: 4,
};

fn rect(x_min: i64, y_min: i64, x_max: i64, y_max: i64) -> Rect {
    Rect {
        x_min,
        y_min,
        x_max,
        y_max,
    }
}

fn frame(x: i64, y: i64, pressed: bool, released: bool) -> Events {
    Events::new(Point { x, y }, pressed, Point { x: 0, y: 0 }, released)
}

#[test]
fn events_snapshot_carries_the_pointer() {
    let ev = frame(5, 6, true, false);
    assert!(ev.mouse_event.is_some());
    assert!(!ev.mouse_event.is_none());
    let e = ev.mouse_event.event.unwrap();
    assert_eq!(e.position, Point { x: 5, y: 6 });
    assert!(e.left_mouse_press.is_some());
    assert!(!ev.left_mouse_release);
}

#[test]
fn event_take_empties_the_event() {
    let mut ev: Event<u32> = Event::new(Some(7));
    assert_eq!(ev.take(), Some(7));
    assert!(ev.is_none());
    assert_eq!(ev.take(), None);
}

#[test]
fn event_take_if_consults_the_predicate() {
    let mut ev: Event<u32> = Event::new(Some(7));
    assert_eq!(ev.take_if(|v: &u32| *v > 10), None);
    assert!(ev.is_some());
    assert_eq!(ev.take_if(|v: &u32| *v > 5), Some(7));
    assert!(ev.is_none());
}

#[test]
fn dibs_single_consumption() {
    // a frame snapshot with one pointer event: the first exclusive claim
    // succeeds and leaves nothing for a second claimant
    let mut ev = frame(5, 6, false, false);
    let claimed = ev.mouse_event.take_with_dibs();
    assert_eq!(claimed.position, Point { x: 5, y: 6 });
    assert!(ev.mouse_event.is_none());
    // the exclusive-claim contract can no longer be met; the conditional
    // form reports that nothing was there to claim
    assert!(ev.mouse_event.take_with_dibs_if(|_e: &MouseEvent| true).is_none());
}

#[test]
fn take_if_overlapping_claims_only_inside() {
    let mut ev = frame(5, 6, false, false);
    assert!(ev.mouse_event.is_some_and_overlapping(rect(0, 0, 10, 10)));
    assert!(!ev.mouse_event.is_some_and_overlapping(rect(6, 0, 10, 10)));
    assert!(ev.mouse_event.take_if_overlapping(rect(6, 0, 10, 10)).is_none());
    assert!(ev.mouse_event.is_some());
    let taken = ev.mouse_event.take_if_overlapping(rect(0, 0, 10, 10));
    assert!(taken.is_some());
    assert!(ev.mouse_event.is_none());
}

struct ScriptedInput {
    position: Point,
    pressed: bool,
    released: bool,
}

impl InputBackend for ScriptedInput {
    fn mouse_position(&mut self) -> Point {
        self.position
    }

    fn is_m1_pressed(&mut self) -> bool {
        self.pressed
    }

    fn is_m1_released(&mut self) -> bool {
        self.released
    }

    fn mouse_wheel_move(&mut self) -> Point {
        Point { x: 0, y: 0 }
    }
}

#[test]
fn events_check_polls_the_backend() {
    let mut input = ScriptedInput {
        position: Point { x: 8, y: 9 },
        pressed: true,
        released: false,
    };
    let ev = Events::check(&mut input);
    let e = ev.mouse_event.event.unwrap();
    assert_eq!(e.position, Point { x: 8, y: 9 });
    assert!(e.left_mouse_press.is_some());
    assert!(!ev.left_mouse_release);
}

fn button() -> Button<u32, Empty> {
    Button::new(ButtonData::new(STYLE), Empty)
}

#[test]
fn button_state_machine_scenario() {
    let slot = rect(0, 0, 100, 100);
    let mut b = button();
    assert_eq!(b.data.state(), ButtonState::Normal);
    assert_eq!(b.data.visibility, Visibility::Occlude);

    // pointer moves over its bounds with no press
    let mut ev = frame(50, 50, false, false);
    b.active_tick(&mut (), slot, &mut ev);
    assert_eq!(b.data.state(), ButtonState::Hover);

    // a press sub-event arrives while claimed
    let mut ev = frame(50, 50, true, false);
    b.active_tick(&mut (), slot, &mut ev);
    assert_eq!(b.data.state(), ButtonState::Press);

    // release next frame while still overlapping: back to hover
    let mut ev = frame(50, 50, false, true);
    b.active_tick(&mut (), slot, &mut ev);
    assert_eq!(b.data.state(), ButtonState::Hover);

    // press again, then release while no longer overlapping: back to normal
    let mut ev = frame(50, 50, true, false);
    b.active_tick(&mut (), slot, &mut ev);
    assert_eq!(b.data.state(), ButtonState::Press);
    let mut ev = frame(500, 500, false, true);
    b.active_tick(&mut (), slot, &mut ev);
    assert_eq!(b.data.state(), ButtonState::Normal);
}

#[test]
fn button_inactive_tick_resets_to_normal() {
    let slot = rect(0, 0, 100, 100);
    let mut b = button();
    let mut ev = frame(50, 50, false, false);
    b.active_tick(&mut (), slot, &mut ev);
    assert_eq!(b.data.state(), ButtonState::Hover);
    let ev = frame(50, 50, false, false);
    b.inactive_tick(&mut (), slot, &ev);
    assert_eq!(b.data.state(), ButtonState::Normal);
}

#[test]
fn disabled_button_never_transitions() {
    let slot = rect(0, 0, 100, 100);
    let mut b = button();
    b.data.state = ButtonState::Disabled;
    let mut ev = frame(50, 50, true, false);
    b.active_tick(&mut (), slot, &mut ev);
    assert_eq!(b.data.state(), ButtonState::Disabled);
    // a disabled button does not claim the pointer event either
    assert!(ev.mouse_event.is_some());
    let mut ev = frame(50, 50, false, true);
    b.active_tick(&mut (), slot, &mut ev);
    assert_eq!(b.data.state(), ButtonState::Disabled);
    let ev = frame(50, 50, false, false);
    b.inactive_tick(&mut (), slot, &ev);
    assert_eq!(b.data.state(), ButtonState::Disabled);
}

#[test]
fn button_claims_the_pointer_event() {
    let slot = rect(0, 0, 100, 100);
    let mut b = button();
    let mut ev = frame(50, 50, false, false);
    b.active_tick(&mut (), slot, &mut ev);
    assert!(ev.mouse_event.is_none());
}

#[test]
fn button_color_follows_state() {
    let mut d = ButtonData::new(STYLE);
    assert_eq!(*d.color(), 2);
    d.state = ButtonState::Hover;
    assert_eq!(*d.color(), 3);
    d.state = ButtonState::Press;
    assert_eq!(*d.color(), 4);
    d.state = ButtonState::Disabled;
    assert_eq!(*d.color(), 1);
}

#[test]
fn draw_tick_order_symmetry_scenario() {
    // three fully overlapping buttons composed in the order a, b, c
    let slot = rect(0, 0, 100, 100);
    let mut overlay = OverlayBox::with_content(vec![button(), button(), button()]);

    // the tick pass visits c first: it alone claims the pointer event
    let mut ev = frame(50, 50, true, false);
    overlay.active_tick(&mut (), slot, &mut ev);
    assert_eq!(overlay.content[2].data.state(), ButtonState::Press);
    assert_eq!(overlay.content[1].data.state(), ButtonState::Normal);
    assert_eq!(overlay.content[0].data.state(), ButtonState::Normal);

    // the draw pass visits a, b, c in composition order, so c paints last
    // (on top); give each a distinct state so the colors tell them apart
    overlay.content[0].data.state = ButtonState::Normal;
    overlay.content[1].data.state = ButtonState::Hover;
    overlay.content[2].data.state = ButtonState::Press;
    let mut d: DrawList<u32> = DrawList::new();
    overlay.draw(&mut d, slot);
    let colors: Vec<u32> = d
        .commands
        .iter()
        .map(|c| match c {
            DrawCommand::FillRect { color, .. } => *color,
            DrawCommand::Text { color, .. } => *color,
        })
        .collect();
    assert_eq!(colors, vec![2, 3, 4]);
}

#[test]
fn overlay_size_is_the_largest_child() {
    let overlay = OverlayBox::with_content(vec![
        SizeBoxNode::new(10, 30, Empty),
        SizeBoxNode::new(20, 5, Empty),
    ]);
    let (w, h) = overlay.size_range();
    assert_eq!((w.min, w.max), (20, Some(20)));
    assert_eq!((h.min, h.max), (30, Some(30)));
}

#[test]
fn label_draws_its_text_at_the_slot_origin() {
    let label: Label<u32> = Label::new(
        LabelStyle {
            font_size: 14,
            color: 9,
        },
        String::from("hello"),
    );
    let mut d: DrawList<u32> = DrawList::new();
    label.draw(&mut d, rect(7, 8, 100, 100));
    assert_eq!(d.commands.len(), 1);
    match &d.commands[0] {
        DrawCommand::Text {
            text,
            top_left,
            font_size,
            color,
        } => {
            assert_eq!(text.as_str(), "hello");
            assert_eq!(*top_left, Point { x: 7, y: 8 });
            assert_eq!(*font_size, 14);
            assert_eq!(*color, 9);
        }
        _ => panic!("expected a text command"),
    }
}

#[test]
fn button_draws_its_rect_then_its_content() {
    let slot = rect(0, 0, 50, 40);
    let b: Button<u32, Label<u32>> = Button::new(
        ButtonData::new(STYLE),
        Label::new(
            LabelStyle {
                font_size: 10,
                color: 8,
            },
            String::from("ok"),
        ),
    );
    let mut d: DrawList<u32> = DrawList::new();
    b.draw(&mut d, slot);
    assert_eq!(d.commands.len(), 2);
    match &d.commands[0] {
        DrawCommand::FillRect { rect: r, color } => {
            assert_eq!(*r, slot);
            assert_eq!(*color, 2);
        }
        _ => panic!("expected a fill command first"),
    }
    match &d.commands[1] {
        DrawCommand::Text { text, .. } => assert_eq!(text.as_str(), "ok"),
        _ => panic!("expected the label's text after the fill"),
    }
}

#[test]
fn viewport_remaps_pointer_coordinates_for_its_content() {
    // zoom 2, no pan: the content sees doubled coordinates
    let mut vp = Viewport {
        pan: Point { x: 0, y: 0 },
        zoom: 2,
        width: 200,
        height: 200,
        content: button(),
    };
    let slot = rect(0, 0, 200, 200);
    // the raw pointer sits at (30, 140): inside the viewport, and the
    // content (spanning its full 200x200 bounds) sees it at (60, 280),
    // which is outside the content's rectangle
    let mut ev = frame(30, 140, false, false);
    vp.active_tick(&mut (), slot, &mut ev);
    assert_eq!(vp.content.data.state(), ButtonState::Normal);
    // the scoped transform put the original position back
    let e = ev.mouse_event.event.unwrap();
    assert_eq!(e.position, Point { x: 30, y: 140 });

    // at (30, 40) the content sees (60, 80), inside its rectangle: it
    // claims the event and hovers
    let mut ev = frame(30, 40, false, false);
    vp.active_tick(&mut (), slot, &mut ev);
    assert_eq!(vp.content.data.state(), ButtonState::Hover);
    assert!(ev.mouse_event.is_none());
}

#[test]
fn viewport_reports_its_fixed_size_and_draws_nothing() {
    let vp = Viewport {
        pan: Point { x: 0, y: 0 },
        zoom: 1,
        width: 120,
        height: 90,
        content: Empty,
    };
    let (w, h) = vp.size_range();
    assert_eq!((w.min, w.max), (120, Some(120)));
    assert_eq!((h.min, h.max), (90, Some(90)));
    let mut d: DrawList<u32> = DrawList::new();
    vp.draw(&mut d, rect(0, 0, 500, 500));
    assert!(d.commands.is_empty());
}

#[test]
fn union_node_dispatches_on_its_tag() {
    let node: AmyGUINode<u32, Empty> = AmyGUINode::SizeBox(SizeBoxNode::new(20, 10, Empty));
    let (w, h) = node.size_range();
    assert_eq!((w.min, w.max), (20, Some(20)));
    assert_eq!((h.min, h.max), (10, Some(10)));
    let mut ev = frame(5, 5, false, false);
    let mut node: AmyGUINode<u32, Empty> = AmyGUINode::Button(button());
    node.active_tick(&mut (), rect(0, 0, 100, 100), &mut ev);
    match &node {
        AmyGUINode::Button(b) => assert_eq!(b.data.state(), ButtonState::Hover),
        _ => panic!("the tag cannot change"),
    }
    let empty: AmyGUINode<u32, Empty> = AmyGUINode::Empty(Empty);
    let mut d: DrawList<u32> = DrawList::new();
    empty.draw(&mut d, rect(0, 0, 10, 10));
    assert!(d.commands.is_empty());
}

#[test]
fn parent_node_hands_out_its_content() {
    let mut node = amygui::pad_box::PadBoxNode::new(5, button());
    assert_eq!(node.content().data.state(), ButtonState::Normal);
    node.content_mut().data.state = ButtonState::Disabled;
    assert_eq!(node.content().data.state(), ButtonState::Disabled);
}

#[test]
fn events_clamp_wild_pointer_positions() {
    let ev = frame(i64::MAX, i64::MIN, false, false);
    let e = ev.mouse_event.event.unwrap();
    assert_eq!(e.position, Point { x: MAX_COORD, y: -MAX_COORD });
}

#[test]
fn take_with_dibs_if_claims_on_a_true_predicate() {
    let mut ev: Event<u32> = Event::new(Some(7));
    assert_eq!(ev.take_with_dibs_if(|v: &u32| *v == 7), Some(7));
    assert!(ev.is_none());
}

#[test]
fn dibs_pass_traverses_without_claiming() {
    let slot = rect(0, 0, 100, 100);
    let mut overlay = OverlayBox::with_content(vec![button(), button()]);
    let mut ev = frame(50, 50, true, false);
    overlay.dibs_tick(&mut (), slot, &mut ev);
    // no engine node holds state-based rights, so the snapshot survives
    assert!(ev.mouse_event.is_some());
    assert_eq!(overlay.content[0].data.state(), ButtonState::Normal);
    assert_eq!(overlay.content[1].data.state(), ButtonState::Normal);
}

#[test]
fn stack_routes_the_pointer_to_the_child_under_it() {
    // two 40x40 buttons side by side with a 10 gap
    let mut stack = StackBoxNode::with_content(
        Direction::Row,
        10,
        vec![
            SizeBoxNode::new(40, 40, button()),
            SizeBoxNode::new(40, 40, button()),
        ],
    );
    let slot = rect(0, 0, 200, 40);
    // over the second child's rectangle, which starts at x = 50
    let mut ev = frame(60, 20, false, false);
    stack.active_tick(&mut (), slot, &mut ev);
    assert_eq!(stack.content[0].content.data.state(), ButtonState::Normal);
    assert_eq!(stack.content[1].content.data.state(), ButtonState::Hover);
    // in the gap, neither child takes the pointer
    let mut ev = frame(45, 20, false, false);
    stack.active_tick(&mut (), slot, &mut ev);
    assert_eq!(stack.content[0].content.data.state(), ButtonState::Normal);
    assert_eq!(stack.content[1].content.data.state(), ButtonState::Normal);
    assert!(ev.mouse_event.is_some());
}

#[test]
fn grid_routes_a_press_to_the_cell_under_it() {
    let mut grid = UniformGridNode::with_content(
        24,
        24,
        3,
        3,
        2,
        vec![button(), button(), button(), button()],
    );
    let slot = rect(0, 0, 100, 100);
    // the center of the cell at row 1, column 1
    let mut ev = frame(39, 39, true, false);
    grid.active_tick(&mut (), slot, &mut ev);
    assert_eq!(grid.content[3].data.state(), ButtonState::Press);
    assert_eq!(grid.content[0].data.state(), ButtonState::Normal);
    assert_eq!(grid.content[1].data.state(), ButtonState::Normal);
    assert_eq!(grid.content[2].data.state(), ButtonState::Normal);
    // the same point maps back to that child's index
    assert_eq!(grid.position(Point { x: 39, y: 39 }), Some(3));
}
