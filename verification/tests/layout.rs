use amygui::align_box::{Align, AlignBoxNode};
use amygui::area_box::{AreaBoxLayout, AreaBoxNode};
use amygui::geometry::{Point, Rect, SizeRange};
use amygui::node::{Direction, Empty, Node};
use amygui::pad_box::PadBoxNode;
use amygui::region::Region;
use amygui::size_box::SizeBoxNode;
use amygui::split_box::SplitBoxNode;
use amygui::stack_box::StackBoxNode;
use amygui::uniform_grid::UniformGridNode;

fn slot(x_min: i64, y_min: i64, x_max: i64, y_max: i64) -> Rect {
    Rect {
        x_min,
        y_min,
        x_max,
        y_max,
    }
}

#[test]
fn rect_contains_is_half_open() {
    let r = slot(0, 0, 10, 10);
    assert!(r.contains(Point { x: 0, y: 0 }));
    assert!(r.contains(Point { x: 9, y: 9 }));
    assert!(!r.contains(Point { x: 10, y: 0 }));
    assert!(!r.contains(Point { x: 0, y: 10 }));
    assert!(!r.contains(Point { x: -1, y: 5 }));
    assert_eq!(r.width(), 10);
    assert_eq!(r.height(), 10);
    assert_eq!(r.min_point(), Point { x: 0, y: 0 });
}

#[test]
fn empty_node_has_no_opinion() {
    let (w, h) = Empty.size_range();
    assert_eq!(w.min, 0);
    assert_eq!(w.max, None);
    assert_eq!(h.min, 0);
    assert_eq!(h.max, None);
    // the default bounds rule fills the whole slot for an unbounded node
    assert_eq!(Empty.bounds(slot(3, 4, 30, 40)), slot(3, 4, 30, 40));
}

#[test]
fn size_box_reports_exact_size_and_clips_the_slot() {
    let node = SizeBoxNode::new(20, 10, Empty);
    let (w, h) = node.size_range();
    assert_eq!((w.min, w.max), (20, Some(20)));
    assert_eq!((h.min, h.max), (10, Some(10)));
    assert_eq!(node.bounds(slot(5, 5, 100, 100)), slot(5, 5, 25, 15));
}

#[test]
fn pad_box_round_trip_on_sizes_and_child_rect() {
    let node = PadBoxNode::new_cw(1, 2, 3, 4, SizeBoxNode::new(20, 10, Empty));
    let (w, h) = node.size_range();
    // child minimum plus the insets on each axis
    assert_eq!((w.min, w.max), (26, Some(26)));
    assert_eq!((h.min, h.max), (14, Some(14)));
    // the child rectangle is the slot less the insets
    let inner = node.child_rect(slot(0, 0, 40, 40));
    assert_eq!(inner, slot(4, 1, 38, 37));
    assert_eq!(inner.width(), 40 - (4 + 2));
    assert_eq!(inner.height(), 40 - (1 + 3));
}

#[test]
fn pad_box_uniform_and_axis_constructors() {
    let node = PadBoxNode::new(5, Empty);
    assert_eq!(node.layout.pad_left, 5);
    assert_eq!(node.layout.pad_top, 5);
    assert_eq!(node.layout.pad_right, 5);
    assert_eq!(node.layout.pad_bottom, 5);
    let node = PadBoxNode::new_vh(2, 7, Empty);
    assert_eq!(
        (
            node.layout.pad_left,
            node.layout.pad_top,
            node.layout.pad_right,
            node.layout.pad_bottom
        ),
        (2, 7, 2, 7)
    );
    let node = PadBoxNode::new_thb(1, 2, 3, Empty);
    assert_eq!(
        (
            node.layout.pad_left,
            node.layout.pad_top,
            node.layout.pad_right,
            node.layout.pad_bottom
        ),
        (2, 1, 2, 3)
    );
}

#[test]
fn align_box_coefficients_on_a_fixed_child() {
    let child = || SizeBoxNode::new(10, 10, Empty);
    let s = slot(0, 0, 40, 30);
    let start = AlignBoxNode::new(Align::Start, Align::Start, child());
    assert_eq!(start.child_rect(s), slot(0, 0, 10, 10));
    let center = AlignBoxNode::new(Align::Center, Align::Center, child());
    assert_eq!(center.child_rect(s), slot(15, 10, 25, 20));
    let end = AlignBoxNode::new(Align::End, Align::End, child());
    assert_eq!(end.child_rect(s), slot(30, 20, 40, 30));
    // stretch fills the slot regardless of the child's own maximum
    let stretch = AlignBoxNode::new(Align::Stretch, Align::Stretch, child());
    assert_eq!(stretch.child_rect(s), s);
}

#[test]
fn align_box_forwards_min_and_gates_max_on_stretch() {
    let node = AlignBoxNode::new(Align::Start, Align::Stretch, SizeBoxNode::new(10, 10, Empty));
    let (w, h) = node.size_range();
    assert_eq!((w.min, w.max), (10, Some(10)));
    assert_eq!((h.min, h.max), (10, None));
}

#[test]
fn area_box_clamps_the_child_range() {
    let node = AreaBoxNode::new(
        AreaBoxLayout {
            min_width: 15,
            max_width: 30,
            min_height: 2,
            max_height: 8,
        },
        SizeBoxNode::new(10, 10, Empty),
    );
    let (w, h) = node.size_range();
    // the child's 10 is clamped up to 15 and down to 8 respectively
    assert_eq!((w.min, w.max), (15, Some(15)));
    assert_eq!((h.min, h.max), (8, Some(8)));
}

#[test]
fn region_reports_and_returns_its_stored_rectangle() {
    let node = Region::new(slot(10, 10, 30, 25), Empty);
    let (w, h) = node.size_range();
    assert_eq!((w.min, w.max), (20, Some(20)));
    assert_eq!((h.min, h.max), (15, Some(15)));
    // within a slot that contains it, the stored rectangle comes back as is
    assert_eq!(node.bounds(slot(0, 0, 100, 100)), slot(10, 10, 30, 25));
    // a slot that does not contain it clips it
    assert_eq!(node.bounds(slot(0, 0, 20, 20)), slot(10, 10, 20, 20));
}

#[test]
fn split_box_sums_along_and_joins_across() {
    let node = SplitBoxNode::new(
        Direction::Row,
        50,
        SizeBoxNode::new(10, 5, Empty),
        SizeBoxNode::new(20, 9, Empty),
    );
    let (w, h) = node.size_range();
    assert_eq!((w.min, w.max), (30, Some(30)));
    assert_eq!((h.min, h.max), (9, Some(9)));
}

#[test]
fn split_box_splits_the_slot_at_the_configured_coordinate() {
    let node = SplitBoxNode::new(
        Direction::Row,
        50,
        SizeBoxNode::new(10, 5, Empty),
        SizeBoxNode::new(20, 9, Empty),
    );
    let rects = node.child_rects(slot(0, 0, 100, 50));
    assert_eq!(rects.len(), 2);
    assert_eq!(rects[0], slot(0, 0, 50, 50));
    assert_eq!(rects[1], slot(50, 0, 100, 50));
}

#[test]
fn split_box_keeps_each_side_at_its_minimum() {
    // the configured split would leave the second child only 10 of its 20
    let node = SplitBoxNode::new(
        Direction::Row,
        90,
        SizeBoxNode::new(10, 5, Empty),
        SizeBoxNode::new(20, 9, Empty),
    );
    let rects = node.child_rects(slot(0, 0, 100, 50));
    assert_eq!(rects[0], slot(0, 0, 80, 50));
    assert_eq!(rects[1], slot(80, 0, 100, 50));
}

#[test]
fn split_box_column_direction() {
    let node = SplitBoxNode::new(
        Direction::Column,
        30,
        SizeBoxNode::new(10, 5, Empty),
        SizeBoxNode::new(20, 9, Empty),
    );
    let (w, h) = node.size_range();
    assert_eq!((w.min, w.max), (20, Some(20)));
    assert_eq!((h.min, h.max), (14, Some(14)));
    let rects = node.child_rects(slot(0, 0, 100, 50));
    assert_eq!(rects[0], slot(0, 0, 100, 30));
    assert_eq!(rects[1], slot(0, 30, 100, 50));
}

#[test]
fn stack_box_sums_minimums_with_gaps() {
    let node = StackBoxNode::with_content(
        Direction::Row,
        4,
        vec![
            SizeBoxNode::new(10, 5, Empty),
            SizeBoxNode::new(20, 9, Empty),
            SizeBoxNode::new(30, 7, Empty),
        ],
    );
    let (w, h) = node.size_range();
    // 10 + 4 + 20 + 4 + 30, two gaps for three children
    assert_eq!((w.min, w.max), (68, Some(68)));
    assert_eq!((h.min, h.max), (9, Some(9)));
}

#[test]
fn stack_box_places_children_sequentially() {
    let node = StackBoxNode::with_content(
        Direction::Row,
        4,
        vec![
            SizeBoxNode::new(10, 5, Empty),
            SizeBoxNode::new(20, 9, Empty),
            SizeBoxNode::new(30, 7, Empty),
        ],
    );
    let rects = node.child_rects(slot(0, 0, 100, 50));
    assert_eq!(rects[0], slot(0, 0, 10, 50));
    assert_eq!(rects[1], slot(14, 0, 34, 50));
    assert_eq!(rects[2], slot(38, 0, 68, 50));
}

#[test]
fn stack_box_column_with_unbounded_child() {
    // an absent child has no opinion, so the summed maximum is unbounded
    let node = StackBoxNode::with_content(
        Direction::Column,
        2,
        vec![Some(SizeBoxNode::new(10, 5, Empty)), None],
    );
    let (w, h) = node.size_range();
    assert_eq!((w.min, w.max), (10, None));
    assert_eq!((h.min, h.max), (7, None));
}

#[test]
fn uniform_grid_overall_size() {
    let node: UniformGridNode<Empty> =
        UniformGridNode::with_content(24, 24, 3, 3, 2, vec![Empty, Empty, Empty, Empty, Empty]);
    let (w, h) = node.size_range();
    // two columns wide, three rows tall (the last row half filled)
    assert_eq!((w.min, w.max), (51, Some(51)));
    assert_eq!((h.min, h.max), (78, Some(78)));
}

#[test]
fn uniform_grid_cell_rects() {
    let node: UniformGridNode<Empty> =
        UniformGridNode::with_content(24, 24, 3, 3, 2, vec![Empty, Empty, Empty]);
    let rects = node.child_rects(slot(10, 20, 200, 200));
    assert_eq!(rects[0], slot(10, 20, 34, 44));
    assert_eq!(rects[1], slot(37, 20, 61, 44));
    assert_eq!(rects[2], slot(10, 47, 34, 71));
}

#[test]
fn uniform_grid_position_finds_cell_centers() {
    let node: UniformGridNode<Empty> =
        UniformGridNode::with_content(24, 24, 3, 3, 2, vec![Empty, Empty, Empty, Empty, Empty]);
    // center of each cell, relative to the grid origin
    assert_eq!(node.position(Point { x: 12, y: 12 }), Some(0));
    assert_eq!(node.position(Point { x: 39, y: 12 }), Some(1));
    assert_eq!(node.position(Point { x: 12, y: 39 }), Some(2));
    assert_eq!(node.position(Point { x: 39, y: 39 }), Some(3));
    assert_eq!(node.position(Point { x: 12, y: 66 }), Some(4));
    // the cell to the right of the last child holds nothing
    assert_eq!(node.position(Point { x: 39, y: 66 }), None);
}

#[test]
fn uniform_grid_position_rejects_gap_and_outside_points() {
    let node: UniformGridNode<Empty> =
        UniformGridNode::with_content(24, 24, 3, 3, 2, vec![Empty, Empty, Empty, Empty]);
    // strictly inside the column gap between cell 0 and cell 1
    assert_eq!(node.position(Point { x: 25, y: 12 }), None);
    assert_eq!(node.position(Point { x: 26, y: 12 }), None);
    // strictly inside the row gap
    assert_eq!(node.position(Point { x: 12, y: 25 }), None);
    // negative coordinates are outside
    assert_eq!(node.position(Point { x: -1, y: 12 }), None);
    assert_eq!(node.position(Point { x: 12, y: -3 }), None);
    // past the configured columns
    assert_eq!(node.position(Point { x: 60, y: 12 }), None);
}

#[test]
fn size_range_constructors() {
    let r = SizeRange::exact(7);
    assert_eq!((r.min, r.max), (7, Some(7)));
    let u = SizeRange::unbounded();
    assert_eq!((u.min, u.max), (0, None));
}

#[test]
fn empty_collections_take_no_space() {
    let overlay: amygui::overlay_box::OverlayBox<Empty> = amygui::overlay_box::OverlayBox::new();
    let (w, h) = overlay.size_range();
    assert_eq!((w.min, w.max), (0, Some(0)));
    assert_eq!((h.min, h.max), (0, Some(0)));

    let stack: StackBoxNode<Empty> = StackBoxNode::new(Direction::Row, 4);
    let (w, h) = stack.size_range();
    assert_eq!((w.min, w.max), (0, Some(0)));
    assert_eq!((h.min, h.max), (0, Some(0)));

    let grid: UniformGridNode<Empty> = UniformGridNode::new(24, 24, 3, 3, 2);
    let (w, h) = grid.size_range();
    assert_eq!((w.min, w.max), (0, Some(0)));
    assert_eq!((h.min, h.max), (0, Some(0)));
    // a pointer can land in no cell of an empty grid
    assert_eq!(grid.position(Point { x: 12, y: 12 }), None);
}
