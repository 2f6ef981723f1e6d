use facecam::bubble::{BubbleView, PressAction};
use facecam::grip::{Grip, PointerReading};
use facecam::ring::RingLevel;

fn reading(within_circle: bool, beyond_halo: bool, off_diagonal: bool, right: bool, upper: bool) -> PointerReading {
    PointerReading { within_circle, beyond_halo, off_diagonal, right, upper }
}

fn inside() -> PointerReading {
    reading(true, false, false, true, true)
}

fn corner(right: bool, upper: bool) -> PointerReading {
    reading(false, false, false, right, upper)
}

fn far_away() -> PointerReading {
    reading(false, true, false, true, true)
}

fn beside_the_diagonal() -> PointerReading {
    reading(false, false, true, false, true)
}

#[test]
fn grip_inside_the_circle_moves() {
    assert_eq!(BubbleView::<u32>::grip_at_pointer(Some(inside())), Grip::Move);
    assert_eq!(BubbleView::<u32>::grip_at_pointer(Some(reading(true, false, true, false, false))), Grip::Move);
}

#[test]
fn grip_in_each_corner_gap_resizes_from_that_corner() {
    for right in [false, true] {
        for upper in [false, true] {
            assert_eq!(BubbleView::<u32>::grip_at_pointer(Some(corner(right, upper))), Grip::Corner(right, upper));
        }
    }
}

#[test]
fn grip_beyond_the_halo_or_off_the_diagonal_is_inert() {
    assert_eq!(BubbleView::<u32>::grip_at_pointer(Some(far_away())), Grip::Inert);
    assert_eq!(BubbleView::<u32>::grip_at_pointer(Some(beside_the_diagonal())), Grip::Inert);
    assert_eq!(BubbleView::<u32>::grip_at_pointer(Some(reading(false, true, true, true, false))), Grip::Inert);
}

#[test]
fn grip_without_a_window_is_inert() {
    assert_eq!(BubbleView::<u32>::grip_at_pointer(None), Grip::Inert);
}

#[test]
fn a_new_bubble_is_at_rest() {
    let view: BubbleView<u32> = BubbleView::new();
    assert_eq!(view.update_ring_feedback(), RingLevel::Hidden);
    assert!(view.mouse_dragged().is_none());
    assert_eq!(view.mouse_entered(), RingLevel::Hidden);
}

#[test]
fn hovering_shows_a_faint_halo_over_what_can_be_grabbed() {
    let mut view: BubbleView<u32> = BubbleView::new();
    assert_eq!(view.mouse_moved(Some(inside())), RingLevel::Faint);
    assert_eq!(view.mouse_moved(Some(corner(false, true))), RingLevel::Faint);
    assert_eq!(view.update_ring_feedback(), RingLevel::Faint);
    assert_eq!(view.mouse_moved(Some(far_away())), RingLevel::Hidden);
    assert_eq!(view.mouse_moved(Some(inside())), RingLevel::Faint);
    assert_eq!(view.mouse_moved(None), RingLevel::Hidden);
}

#[test]
fn leaving_the_view_hides_the_ring() {
    let mut view: BubbleView<u32> = BubbleView::new();
    assert_eq!(view.mouse_moved(Some(inside())), RingLevel::Faint);
    assert_eq!(view.mouse_exited(), RingLevel::Hidden);
    assert_eq!(view.mouse_entered(), RingLevel::Hidden);
}

#[test]
fn pressing_the_circle_drags_the_window_and_changes_nothing() {
    let mut view: BubbleView<u32> = BubbleView::new();
    assert_eq!(view.mouse_moved(Some(inside())), RingLevel::Faint);
    assert_eq!(view.mouse_down(Some(inside()), 5), PressAction::DragWindow);
    assert!(view.mouse_dragged().is_none());
    assert_eq!(view.update_ring_feedback(), RingLevel::Faint);
}

#[test]
fn pressing_nowhere_is_ignored() {
    let mut view: BubbleView<u32> = BubbleView::new();
    assert_eq!(view.mouse_down(Some(far_away()), 1), PressAction::Ignore);
    assert_eq!(view.mouse_down(Some(beside_the_diagonal()), 2), PressAction::Ignore);
    assert_eq!(view.mouse_down(None, 3), PressAction::Ignore);
    assert!(view.mouse_dragged().is_none());
    assert_eq!(view.update_ring_feedback(), RingLevel::Hidden);
}

#[test]
fn pressing_a_corner_starts_a_resize_with_a_solid_ring() {
    let mut view: BubbleView<u32> = BubbleView::new();
    assert_eq!(view.mouse_down(Some(corner(true, false)), 42), PressAction::BeginResize(RingLevel::Solid));
    let plan = view.mouse_dragged().expect("a resize is in progress");
    assert!(plan.grow_rightward);
    assert!(!plan.grow_upward);
    assert!(plan.keep_left_edge);
    assert!(!plan.keep_bottom_edge);
    assert_eq!(plan.start, 42);
    assert_eq!(view.update_ring_feedback(), RingLevel::Solid);
}

#[test]
fn each_corner_keeps_its_opposite_edges() {
    for right in [false, true] {
        for upper in [false, true] {
            let mut view: BubbleView<(i32, i32)> = BubbleView::new();
            view.mouse_down(Some(corner(right, upper)), (7, -3));
            let plan = view.mouse_dragged().expect("a resize is in progress");
            assert_eq!(plan.grow_rightward, right);
            assert_eq!(plan.grow_upward, upper);
            assert_eq!(plan.keep_left_edge, right);
            assert_eq!(plan.keep_bottom_edge, upper);
            assert_eq!(plan.start, (7, -3));
        }
    }
}

#[test]
fn a_resize_keeps_its_latched_corner_while_the_pointer_wanders() {
    let mut view: BubbleView<u32> = BubbleView::new();
    view.mouse_down(Some(corner(false, false)), 9);
    // The growing window brings the pointer inside the circle, then away.
    assert_eq!(view.mouse_moved(Some(inside())), RingLevel::Solid);
    assert_eq!(view.mouse_moved(Some(far_away())), RingLevel::Solid);
    assert_eq!(view.mouse_exited(), RingLevel::Solid);
    assert_eq!(view.mouse_entered(), RingLevel::Solid);
    let plan = view.mouse_dragged().expect("the resize goes on");
    assert!(!plan.grow_rightward);
    assert!(!plan.grow_upward);
    assert!(!plan.keep_left_edge);
    assert!(!plan.keep_bottom_edge);
    assert_eq!(plan.start, 9);
}

#[test]
fn releasing_ends_the_resize() {
    let mut view: BubbleView<u32> = BubbleView::new();
    view.mouse_moved(Some(corner(true, true)));
    view.mouse_down(Some(corner(true, true)), 1);
    assert_eq!(view.mouse_up(), RingLevel::Faint);
    assert!(view.mouse_dragged().is_none());
    view.mouse_down(Some(corner(true, true)), 2);
    view.mouse_exited();
    assert_eq!(view.mouse_up(), RingLevel::Hidden);
    assert!(view.mouse_dragged().is_none());
}

#[test]
fn press_then_release_leaves_a_resting_bubble_as_it_was() {
    let mut view: BubbleView<u32> = BubbleView::new();
    view.mouse_moved(Some(inside()));
    view.mouse_down(Some(corner(false, true)), 4);
    view.mouse_up();
    assert!(view.mouse_dragged().is_none());
    assert_eq!(view.update_ring_feedback(), RingLevel::Faint);
}

#[test]
fn a_second_corner_press_replaces_the_latched_corner() {
    let mut view: BubbleView<u32> = BubbleView::new();
    view.mouse_down(Some(corner(true, true)), 1);
    view.mouse_down(Some(corner(false, false)), 2);
    let plan = view.mouse_dragged().expect("a resize is in progress");
    assert!(!plan.grow_rightward);
    assert!(!plan.grow_upward);
    assert_eq!(plan.start, 2);
}

#[test]
fn a_press_off_the_corners_during_a_resize_keeps_it() {
    let mut view: BubbleView<u32> = BubbleView::new();
    view.mouse_down(Some(corner(true, false)), 1);
    assert_eq!(view.mouse_down(Some(inside()), 2), PressAction::DragWindow);
    let plan = view.mouse_dragged().expect("the resize goes on");
    assert_eq!(plan.start, 1);
}
