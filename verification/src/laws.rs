use vstd::prelude::*;

use crate::bubble::{
    plan_for, press_action, resize_from, ring_level, run, step, BubbleModel, DragState,
    PointerEvent, PressAction,
};
use crate::grip::{classify, Grip, PointerReading};
use crate::ring::RingLevel;

verus! {

/// The grips partition the reach of the pointer: inside the circle it moves
/// the bubble; in a diagonal gap between circle and box, within the halo, it
/// resizes from the corner on the pointer's side; everywhere else, and with
/// no window at all, it is inert.
pub proof fn grips_partition_the_pointer(reading: PointerReading)
    ensures
        classify(Option::None) == Grip::Inert,
        (classify(Option::Some(reading)) == Grip::Move) <==> reading.within_circle,
        (classify(Option::Some(reading)) is Corner) <==> (!reading.within_circle
            && !reading.beyond_halo && !reading.off_diagonal),
        (classify(Option::Some(reading)) is Corner) ==> classify(Option::Some(reading))
            == Grip::Corner(reading.right, reading.upper),
{
}

/// No event can latch anything but a corner grip for a resize.
pub proof fn every_step_keeps_the_latch_a_corner<G>(s: BubbleModel<G>, e: PointerEvent<G>)
    requires
        s.well_formed(),
    ensures
        step(s, e).well_formed(),
{
}

/// Over any sequence of events, only a corner grip is ever latched.
pub proof fn every_run_keeps_the_latch_a_corner<G>(s: BubbleModel<G>, events: Seq<PointerEvent<G>>)
    requires
        s.well_formed(),
    ensures
        run(s, events).well_formed(),
    decreases events.len(),
{
    if events.len() > 0 {
        every_step_keeps_the_latch_a_corner(s, events[0]);
        every_run_keeps_the_latch_a_corner(step(s, events[0]), events.drop_first());
    }
}

/// A resize keeps the corner and the record latched when the button went
/// down, whatever the pointer does (moving, dragging, leaving or entering
/// the view), until the button goes up or down again.
pub proof fn resize_keeps_its_latched_corner<G>(s: BubbleModel<G>, events: Seq<PointerEvent<G>>)
    requires
        forall|i: int|
            0 <= i < events.len() ==> !(#[trigger] events[i] is Down) && !(events[i] is Up),
    ensures
        run(s, events).drag == s.drag,
        resize_from(run(s, events)) == resize_from(s),
    decreases events.len(),
{
    if events.len() > 0 {
        let rest = events.drop_first();
        assert forall|i: int| 0 <= i < rest.len() implies !(#[trigger] rest[i] is Down) && !(
        rest[i] is Up) by {
            assert(rest[i] == events[i + 1]);
        }
        assert(!(events[0] is Down) && !(events[0] is Up));
        resize_keeps_its_latched_corner(step(s, events[0]), rest);
    }
}

/// The ring is solid exactly while a resize is in progress.
pub proof fn ring_is_solid_exactly_while_resizing<G>(s: BubbleModel<G>)
    ensures
        (ring_level(s) == RingLevel::Solid) <==> s.drag is Some,
{
}

/// While no resize is in progress, the ring is a faint halo exactly when the
/// pointer is over something it can grab, and hidden otherwise.
pub proof fn ring_shows_what_the_pointer_can_grab<G>(s: BubbleModel<G>)
    requires
        s.drag is None,
    ensures
        (ring_level(s) == RingLevel::Faint) <==> !(s.pointer_grip is Inert),
        (ring_level(s) == RingLevel::Hidden) <==> s.pointer_grip is Inert,
{
}

/// Releasing the button ends any resize and leaves the hover grip alone; the
/// ring is then no longer solid.
pub proof fn release_ends_the_resize<G>(s: BubbleModel<G>)
    ensures
        step(s, PointerEvent::Up).drag is None,
        step(s, PointerEvent::Up).pointer_grip == s.pointer_grip,
        ring_level(step(s, PointerEvent::Up)) != RingLevel::Solid,
{
}

/// A press anywhere but over a corner gap changes nothing in the bubble's
/// state (over the circle, the window drags itself).
pub proof fn press_off_the_corners_changes_nothing<G>(
    s: BubbleModel<G>,
    reading: Option<PointerReading>,
    start: G,
)
    requires
        !(classify(reading) is Corner),
    ensures
        step(s, PointerEvent::Down(reading, start)) == s,
{
}

/// A press over a corner gap starts a resize from that corner, keeping the
/// record given with the press, and the ring turns solid.
pub proof fn press_on_a_corner_starts_a_resize<G>(
    s: BubbleModel<G>,
    reading: PointerReading,
    start: G,
)
    requires
        classify(Option::Some(reading)) is Corner,
    ensures
        resize_from(step(s, PointerEvent::Down(Option::Some(reading), start))) == Option::Some(
            plan_for(reading.right, reading.upper, start),
        ),
        ring_level(step(s, PointerEvent::Down(Option::Some(reading), start))) == RingLevel::Solid,
{
}

/// A resize grows the window away from the grabbed corner's opposite edges
/// and keeps those edges in place: a right corner grows with rightward travel
/// and keeps the left edge, a left corner grows with leftward travel and
/// keeps the right edge; likewise upper corners keep the bottom edge and
/// lower corners the top edge.
pub proof fn resize_anchors_the_opposite_edges<G>(s: BubbleModel<G>)
    requires
        s.well_formed(),
        s.drag is Some,
    ensures
        resize_from(s) is Some,
        ({
            let plan = resize_from(s).unwrap();
            let corner = s.drag.unwrap().grip;
            &&& corner == Grip::Corner(plan.grow_rightward, plan.grow_upward)
            &&& plan.keep_left_edge == plan.grow_rightward
            &&& plan.keep_bottom_edge == plan.grow_upward
            &&& plan.start == s.drag.unwrap().start
        }),
{
}

/// A press followed by a release leaves a bubble at rest as it was.
pub proof fn press_then_release_restores_rest<G>(
    s: BubbleModel<G>,
    reading: Option<PointerReading>,
    start: G,
)
    requires
        s.drag is None,
    ensures
        run(s, seq![PointerEvent::Down(reading, start), PointerEvent::Up]) == s,
{
    let events = seq![PointerEvent::Down(reading, start), PointerEvent::Up];
    let mid = step(s, events[0]);
    assert(events.drop_first() =~= seq![PointerEvent::<G>::Up]);
    assert(seq![PointerEvent::<G>::Up].drop_first() =~= Seq::<PointerEvent<G>>::empty());
    assert(run(mid, events.drop_first()) == run(step(mid, PointerEvent::Up), Seq::<PointerEvent<G>>::empty()));
}

/// Once the pointer leaves the view with no resize in progress, the ring is
/// hidden.
pub proof fn leaving_hides_the_ring<G>(s: BubbleModel<G>)
    requires
        s.drag is None,
    ensures
        ring_level(step(s, PointerEvent::Exited)) == RingLevel::Hidden,
{
}

/// A pointer move with no button held takes the grip under the pointer
/// afresh, whatever the state, resize or not: inside the circle it is the
/// move grip; in a corner gap (within the halo, near the diagonal) it is that
/// corner; beyond the halo, off the diagonal or with no window it is inert.
/// A move never starts, ends or alters a resize. With no resize in progress,
/// the ring then shows a faint halo exactly over a grabbable spot and is
/// hidden elsewhere; during a resize it stays solid.
pub proof fn hover_grip_follows_the_pointer<G>(s: BubbleModel<G>, reading: Option<PointerReading>)
    ensures
        step(s, PointerEvent::Moved(reading)).drag == s.drag,
        reading is None ==> step(s, PointerEvent::Moved(reading)).pointer_grip == Grip::Inert,
        reading matches Option::Some(r) ==> {
            let t = step(s, PointerEvent::Moved(reading));
            &&& r.within_circle ==> t.pointer_grip == Grip::Move
            &&& (!r.within_circle && (r.beyond_halo || r.off_diagonal)) ==> t.pointer_grip
                == Grip::Inert
            &&& (!r.within_circle && !r.beyond_halo && !r.off_diagonal) ==> t.pointer_grip
                == Grip::Corner(r.right, r.upper)
            &&& s.drag is None ==> (ring_level(t) == RingLevel::Hidden <==> (!r.within_circle && (
            r.beyond_halo || r.off_diagonal)))
            &&& s.drag is None ==> (ring_level(t) == RingLevel::Faint <==> (r.within_circle || (
            !r.beyond_halo && !r.off_diagonal)))
        },
        s.drag is None && reading is None ==> ring_level(step(s, PointerEvent::Moved(reading)))
            == RingLevel::Hidden,
        s.drag is Some ==> ring_level(step(s, PointerEvent::Moved(reading))) == RingLevel::Solid,
{
}

/// Two states that differ only in their resize take the same hover grip from
/// the same pointer move.
pub proof fn hover_grip_ignores_the_resize<G>(
    s1: BubbleModel<G>,
    s2: BubbleModel<G>,
    reading: Option<PointerReading>,
)
    ensures
        step(s1, PointerEvent::Moved(reading)).pointer_grip == step(
            s2,
            PointerEvent::Moved(reading),
        ).pointer_grip,
{
}

/// A press answers: drag the window exactly when the pointer is inside the
/// circle; begin a resize with the solid ring exactly when it is in a corner
/// gap, latching that corner and the record given with the press; ignore it
/// otherwise (beyond the halo, off the diagonal, or no window). Only a corner
/// press changes the state, and it leaves the hover grip alone.
pub proof fn press_answers_by_where_it_lands<G>(
    s: BubbleModel<G>,
    reading: Option<PointerReading>,
    start: G,
)
    ensures
        ({
            let t = step(s, PointerEvent::Down(reading, start));
            let a = press_action(classify(reading), t);
            &&& (a == PressAction::DragWindow) <==> (reading matches Option::Some(r)
                && r.within_circle)
            &&& (a == PressAction::BeginResize(RingLevel::Solid)) <==> (reading matches Option::Some(
                r,
            ) && !r.within_circle && !r.beyond_halo && !r.off_diagonal)
            &&& (a == PressAction::Ignore) <==> (reading is None || (reading matches Option::Some(
                r,
            ) && !r.within_circle && (r.beyond_halo || r.off_diagonal)))
            &&& (a is BeginResize) ==> a == PressAction::BeginResize(RingLevel::Solid)
            &&& (a is BeginResize) ==> a == PressAction::BeginResize(ring_level(t))
            &&& t.pointer_grip == s.pointer_grip
            &&& !(a is BeginResize) ==> t == s
            &&& reading matches Option::Some(r) ==> ((!r.within_circle && !r.beyond_halo
                && !r.off_diagonal) ==> t.drag == Option::Some(
                DragState { grip: Grip::Corner(r.right, r.upper), start },
            ))
        }),
{
}

/// Leaving the view sets the hover grip to inert whatever the state, resize
/// or not, and leaves any resize alone; once the button is then released the
/// ring is hidden until the pointer moves again.
pub proof fn leaving_clears_the_hover_grip<G>(s: BubbleModel<G>)
    ensures
        step(s, PointerEvent::Exited).pointer_grip == Grip::Inert,
        step(s, PointerEvent::Exited).drag == s.drag,
        ring_level(step(step(s, PointerEvent::Exited), PointerEvent::Up)) == RingLevel::Hidden,
        s.drag is Some ==> ring_level(step(s, PointerEvent::Exited)) == RingLevel::Solid,
        s.drag is None ==> ring_level(step(s, PointerEvent::Exited)) == RingLevel::Hidden,
{
}

/// Entering the view and dragging the pointer change nothing in the state.
pub proof fn entering_and_dragging_change_nothing<G>(s: BubbleModel<G>)
    ensures
        step(s, PointerEvent::Entered) == s,
        step(s, PointerEvent::Dragged) == s,
{
}

/// With no resize in progress there is no resize plan; during one there is.
pub proof fn a_plan_exists_exactly_during_a_resize<G>(s: BubbleModel<G>)
    requires
        s.well_formed(),
    ensures
        resize_from(s) is Some <==> s.drag is Some,
{
}

} // verus!
