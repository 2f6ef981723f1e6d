use vstd::prelude::*;

use crate::grip::{classify, Grip, PointerReading};
use crate::ring::RingLevel;

verus! {

/// A resize in progress: the grip latched when the button went down, and
/// whatever the caller recorded of the window and the pointer at that time.
#[derive(Debug)]
pub struct DragState<G> {
    pub grip: Grip,
    pub start: G,
}

/// The abstract state of a bubble: the resize in progress, if any, and the
/// grip under the pointer as last seen while hovering.
pub struct BubbleModel<G> {
    pub drag: Option<DragState<G>>,
    pub pointer_grip: Grip,
}

impl<G> BubbleModel<G> {
    /// Only a corner grip is ever latched for a resize.
    pub open spec fn well_formed(self) -> bool {
        self.drag matches Option::Some(d) ==> d.grip is Corner
    }
}

/// What the pointer does to the bubble, with what the caller measured at
/// the time of the event.
pub enum PointerEvent<G> {
    /// The button went down; the reading is `None` when the view has no window.
    Down(Option<PointerReading>, G),
    /// The pointer moved with the button held.
    Dragged,
    /// The button went up.
    Up,
    /// The pointer entered the view.
    Entered,
    /// The pointer left the view.
    Exited,
    /// The pointer moved with no button held.
    Moved(Option<PointerReading>),
}

/// The state after one event.
pub open spec fn step<G>(s: BubbleModel<G>, e: PointerEvent<G>) -> BubbleModel<G> {
    match e {
        PointerEvent::Down(reading, start) => {
            let grip = classify(reading);
            if grip is Corner {
                BubbleModel { drag: Option::Some(DragState { grip, start }), ..s }
            } else {
                s
            }
        },
        PointerEvent::Dragged => s,
        PointerEvent::Up => BubbleModel { drag: Option::None, ..s },
        PointerEvent::Entered => s,
        PointerEvent::Exited => BubbleModel { pointer_grip: Grip::Inert, ..s },
        PointerEvent::Moved(reading) => BubbleModel { pointer_grip: classify(reading), ..s },
    }
}

/// The state after a sequence of events, taken in order.
pub open spec fn run<G>(s: BubbleModel<G>, events: Seq<PointerEvent<G>>) -> BubbleModel<G>
    decreases events.len(),
{
    if events.len() == 0 {
        s
    } else {
        run(step(s, events[0]), events.drop_first())
    }
}

/// The ring: solid while resizing, a faint halo when the pointer can grab
/// something, hidden otherwise.
pub open spec fn ring_level<G>(s: BubbleModel<G>) -> RingLevel {
    if s.drag is Some {
        RingLevel::Solid
    } else {
        match s.pointer_grip {
            Grip::Move => RingLevel::Faint,
            Grip::Corner(_, _) => RingLevel::Faint,
            Grip::Inert => RingLevel::Hidden,
        }
    }
}

/// What a press asks of the caller.
#[derive(Clone, Copy, Debug, PartialEq, Eq, Structural)]
pub enum PressAction {
    /// Hand the press to the window, which drags itself with the pointer.
    DragWindow,
    /// A resize has begun; show the ring at this level.
    BeginResize(RingLevel),
    /// Nothing reacts.
    Ignore,
}

/// The answer to a press that found the pointer over `grip`, the bubble
/// being in state `after` once the press is taken.
pub open spec fn press_action<G>(grip: Grip, after: BubbleModel<G>) -> PressAction {
    match grip {
        Grip::Move => PressAction::DragWindow,
        Grip::Corner(_, _) => PressAction::BeginResize(ring_level(after)),
        Grip::Inert => PressAction::Ignore,
    }
}

/// How to resize the window while the pointer is dragged from a grabbed
/// corner. The size is driven by whichever axis leads; the two edges opposite
/// the grabbed corner stay where they were.
pub struct ResizePlan<G> {
    /// The pointer's horizontal travel counts toward growth as measured
    /// (a right corner) rather than negated (a left corner).
    pub grow_rightward: bool,
    /// The pointer's vertical travel counts toward growth as measured
    /// (an upper corner) rather than negated (a lower corner).
    pub grow_upward: bool,
    /// The window's left edge stays put; otherwise its right edge does.
    pub keep_left_edge: bool,
    /// The window's bottom edge stays put; otherwise its top edge does.
    pub keep_bottom_edge: bool,
    /// What the caller recorded when the button went down.
    pub start: G,
}

/// The plan for a resize from the corner `(is_right, is_upper)`.
pub open spec fn plan_for<G>(is_right: bool, is_upper: bool, start: G) -> ResizePlan<G> {
    ResizePlan {
        grow_rightward: is_right,
        grow_upward: is_upper,
        keep_left_edge: is_right,
        keep_bottom_edge: is_upper,
        start,
    }
}

/// The resize to carry out while one is in progress: from the corner
/// latched at the press, with the record taken then.
pub open spec fn resize_from<G>(s: BubbleModel<G>) -> Option<ResizePlan<G>> {
    match s.drag {
        Option::Some(d) => match d.grip {
            Grip::Corner(is_right, is_upper) => Option::Some(plan_for(is_right, is_upper, d.start)),
            _ => Option::None,
        },
        Option::None => Option::None,
    }
}

/// The interaction state of the bubble view.
///
/// `G` is what the caller records of the window and the pointer when a
/// resize starts; the bubble keeps it, unread, until the resize ends.
pub struct BubbleView<G> {
    drag: Option<DragState<G>>,
    pointer_grip: Grip,
}

impl<G> View for BubbleView<G> {
    type V = BubbleModel<G>;

    closed spec fn view(&self) -> BubbleModel<G> {
        BubbleModel { drag: self.drag, pointer_grip: self.pointer_grip }
    }
}

impl<G> BubbleView<G> {
    #[verifier::type_invariant]
    spec fn latched_grip_is_corner(self) -> bool {
        self@.well_formed()
    }

    /// A bubble at rest: no resize, and the pointer over nothing.
    pub fn new() -> (v: Self)
        ensures
            v@.drag is None,
            v@.pointer_grip == Grip::Inert,
            v@.well_formed(),
    {
        BubbleView { drag: None, pointer_grip: Grip::Inert }
    }

    /// Classifies the pointer into an interaction grip: inside the circle it
    /// moves the bubble, in the diagonal gaps between circle and box it
    /// resizes, and everywhere else (or with no window) it is inert.
    pub fn grip_at_pointer(reading: Option<PointerReading>) -> (grip: Grip)
        ensures
            grip == classify(reading),
    {
        match reading {
            None => Grip::Inert,
            Some(r) => {
                if r.within_circle {
                    Grip::Move
                } else if r.beyond_halo {
                    Grip::Inert
                } else if r.off_diagonal {
                    Grip::Inert
                } else {
                    Grip::Corner(r.right, r.upper)
                }
            },
        }
    }

    /// The ring the bubble should show now: solid while resizing, a faint
    /// halo when the pointer can grab something, hidden otherwise.
    pub fn update_ring_feedback(&self) -> (level: RingLevel)
        ensures
            level == ring_level(self@),
    {
        if self.drag.is_some() {
            RingLevel::Solid
        } else {
            match self.pointer_grip {
                Grip::Move | Grip::Corner(..) => RingLevel::Faint,
                Grip::Inert => RingLevel::Hidden,
            }
        }
    }

    /// The button went down. Over the circle the window is dragged; over a
    /// corner gap a resize from that corner begins, with `start` kept for
    /// the rest of it; elsewhere nothing happens.
    pub fn mouse_down(&mut self, reading: Option<PointerReading>, start: G) -> (action: PressAction)
        ensures
            final(self)@ == step(old(self)@, PointerEvent::Down(reading, start)),
            action == press_action(classify(reading), final(self)@),
            final(self)@.well_formed(),
    {
        proof {
            use_type_invariant(&*self);
        }
        let grip = Self::grip_at_pointer(reading);
        match grip {
            Grip::Move => PressAction::DragWindow,
            Grip::Corner(..) => {
                self.drag = Some(DragState { grip, start });
                PressAction::BeginResize(self.update_ring_feedback())
            },
            Grip::Inert => PressAction::Ignore,
        }
    }

    /// The button went up: any resize ends. Returns the ring to show.
    pub fn mouse_up(&mut self) -> (level: RingLevel)
        ensures
            final(self)@ == step(old(self)@, PointerEvent::Up),
            level == ring_level(final(self)@),
            final(self)@.well_formed(),
    {
        self.drag = None;
        self.update_ring_feedback()
    }

    /// The pointer entered the view. Returns the ring to show.
    pub fn mouse_entered(&self) -> (level: RingLevel)
        ensures
            step(self@, PointerEvent::Entered) == self@,
            level == ring_level(self@),
    {
        self.update_ring_feedback()
    }

    /// The pointer left the view: it is over nothing now. Returns the ring
    /// to show.
    pub fn mouse_exited(&mut self) -> (level: RingLevel)
        ensures
            final(self)@ == step(old(self)@, PointerEvent::Exited),
            level == ring_level(final(self)@),
            final(self)@.well_formed(),
    {
        proof {
            use_type_invariant(&*self);
        }
        self.pointer_grip = Grip::Inert;
        self.update_ring_feedback()
    }

    /// The pointer moved with no button held: the grip under it is taken
    /// afresh. Returns the ring to show.
    pub fn mouse_moved(&mut self, reading: Option<PointerReading>) -> (level: RingLevel)
        ensures
            final(self)@ == step(old(self)@, PointerEvent::Moved(reading)),
            level == ring_level(final(self)@),
            final(self)@.well_formed(),
    {
        proof {
            use_type_invariant(&*self);
        }
        self.pointer_grip = Self::grip_at_pointer(reading);
        self.update_ring_feedback()
    }
}

impl<G: Copy> BubbleView<G> {
    /// The pointer moved with the button held. While a resize is in progress
    /// this is the plan for it, from the corner latched at the press and with
    /// the record taken then; the grip under the pointer now plays no part.
    /// Otherwise `None`: nothing reacts.
    pub fn mouse_dragged(&self) -> (plan: Option<ResizePlan<G>>)
        ensures
            step(self@, PointerEvent::Dragged) == self@,
            plan == resize_from(self@),
            plan is Some <==> self@.drag is Some,
    {
        proof {
            use_type_invariant(self);
        }
        match &self.drag {
            None => None,
            Some(state) => match state.grip {
                Grip::Corner(is_right, is_upper) => Some(
                    ResizePlan {
                        grow_rightward: is_right,
                        grow_upward: is_upper,
                        keep_left_edge: is_right,
                        keep_bottom_edge: is_upper,
                        start: state.start,
                    },
                ),
                _ => None,
            },
        }
    }
}

} // verus!
