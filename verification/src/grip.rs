use vstd::prelude::*;

verus! {

/// Which gesture the pointer is over.
#[derive(Clone, Copy, Debug, PartialEq, Eq, Structural)]
pub enum Grip {
    /// Inside the circle: press and drag moves the bubble.
    Move,
    /// Diagonal gap between the circle and its bounding box, as
    /// `(right side, upper half)` in view coordinates: press and drag
    /// resizes from that corner.
    Corner(bool, bool),
    /// Nowhere that reacts: neither moves nor resizes the bubble.
    Inert,
}

/// What the pointer's position says, measured against the bubble's circle.
///
/// Each field is one comparison on the pointer's offset from the centre of
/// the view; the caller makes the measurements, this library decides.
#[derive(Clone, Copy, Debug, PartialEq, Eq, Structural)]
pub struct PointerReading {
    /// The distance from the centre is at most the inner grab radius.
    pub within_circle: bool,
    /// The distance from the centre exceeds the radius plus the halo margin.
    pub beyond_halo: bool,
    /// The pointer's angle is further from a 45-degree diagonal than the
    /// corner tolerance.
    pub off_diagonal: bool,
    /// The offset along x is positive.
    pub right: bool,
    /// The offset along y is positive (view coordinates grow upward).
    pub upper: bool,
}

/// The grip that a reading falls in; `None` stands for a view with no window.
pub open spec fn classify(reading: Option<PointerReading>) -> Grip {
    match reading {
        Option::None => Grip::Inert,
        Option::Some(r) => {
            if r.within_circle {
                Grip::Move
            } else if r.beyond_halo || r.off_diagonal {
                Grip::Inert
            } else {
                Grip::Corner(r.right, r.upper)
            }
        },
    }
}

} // verus!
