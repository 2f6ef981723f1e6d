use vstd::prelude::*;

verus! {

/// How the feedback ring around the bubble is shown.
#[derive(Clone, Copy, Debug, PartialEq, Eq, Structural)]
pub enum RingLevel {
    /// A solid ring: a resize is in progress.
    Solid,
    /// A faint halo: the pointer is over something it can grab.
    Faint,
    /// No ring.
    Hidden,
}

} // verus!
